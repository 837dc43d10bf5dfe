use mygpoclient::client::AuthenticatedClient;
use mygpoclient::client::DeviceClient;
use mygpoclient::client::PublicClient;
use mygpoclient::device::DeviceType;
use mygpoclient::device::ListDevices;
use mygpoclient::device::UpdateDeviceData;
use mygpoclient::directory::PodcastSearch;
use mygpoclient::directory::PodcastToplist;
use mygpoclient::directory::RetrieveEpisodeData;
use mygpoclient::directory::RetrievePodcastData;
use mygpoclient::directory::RetrievePodcastsForTag;
use mygpoclient::directory::RetrieveTopTags;
use mygpoclient::episode::GetEpisodeActions;
use mygpoclient::episode::UploadEpisodeActions;
use mygpoclient::favorite::GetFavoriteEpisodes;
use mygpoclient::http::HttpMethod;
use mygpoclient::settings::GetAccountSettings;
use mygpoclient::settings::GetDeviceSettings;
use mygpoclient::settings::GetEpisodeSettings;
use mygpoclient::settings::GetPodcastSettings;
use mygpoclient::settings::SaveAccountSettings;
use mygpoclient::settings::SaveDeviceSettings;
use mygpoclient::subscription::GetAllSubscriptions;
use mygpoclient::subscription::SubscriptionChanges;
use mygpoclient::subscription::SubscriptionsOfDevice;
use mygpoclient::suggestion::Suggestions;

#[test]
fn top_tags_request_has_the_fixed_url() {
    let request = PublicClient::new().retrieve_top_tags_request(10);
    assert_eq!(request.method, HttpMethod::Get);
    assert_eq!(request.url, "https://gpodder.net/api/2/tags/10.json");
    assert!(request.query.is_empty());
    assert_eq!(request.body, None);
    assert_eq!(request.auth, None);
}

#[test]
fn delegated_requests_differ_only_in_credentials() {
    let public = PublicClient::new().retrieve_top_tags_request(10);
    let authenticated = AuthenticatedClient::new("alice", "SECRET-REDACTED")
        .retrieve_top_tags_request(10);
    let device = DeviceClient::new("alice", "SECRET-REDACTED", "abcdef")
        .retrieve_top_tags_request(10);

    assert_eq!(public.method, authenticated.method);
    assert_eq!(public.url, authenticated.url);
    assert_eq!(public.query, authenticated.query);
    assert_eq!(public.body, authenticated.body);
    assert_eq!(public.auth, None);
    assert_eq!(
        authenticated.auth,
        Some((String::from("alice"), String::from("SECRET-REDACTED")))
    );

    assert_eq!(device.method, authenticated.method);
    assert_eq!(device.url, authenticated.url);
    assert_eq!(device.query, authenticated.query);
    assert_eq!(device.body, authenticated.body);
    assert_eq!(device.auth, authenticated.auth);
}

#[test]
fn list_devices_request_names_the_user() {
    let client = AuthenticatedClient::new("alice", "SECRET-REDACTED");
    let request = client.list_devices_request();
    assert_eq!(request.method, HttpMethod::Get);
    assert_eq!(request.url, "https://gpodder.net/api/2/devices/alice.json");
}

#[test]
fn update_device_data_request_sends_only_supplied_fields() {
    let client = DeviceClient::new("alice", "SECRET-REDACTED", "abcdef");

    let both = client
        .update_device_data_request(Some(String::from("My Phone")), Some(DeviceType::Mobile));
    assert_eq!(both.method, HttpMethod::Post);
    assert_eq!(
        both.url,
        "https://gpodder.net/api/2/devices/alice/abcdef.json"
    );
    assert_eq!(
        both.body,
        Some(String::from("{\"caption\":\"My Phone\",\"type\":\"mobile\"}"))
    );

    let caption_only = client.update_device_data_request(Some(String::from("My Phone")), None);
    assert_eq!(
        caption_only.body,
        Some(String::from("{\"caption\":\"My Phone\"}"))
    );

    let neither = client.update_device_data_request(None, None);
    assert_eq!(neither.body, Some(String::from("{}")));
}

#[test]
fn tag_is_percent_encoded_into_the_path() {
    let request = PublicClient::new().retrieve_podcasts_for_tag_request("new tag", 3);
    assert_eq!(
        request.url,
        "https://gpodder.net/api/2/tag/new+tag/3.json"
    );

    let request = PublicClient::new().retrieve_podcasts_for_tag_request("a&b/c", 3);
    assert_eq!(
        request.url,
        "https://gpodder.net/api/2/tag/a%26b%2Fc/3.json"
    );
}

#[test]
fn lookup_requests_carry_their_urls_in_the_query() {
    let request = PublicClient::new()
        .retrieve_podcast_data_request(String::from("http://feeds.feedburner.com/coverville"));
    assert_eq!(request.url, "https://gpodder.net/api/2/data/podcast.json");
    assert_eq!(
        request.query,
        vec![(
            String::from("url"),
            String::from("http://feeds.feedburner.com/coverville")
        )]
    );

    let request = PublicClient::new().retrieve_episode_data_request(
        String::from("http://ftp.example.org/foo2.ogg"),
        String::from("http://example.org/podcast2.php"),
    );
    assert_eq!(request.url, "https://gpodder.net/api/2/data/episode.json");
    assert_eq!(
        request.query,
        vec![
            (
                String::from("url"),
                String::from("http://ftp.example.org/foo2.ogg")
            ),
            (
                String::from("podcast"),
                String::from("http://example.org/podcast2.php")
            ),
        ]
    );
}

#[test]
fn toplist_and_search_requests() {
    let request = PublicClient::new().podcast_toplist_request(5, Some(256));
    assert_eq!(request.url, "https://gpodder.net/toplist/5.json");
    assert_eq!(
        request.query,
        vec![(String::from("scale_logo"), String::from("256"))]
    );

    let request = PublicClient::new().podcast_toplist_request(5, None);
    assert!(request.query.is_empty());

    let request = PublicClient::new().podcast_search_request(String::from("raumzeit"), None);
    assert_eq!(request.url, "https://gpodder.net/search.json");
    assert_eq!(
        request.query,
        vec![(String::from("q"), String::from("raumzeit"))]
    );
}

#[test]
fn subscription_requests() {
    let client = DeviceClient::new("alice", "SECRET-REDACTED", "abcdef");

    let request = client.get_all_subscriptions_request();
    assert_eq!(request.url, "https://gpodder.net/subscriptions/alice.json");

    let request = client.get_subscriptions_of_device_request();
    assert_eq!(
        request.url,
        "https://gpodder.net/subscriptions/alice/abcdef.json"
    );

    let request = client.upload_subscriptions_of_device_request(&vec![
        String::from("http://example.com/feed.rss"),
        String::from("http://example.org/podcast.php"),
    ]);
    assert_eq!(request.method, HttpMethod::Put);
    assert_eq!(
        request.body,
        Some(String::from(
            "[\"http://example.com/feed.rss\",\"http://example.org/podcast.php\"]"
        ))
    );

    let request = client.upload_subscription_changes_request(
        &vec![String::from("http://example.com/feed.rss")],
        &vec![String::from("http://example.net/foo.xml")],
    );
    assert_eq!(request.method, HttpMethod::Post);
    assert_eq!(
        request.url,
        "https://gpodder.net/api/2/subscriptions/alice/abcdef.json"
    );
    assert_eq!(
        request.body,
        Some(String::from(
            "{\"add\":[\"http://example.com/feed.rss\"],\
             \"remove\":[\"http://example.net/foo.xml\"]}"
        ))
    );

    let request = client.get_subscription_changes_request(Some(1337));
    assert_eq!(request.method, HttpMethod::Get);
    assert_eq!(
        request.query,
        vec![(String::from("since"), String::from("1337"))]
    );

    let request = client.get_subscription_changes_request(None);
    assert!(request.query.is_empty());
}

#[test]
fn episode_action_requests() {
    let client = AuthenticatedClient::new("alice", "SECRET-REDACTED");

    let request = client.upload_episode_actions_request(&vec![]);
    assert_eq!(request.method, HttpMethod::Post);
    assert_eq!(request.url, "https://gpodder.net/api/2/episodes/alice.json");
    assert_eq!(request.body, Some(String::from("[]")));

    let request = client.get_episode_actions_request(None, None, false);
    assert_eq!(request.method, HttpMethod::Get);
    assert_eq!(
        request.query,
        vec![(String::from("aggregated"), String::from("false"))]
    );

    let request = client.get_episode_actions_request(
        Some(String::from("http://example.com/feed.rss")),
        Some(1337),
        true,
    );
    assert_eq!(
        request.query,
        vec![
            (String::from("aggregated"), String::from("true")),
            (String::from("since"), String::from("1337")),
            (
                String::from("podcast"),
                String::from("http://example.com/feed.rss")
            ),
        ]
    );
}

#[test]
fn settings_requests() {
    let client = DeviceClient::new("alice", "SECRET-REDACTED", "abcdef");

    let request = client.save_account_settings_request(
        &vec![(String::from("setting1"), String::from("value1"))],
        &vec![String::from("setting3")],
    );
    assert_eq!(request.method, HttpMethod::Post);
    assert_eq!(
        request.url,
        "https://gpodder.net/api/2/settings/alice/account.json"
    );
    assert_eq!(
        request.body,
        Some(String::from(
            "{\"set\":{\"setting1\":\"value1\"},\"remove\":[\"setting3\"]}"
        ))
    );

    let request = client.save_device_settings_request(
        &vec![
            (String::from("a"), String::from("1")),
            (String::from("b"), String::from("2")),
        ],
        &vec![],
    );
    assert_eq!(
        request.url,
        "https://gpodder.net/api/2/settings/alice/device.json"
    );
    assert_eq!(
        request.query,
        vec![(String::from("device"), String::from("abcdef"))]
    );
    assert_eq!(
        request.body,
        Some(String::from(
            "{\"set\":{\"a\":\"1\",\"b\":\"2\"},\"remove\":[]}"
        ))
    );

    let request =
        client.get_podcast_settings_request(String::from("http://goinglinux.com/mp3podcast.xml"));
    assert_eq!(
        request.url,
        "https://gpodder.net/api/2/settings/alice/podcast.json"
    );
    assert_eq!(
        request.query,
        vec![(
            String::from("podcast"),
            String::from("http://goinglinux.com/mp3podcast.xml")
        )]
    );

    let request = client.get_episode_settings_request(
        String::from("http://example.com/feed1.rss"),
        String::from("http://example.com/files/s01e20.mp3"),
    );
    assert_eq!(
        request.url,
        "https://gpodder.net/api/2/settings/alice/episode.json"
    );
    assert_eq!(
        request.query,
        vec![
            (
                String::from("podcast"),
                String::from("http://example.com/feed1.rss")
            ),
            (
                String::from("episode"),
                String::from("http://example.com/files/s01e20.mp3")
            ),
        ]
    );

    let request = client.get_account_settings_request();
    assert_eq!(
        request.url,
        "https://gpodder.net/api/2/settings/alice/account.json"
    );

    let request = client.get_device_settings_request();
    assert_eq!(
        request.query,
        vec![(String::from("device"), String::from("abcdef"))]
    );
}

#[test]
fn suggestion_and_favorite_requests() {
    let client = AuthenticatedClient::new("alice", "SECRET-REDACTED");

    let request = client.retrieve_suggested_podcasts_request(3);
    assert_eq!(request.url, "https://gpodder.net/suggestions/3.json");

    let request = client.get_favorite_episodes_request();
    assert_eq!(request.url, "https://gpodder.net/api/2/favorites/alice.json");
}

#[test]
fn string_escaping_in_bodies() {
    let client = DeviceClient::new("alice", "SECRET-REDACTED", "abcdef");
    let request = client.update_device_data_request(
        Some(String::from("a \"quoted\" name\nwith\\slash")),
        None,
    );
    assert_eq!(
        request.body,
        Some(String::from(
            "{\"caption\":\"a \\\"quoted\\\" name\\nwith\\\\slash\"}"
        ))
    );
}
