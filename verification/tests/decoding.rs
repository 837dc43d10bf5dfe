use mygpoclient::datetime::format_iso;
use mygpoclient::datetime::parse_iso;
use mygpoclient::datetime::DateTime;
use mygpoclient::device::Device;
use mygpoclient::device::DeviceType;
use mygpoclient::directory::Episode;
use mygpoclient::directory::Tag;
use mygpoclient::episode::parse_episode_actions_response;
use mygpoclient::episode::parse_upload_episode_actions_response;
use mygpoclient::episode::EpisodeActionType;
use mygpoclient::error::Error;
use mygpoclient::json::decode_list;
use mygpoclient::json::JsonDecode;
use mygpoclient::json::JsonValue;
use mygpoclient::settings::parse_settings;
use mygpoclient::subscription::parse_subscription_changes_response;
use mygpoclient::subscription::parse_upload_subscription_changes_response;
use mygpoclient::subscription::Subscription;
use mygpoclient::suggestion::Suggestion;

fn obj(fields: Vec<(&str, JsonValue)>) -> JsonValue {
    JsonValue::Obj(
        fields
            .into_iter()
            .map(|(k, v)| (String::from(k), v))
            .collect(),
    )
}

fn s(value: &str) -> JsonValue {
    JsonValue::Str(String::from(value))
}

#[test]
fn empty_device_list_decodes_to_empty() {
    let devices: Option<Vec<Device>> = decode_list(&JsonValue::Arr(vec![]));
    assert_eq!(devices, Some(vec![]));
}

#[test]
fn device_list_decodes_records() {
    let json = JsonValue::Arr(vec![obj(vec![
        ("id", s("abcdef")),
        ("caption", s("gPodder on my Lappy")),
        ("type", s("laptop")),
        ("subscriptions", JsonValue::UInt(27)),
    ])]);
    let devices: Vec<Device> = decode_list(&json).unwrap();
    assert_eq!(devices.len(), 1);
    assert_eq!(devices[0].id, "abcdef");
    assert_eq!(devices[0].caption, "gPodder on my Lappy");
    assert_eq!(devices[0].device_type, DeviceType::Laptop);
    assert_eq!(devices[0].subscriptions, 27);
}

#[test]
fn device_with_unknown_type_does_not_decode() {
    let json = JsonValue::Arr(vec![obj(vec![
        ("id", s("abcdef")),
        ("caption", s("x")),
        ("type", s("wearable")),
        ("subscriptions", JsonValue::UInt(0)),
    ])]);
    let devices: Option<Vec<Device>> = decode_list(&json);
    assert_eq!(devices, None);
}

#[test]
fn upload_subscription_changes_response_decodes() {
    let json = obj(vec![
        ("timestamp", JsonValue::UInt(1337)),
        (
            "update_urls",
            JsonValue::Arr(vec![JsonValue::Arr(vec![
                s("http://feeds2.feedburner.com/LinuxOutlaws?format=xml"),
                s("http://feeds.feedburner.com/LinuxOutlaws"),
            ])]),
        ),
    ]);
    let response = parse_upload_subscription_changes_response(&json).unwrap();
    assert_eq!(response.timestamp, 1337);
    assert_eq!(
        response.update_urls,
        vec![(
            String::from("http://feeds2.feedburner.com/LinuxOutlaws?format=xml"),
            String::from("http://feeds.feedburner.com/LinuxOutlaws"),
        )]
    );
}

#[test]
fn subscription_changes_response_decodes() {
    let json = obj(vec![
        ("timestamp", JsonValue::UInt(12347)),
        ("add", JsonValue::Arr(vec![s("http://example.com/feed.rss")])),
        ("remove", JsonValue::Arr(vec![])),
    ]);
    let response = parse_subscription_changes_response(&json).unwrap();
    assert_eq!(response.timestamp, 12347);
    assert_eq!(response.add, vec![String::from("http://example.com/feed.rss")]);
    assert_eq!(response.remove, Vec::<String>::new());
}

#[test]
fn subscription_record_decodes_with_optional_fields_absent() {
    let json = obj(vec![
        ("url", s("http://goinglinux.com/mp3podcast.xml")),
        ("title", s("Going Linux")),
        ("description", s("Linux podcast")),
        ("subscribers", JsonValue::UInt(571)),
        ("subscribers_last_week", JsonValue::UInt(570)),
        ("mygpo_link", s("http://gpodder.net/podcast/11171")),
        ("logo_url", JsonValue::Null),
    ]);
    let subscription = Subscription::decode_json(&json).unwrap();
    assert_eq!(subscription.url, "http://goinglinux.com/mp3podcast.xml");
    assert_eq!(subscription.subscribers, 571);
    assert_eq!(subscription.logo_url, None);
    assert_eq!(subscription.scaled_logo_url, None);
    assert_eq!(subscription.website, None);
}

#[test]
fn empty_episode_actions_response_decodes() {
    let json = obj(vec![
        ("actions", JsonValue::Arr(vec![])),
        ("timestamp", JsonValue::UInt(12345)),
    ]);
    let response = parse_episode_actions_response(&json).unwrap();
    assert!(response.actions.is_empty());
    assert_eq!(response.timestamp, 12345);
}

#[test]
fn episode_actions_response_decodes_play_action() {
    let json = obj(vec![
        (
            "actions",
            JsonValue::Arr(vec![obj(vec![
                ("podcast", s("http://example.org/podcast2.php")),
                ("episode", s("http://ftp.example.org/foo2.ogg")),
                ("action", s("play")),
                ("position", JsonValue::UInt(120)),
                ("started", JsonValue::UInt(15)),
                ("total", JsonValue::UInt(500)),
                ("timestamp", s("2009-12-12T09:00:00")),
            ])]),
        ),
        ("timestamp", JsonValue::UInt(12345)),
    ]);
    let response = parse_episode_actions_response(&json).unwrap();
    assert_eq!(response.actions.len(), 1);
    assert_eq!(
        response.actions[0].action,
        EpisodeActionType::Play {
            position: 120,
            started: Some(15),
            total: Some(500),
        }
    );
    assert_eq!(
        response.actions[0].timestamp,
        Some(DateTime {
            year: 2009,
            month: 12,
            day: 12,
            hour: 9,
            minute: 0,
            second: 0,
        })
    );
}

#[test]
fn upload_episode_actions_response_decodes() {
    let json = obj(vec![
        ("timestamp", JsonValue::UInt(1337)),
        ("update_urls", JsonValue::Arr(vec![])),
    ]);
    let response = parse_upload_episode_actions_response(&json).unwrap();
    assert_eq!(response.timestamp, 1337);
    assert!(response.update_urls.is_empty());
}

#[test]
fn settings_mapping_decodes() {
    let json = obj(vec![("k", s("v")), ("setting1", s("value1"))]);
    let settings = parse_settings(&json).unwrap();
    assert!(settings.contains(&(String::from("k"), String::from("v"))));
    assert_eq!(settings.len(), 2);
}

#[test]
fn settings_mapping_with_non_string_value_does_not_decode() {
    let json = obj(vec![("k", JsonValue::UInt(1))]);
    assert_eq!(parse_settings(&json), None);
}

#[test]
fn tag_list_decodes_at_most_what_it_holds() {
    let mut items = Vec::new();
    for i in 0..10u64 {
        items.push(obj(vec![
            ("title", s("Technology")),
            ("tag", JsonValue::Str(format!("tag-{}", i))),
            ("usage", JsonValue::UInt(i)),
        ]));
    }
    let tags: Vec<Tag> = decode_list(&JsonValue::Arr(items)).unwrap();
    assert_eq!(tags.len(), 10);
    assert!(tags.len() <= 10);
    assert_eq!(tags[3].tag, "tag-3");
}

#[test]
fn episode_record_decodes() {
    let json = obj(vec![
        ("title", s("TWiT 245: No Hitler For You")),
        ("url", s("http://example.com/twit0245.mp3")),
        ("podcast_title", s("this WEEK in TECH")),
        ("podcast_url", s("http://leo.am/podcasts/twit")),
        ("description", s("[...]")),
        ("website", s("http://twit.tv")),
        ("mygpo_link", s("http://gpodder.net/episode/1046492")),
        ("released", s("2010-12-25T00:30:00")),
    ]);
    let episode = Episode::decode_json(&json).unwrap();
    assert_eq!(episode.url, "http://example.com/twit0245.mp3");
    assert_eq!(
        episode.released,
        DateTime {
            year: 2010,
            month: 12,
            day: 25,
            hour: 0,
            minute: 30,
            second: 0,
        }
    );
}

#[test]
fn suggestion_record_decodes() {
    let json = obj(vec![
        ("website", s("http://goinglinux.com")),
        ("mygpo_link", s("http://gpodder.net/podcast/11171")),
        ("description", s("Going Linux")),
        ("subscribers", JsonValue::UInt(571)),
        ("title", s("Going Linux")),
        ("url", s("http://goinglinux.com/mp3podcast.xml")),
        ("subscribers_last_week", JsonValue::UInt(570)),
        ("logo_url", JsonValue::Null),
    ]);
    let suggestion = Suggestion::decode_json(&json).unwrap();
    assert_eq!(suggestion.url, "http://goinglinux.com/mp3podcast.xml");
    assert_eq!(suggestion.logo_url, None);
}

#[test]
fn iso_timestamps_parse_and_format() {
    let dt = DateTime {
        year: 2009,
        month: 12,
        day: 12,
        hour: 9,
        minute: 0,
        second: 0,
    };
    assert_eq!(format_iso(&dt), "2009-12-12T09:00:00");
    assert_eq!(parse_iso("2009-12-12T09:00:00"), Some(dt));

    assert_eq!(parse_iso("2009-13-01T00:00:00"), None);
    assert_eq!(parse_iso("2009-02-29T00:00:00"), None);
    assert_eq!(parse_iso("2008-02-29T00:00:00").is_some(), true);
    assert_eq!(parse_iso("2009-12-12 09:00:00"), None);
    assert_eq!(parse_iso("2009-12-12T09:00"), None);
}

#[test]
fn error_carries_its_message() {
    let error = Error::NetworkError(String::from("connection refused"));
    assert_eq!(error.message(), "connection refused");
}
