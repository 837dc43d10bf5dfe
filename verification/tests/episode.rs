use mygpoclient::datetime::DateTime;
use mygpoclient::episode::apply_update_urls_to_actions;
use mygpoclient::episode::encode_episode_actions;
use mygpoclient::episode::episode_action_to_json;
use mygpoclient::episode::EpisodeAction;
use mygpoclient::episode::EpisodeActionType;
use mygpoclient::json::JsonDecode;

fn dt(year: u16, month: u8, day: u8, hour: u8, minute: u8, second: u8) -> DateTime {
    DateTime { year, month, day, hour, minute, second }
}

#[test]
fn play_stop_leaves_started_and_total_absent() {
    let action = EpisodeAction::new_play_stop(
        String::from("http://example.org/podcast5.php"),
        String::from("http://ftp.example.org/foo5.ogg"),
        None,
        120,
    );

    assert_eq!(
        action.action,
        EpisodeActionType::Play {
            position: 120,
            started: None,
            total: None,
        }
    );
    assert_eq!(action.device, None);
}

#[test]
fn full_play_sets_started_and_total() {
    let action = EpisodeAction::new_play(
        String::from("http://example.org/podcast2.php"),
        String::from("http://ftp.example.org/foo2.ogg"),
        None,
        120,
        15,
        500,
    );

    assert_eq!(
        action.action,
        EpisodeActionType::Play {
            position: 120,
            started: Some(15),
            total: Some(500),
        }
    );
}

#[test]
fn constructors_set_their_action_kind() {
    let download = EpisodeAction::new_download(
        String::from("http://example.com/feed1.rss"),
        String::from("http://example.com/files/s01e20.mp3"),
        Some(dt(2009, 12, 12, 9, 0, 0)),
    );
    assert_eq!(download.action, EpisodeActionType::Download);
    assert_eq!(download.timestamp, Some(dt(2009, 12, 12, 9, 0, 0)));

    let delete = EpisodeAction::new_delete(
        String::from("http://example.com/feed3.rss"),
        String::from("http://example.com/files/s03e20.mp3"),
        None,
    );
    assert_eq!(delete.action, EpisodeActionType::Delete);

    let new = EpisodeAction::new_new(
        String::from("http://example.com/feed4.rss"),
        String::from("http://example.com/files/s04e20.mp3"),
        None,
    );
    assert_eq!(new.action, EpisodeActionType::New);
}

#[test]
fn play_stop_body_omits_absent_fields() {
    let action = EpisodeAction::new_play_stop(
        String::from("http://example.org/podcast5.php"),
        String::from("http://ftp.example.org/foo5.ogg"),
        None,
        120,
    );
    let body = encode_episode_actions(&vec![action]);

    assert_eq!(
        body,
        "[{\"podcast\":\"http://example.org/podcast5.php\",\
          \"episode\":\"http://ftp.example.org/foo5.ogg\",\
          \"action\":\"play\",\"position\":120}]"
    );
    assert!(!body.contains("started"));
    assert!(!body.contains("total"));
    assert!(!body.contains("null"));
}

#[test]
fn full_play_body_carries_all_three_positions() {
    let action = EpisodeAction::new_play(
        String::from("http://example.org/podcast2.php"),
        String::from("http://ftp.example.org/foo2.ogg"),
        Some(dt(2009, 12, 12, 9, 0, 0)),
        120,
        15,
        500,
    );
    let body = encode_episode_actions(&vec![action]);

    assert_eq!(
        body,
        "[{\"podcast\":\"http://example.org/podcast2.php\",\
          \"episode\":\"http://ftp.example.org/foo2.ogg\",\
          \"action\":\"play\",\"position\":120,\"started\":15,\"total\":500,\
          \"timestamp\":\"2009-12-12T09:00:00\"}]"
    );
}

#[test]
fn download_body_is_exact() {
    let action = EpisodeAction::new_download(
        String::from("http://example.com/feed.rss"),
        String::from("http://example.com/a.mp3"),
        None,
    );
    let body = encode_episode_actions(&vec![action]);

    assert_eq!(
        body,
        "[{\"podcast\":\"http://example.com/feed.rss\",\
          \"episode\":\"http://example.com/a.mp3\",\"action\":\"download\"}]"
    );
}

#[test]
fn round_trip_preserves_play_forms() {
    let play_stop = EpisodeAction::new_play_stop(
        String::from("http://example.org/podcast5.php"),
        String::from("http://ftp.example.org/foo5.ogg"),
        None,
        120,
    );
    let decoded = EpisodeAction::decode_json(&episode_action_to_json(&play_stop));
    assert_eq!(decoded, Some(play_stop));

    let play = EpisodeAction::new_play(
        String::from("http://example.org/podcast2.php"),
        String::from("http://ftp.example.org/foo2.ogg"),
        Some(dt(2009, 12, 12, 9, 0, 0)),
        120,
        15,
        500,
    );
    let decoded = EpisodeAction::decode_json(&episode_action_to_json(&play));
    assert_eq!(decoded, Some(play));
}

#[test]
fn round_trip_preserves_device_and_timestamp() {
    let mut action = EpisodeAction::new_download(
        String::from("http://example.com/feed.rss"),
        String::from("http://example.com/a.mp3"),
        Some(dt(2020, 2, 29, 23, 59, 59)),
    );
    action.device = Some(String::from("gpodder.on.my.phone"));

    let decoded = EpisodeAction::decode_json(&episode_action_to_json(&action));
    assert_eq!(decoded, Some(action));
}

#[test]
fn canonicalization_rewrites_both_url_fields_of_actions() {
    let action = EpisodeAction::new_download(
        String::from("http://x.com/feed  "),
        String::from("http://x.com/a.mp3 "),
        None,
    );
    let updates = vec![
        (
            String::from("http://x.com/feed  "),
            String::from("http://x.com/feed"),
        ),
        (
            String::from("http://x.com/a.mp3 "),
            String::from("http://x.com/a.mp3"),
        ),
    ];

    let rewritten = apply_update_urls_to_actions(&vec![action], &updates);
    assert_eq!(rewritten.len(), 1);
    assert_eq!(rewritten[0].podcast, "http://x.com/feed");
    assert_eq!(rewritten[0].episode, "http://x.com/a.mp3");
    assert_eq!(rewritten[0].action, EpisodeActionType::Download);
}
