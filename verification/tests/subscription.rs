use std::cmp::Ordering;
use std::collections::hash_map::DefaultHasher;
use std::hash::Hash;
use std::hash::Hasher;

use mygpoclient::subscription::apply_subscription_delta;
use mygpoclient::subscription::apply_update_urls;
use mygpoclient::subscription::Subscription;

#[test]
fn equal_subscription_means_equal_hash() {
    let subscription1 = Subscription {
        url: String::from("http://goinglinux.com/mp3podcast.xml"),
        website: Some(String::from("http://www.linuxgeekdom.com")),
        mygpo_link: String::from("http://gpodder.net/podcast/64439"),
        description: String::from("Linux Geekdom"),
        subscribers: 0,
        title: String::from("Linux Geekdom"),
        subscribers_last_week: 0,
        logo_url: None,
        scaled_logo_url: None,
    };
    let subscription2 = Subscription {
        url: String::from("http://goinglinux.com/mp3podcast.xml"),
        website: Some(String::from("http://goinglinux.com")),
        mygpo_link: String::from("http://gpodder.net/podcast/11171"),
        description: String::from("Going Linux"),
        subscribers: 571,
        title: String::from("Going Linux"),
        subscribers_last_week: 571,
        logo_url: Some(String::from("http://goinglinux.com/images/GoingLinux80.png")),
        scaled_logo_url: Some(String::from("http://goinglinux.com/images/GoingLinux80.png")),
    };

    assert_eq!(subscription1, subscription2);
    assert_eq!(
        subscription1.partial_cmp(&subscription2),
        Some(Ordering::Equal)
    );

    let mut hasher1 = DefaultHasher::new();
    subscription1.hash(&mut hasher1);

    let mut hasher2 = DefaultHasher::new();
    subscription2.hash(&mut hasher2);

    assert_eq!(hasher1.finish(), hasher2.finish());
}

#[test]
fn subscription_display() {
    let subscription = Subscription {
        url: String::from("http://goinglinux.com/mp3podcast.xml"),
        website: Some(String::from("http://goinglinux.com")),
        mygpo_link: String::from("http://gpodder.net/podcast/11171"),
        description: String::from("Going Linux"),
        subscribers: 571,
        title: String::from("Going Linux"),
        subscribers_last_week: 571,
        logo_url: Some(String::from("http://goinglinux.com/images/GoingLinux80.png")),
        scaled_logo_url: Some(String::from("http://goinglinux.com/images/GoingLinux80.png")),
    };

    assert_eq!(
        "Going Linux: Going Linux <http://goinglinux.com/mp3podcast.xml>".to_owned(),
        subscription.display_string()
    );
}

#[test]
fn canonicalization_replaces_exact_matches_only() {
    let urls = vec![
        String::from("http://x.com/feed  "),
        String::from("http://x.com/feed"),
        String::from("http://x.com/feed "),
        String::from("http://other.org/feed"),
    ];
    let updates = vec![(
        String::from("http://x.com/feed  "),
        String::from("http://x.com/feed"),
    )];

    let rewritten = apply_update_urls(&urls, &updates);

    assert_eq!(
        rewritten,
        vec![
            String::from("http://x.com/feed"),
            String::from("http://x.com/feed"),
            String::from("http://x.com/feed "),
            String::from("http://other.org/feed"),
        ]
    );
}

#[test]
fn canonicalization_first_match_wins() {
    let urls = vec![String::from("a")];
    let updates = vec![
        (String::from("a"), String::from("b")),
        (String::from("a"), String::from("c")),
    ];

    assert_eq!(apply_update_urls(&urls, &updates), vec![String::from("b")]);
}

#[test]
fn delta_add_then_remove_restores_the_set() {
    let subs = vec![
        String::from("http://example.org/podcast.php"),
        String::from("http://example.com/feed.rss"),
    ];
    let x = String::from("http://ubuntupodcast.org/feed/");

    let after_add = apply_subscription_delta(&subs, &vec![x.clone()], &vec![]);
    assert!(after_add.contains(&x));
    assert_eq!(after_add.len(), 3);

    let after_remove = apply_subscription_delta(&after_add, &vec![], &vec![x.clone()]);
    assert_eq!(after_remove, subs);
}

#[test]
fn delta_deduplicates_and_drops_removed() {
    let subs = vec![
        String::from("a"),
        String::from("b"),
        String::from("a"),
    ];
    let add = vec![String::from("b"), String::from("c")];
    let remove = vec![String::from("a")];

    let result = apply_subscription_delta(&subs, &add, &remove);
    assert_eq!(result, vec![String::from("b"), String::from("c")]);
}
