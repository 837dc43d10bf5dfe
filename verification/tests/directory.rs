use std::cmp::Ordering;
use std::collections::hash_map::DefaultHasher;
use std::hash::Hash;
use std::hash::Hasher;

use mygpoclient::datetime::DateTime;
use mygpoclient::directory::Episode;
use mygpoclient::directory::Tag;

fn ymd_hms(year: u16, month: u8, day: u8, hour: u8, minute: u8, second: u8) -> DateTime {
    DateTime { year, month, day, hour, minute, second }
}

#[test]
fn equal_tag_means_equal_hash() {
    let tag1 = Tag {
        title: String::from("TAG"),
        tag: String::from("tag"),
        usage: 0,
    };
    let tag2 = Tag {
        title: String::from("GAT"),
        tag: String::from("tag"),
        usage: 100,
    };

    assert_eq!(tag1, tag2);
    assert_eq!(tag1.partial_cmp(&tag2), Some(Ordering::Equal));

    let mut hasher1 = DefaultHasher::new();
    tag1.hash(&mut hasher1);

    let mut hasher2 = DefaultHasher::new();
    tag2.hash(&mut hasher2);

    assert_eq!(hasher1.finish(), hasher2.finish());
}

#[test]
fn not_equal_tags_have_non_equal_ordering() {
    let tag1 = Tag {
        title: String::from("TAG"),
        tag: String::from("abc"),
        usage: 0,
    };
    let tag2 = Tag {
        title: String::from("TAG"),
        tag: String::from("xyz"),
        usage: 0,
    };

    assert_ne!(tag1, tag2);
    assert_eq!(tag1.partial_cmp(&tag2), Some(Ordering::Less));

    let mut hasher1 = DefaultHasher::new();
    tag1.hash(&mut hasher1);

    let mut hasher2 = DefaultHasher::new();
    tag2.hash(&mut hasher2);

    assert_ne!(hasher1.finish(), hasher2.finish());
}

#[test]
fn display_tag() {
    let tag = Tag {
        title: String::from("TAG"),
        tag: String::from("xyz"),
        usage: 0,
    };

    assert_eq!("xyz: TAG".to_owned(), tag.display_string());
}

#[test]
fn equal_episode_means_equal_hash() {
    let episode1 = Episode {
        title: String::from("TWiT 245: No Hitler For You"),
        url: String::from("http://www.podtrac.com/pts/redirect.mp3/aolradio.podcast.aol.com/twit/twit0245.mp3"),
        podcast_title: String::from("this WEEK in TECH - MP3 Edition"),
        podcast_url: String::from("http://leo.am/podcasts/twit"),
        description: String::from("[...]"),
        website: Some(String::from("http://www.podtrac.com/pts/redirect.mp3/aolradio.podcast.aol.com/twit/twit0245.mp3")),
        mygpo_link: String::from("http://gpodder.net/episode/1046492"),
        released: ymd_hms(2010, 12, 25, 0, 30, 0),
    };
    let episode2 = Episode {
        title: String::from("Climate Change, News Corp, and the Australian Fires"),
        url: String::from("http://www.podtrac.com/pts/redirect.mp3/aolradio.podcast.aol.com/twit/twit0245.mp3"),
        podcast_title: String::from("On the Media"),
        podcast_url: String::from("http://feeds.wnyc.org/onthemedia?format=xml"),
        description: String::from("[...]"),
        website: Some(String::from("http://www.wnycstudios.org/story/climate-change-news-corp-and-australian-fires/")),
        mygpo_link: String::from("http://gpodder.net/podcast/on-the-media-1/climate-change-news-corp-and-the-australian-fires"),
        released: ymd_hms(2020, 1, 15, 17, 0, 0),
    };

    assert_eq!(episode1, episode2);
    assert_eq!(episode1.partial_cmp(&episode2), Some(Ordering::Equal));

    let mut hasher1 = DefaultHasher::new();
    episode1.hash(&mut hasher1);

    let mut hasher2 = DefaultHasher::new();
    episode2.hash(&mut hasher2);

    assert_eq!(hasher1.finish(), hasher2.finish());
}

#[test]
fn not_equal_episodes_have_non_equal_ordering() {
    let episode1 = Episode {
        title: String::from("TWiT 245: No Hitler For You"),
        url: String::from("http://www.podtrac.com/pts/redirect.mp3/aolradio.podcast.aol.com/twit/twit0245.mp3"),
        podcast_title: String::from("this WEEK in TECH - MP3 Edition"),
        podcast_url: String::from("http://leo.am/podcasts/twit"),
        description: String::from("[...]"),
        website: Some(String::from("http://www.podtrac.com/pts/redirect.mp3/aolradio.podcast.aol.com/twit/twit0245.mp3")),
        mygpo_link: String::from("http://gpodder.net/episode/1046492"),
        released: ymd_hms(2010, 12, 25, 0, 30, 0),
    };
    let episode2 = Episode {
        title: String::from("Climate Change, News Corp, and the Australian Fires"),
        url: String::from("https://www.podtrac.com/pts/redirect.mp3/audio.wnyc.org/otm/otm011520_podextra.mp3"),
        podcast_title: String::from("On the Media"),
        podcast_url: String::from("http://feeds.wnyc.org/onthemedia?format=xml"),
        description: String::from("[...]"),
        website: Some(String::from("http://www.wnycstudios.org/story/climate-change-news-corp-and-australian-fires/")),
        mygpo_link: String::from("http://gpodder.net/podcast/on-the-media-1/climate-change-news-corp-and-the-australian-fires"),
        released: ymd_hms(2020, 1, 15, 17, 0, 0),
    };

    assert_ne!(episode1, episode2);
    assert_eq!(episode1.partial_cmp(&episode2), Some(Ordering::Less));

    let mut hasher1 = DefaultHasher::new();
    episode1.hash(&mut hasher1);

    let mut hasher2 = DefaultHasher::new();
    episode2.hash(&mut hasher2);

    assert_ne!(hasher1.finish(), hasher2.finish());
}

#[test]
fn display_episode() {
    let episode = Episode {
        title: String::from("TWiT 245: No Hitler For You"),
        url: String::from("http://www.podtrac.com/pts/redirect.mp3/aolradio.podcast.aol.com/twit/twit0245.mp3"),
        podcast_title: String::from("this WEEK in TECH - MP3 Edition"),
        podcast_url: String::from("http://leo.am/podcasts/twit"),
        description: String::from("[...]"),
        website: Some(String::from("http://www.podtrac.com/pts/redirect.mp3/aolradio.podcast.aol.com/twit/twit0245.mp3")),
        mygpo_link: String::from("http://gpodder.net/episode/1046492"),
        released: ymd_hms(2010, 12, 25, 0, 30, 0),
    };

    assert_eq!("TWiT 245: No Hitler For You: http://www.podtrac.com/pts/redirect.mp3/aolradio.podcast.aol.com/twit/twit0245.mp3".to_owned(), episode.display_string());
}
