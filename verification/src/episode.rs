//! The episode action log: the tagged-union event records, their
//! construction helpers, the flattened JSON wire shape they take, and the
//! upload and query requests of the episode-actions API.

use vstd::prelude::*;

verus! {

use crate::client::AuthenticatedClient;
use crate::client::DeviceClient;
use crate::client::UserIdentity;
use crate::datetime::DateTime;
use crate::datetime::append_iso;
use crate::datetime::iso_parse;
use crate::datetime::iso_str;
use crate::http::HttpMethod;
use crate::http::HttpRequest;
use crate::http::ReqView;
use crate::http::with_auth;
use crate::json::JsonDecode;
use crate::json::JsonValue;
use crate::json::append_json_key;
use crate::json::append_json_string;
use crate::json::decode_list;
use crate::json::get_opt_str;
use crate::json::get_opt_u32;
use crate::json::joined;
use crate::json::json_key;
use crate::json::json_str_lit;
use crate::json::lemma_joined_push;
use crate::json::list_decoded;
use crate::json::obj_get;
use crate::json::obj_lookup;
use crate::json::opt_str_field;
use crate::json::opt_u32_field;
use crate::strutil::append_u64;
use crate::strutil::dec_str;
use crate::strutil::push_char;
use crate::strutil::str_eq;
use crate::subscription::canonical_of;
use crate::subscription::canonical_url;
use crate::subscription::pair_views;
use crate::subscription::upload_changes_response_of;
use vstd::string::StringExecFns;

/// Type of an episode action. The `Play` payload carries the stop position
/// and, optionally, where playback started and the total length; `started`
/// and `total` belong together and the construction helpers set either both
/// or neither.
#[derive(Debug, Clone, Copy, PartialEq, Eq, Structural)]
pub enum EpisodeActionType {
    /// Download event, so that other clients know where a file has already
    /// been downloaded.
    Download,
    /// Delete event, so that other clients know where a file has already
    /// been deleted.
    Delete,
    /// Play event, so that other clients know where to start playback.
    Play {
        /// The position (in seconds) at which the client stopped playback.
        position: u32,
        /// The position (in seconds) at which the client started playback;
        /// goes together with `total`.
        started: Option<u32>,
        /// The total length of the file in seconds; goes together with
        /// `started`.
        total: Option<u32>,
    },
    /// Resets previous events; receiving clients interpret this state.
    New,
    /// Reserved by the service; undocumented.
    Flattr,
}

/// The lowercase tag an action type has on the wire.
pub open spec fn action_tag(t: EpisodeActionType) -> Seq<char> {
    match t {
        EpisodeActionType::Download => "download"@,
        EpisodeActionType::Delete => "delete"@,
        EpisodeActionType::Play { .. } => "play"@,
        EpisodeActionType::New => "new"@,
        EpisodeActionType::Flattr => "flattr"@,
    }
}

impl EpisodeActionType {
    /// The lowercase tag this action type has on the wire.
    pub fn tag_str(&self) -> (r: &'static str)
        ensures
            r@ == action_tag(*self),
    {
        match self {
            EpisodeActionType::Download => "download",
            EpisodeActionType::Delete => "delete",
            EpisodeActionType::Play { .. } => "play",
            EpisodeActionType::New => "new",
            EpisodeActionType::Flattr => "flattr",
        }
    }
}

/// An episode-related event. Every action names the podcast feed and the
/// episode media URL; the originating device and the time of occurrence are
/// optional metadata.
#[derive(Debug, Clone)]
pub struct EpisodeAction {
    /// Feed URL of the podcast the episode belongs to.
    pub podcast: String,
    /// Media URL of the episode.
    pub episode: String,
    /// Device ID on which the action has taken place, for the web log.
    pub device: Option<String>,
    /// The kind of event, with its payload.
    pub action: EpisodeActionType,
    /// UTC timestamp when the action took place; advisory metadata, not the
    /// server's ordering key.
    pub timestamp: Option<DateTime>,
}

impl PartialEq for EpisodeAction {
    fn eq(&self, other: &Self) -> (r: bool) {
        self.podcast == other.podcast && self.episode == other.episode && opt_string_eq(
            &self.device,
            &other.device,
        ) && self.action == other.action && self.timestamp == other.timestamp
    }
}

impl vstd::std_specs::cmp::PartialEqSpecImpl for EpisodeAction {
    open spec fn obeys_eq_spec() -> bool {
        true
    }

    open spec fn eq_spec(&self, other: &EpisodeAction) -> bool {
        &&& self.podcast@ == other.podcast@
        &&& self.episode@ == other.episode@
        &&& self.device.deep_view() == other.device.deep_view()
        &&& self.action == other.action
        &&& self.timestamp == other.timestamp
    }
}

/// Whether two optional strings hold the same characters.
fn opt_string_eq(a: &Option<String>, b: &Option<String>) -> (r: bool)
    ensures
        r == (a.deep_view() == b.deep_view()),
{
    match (a, b) {
        (None, None) => true,
        (Some(x), Some(y)) => {
            let e = str_eq(x.as_str(), y.as_str());
            proof {
                if a.deep_view() == b.deep_view() {
                    assert(a.deep_view() == Some(x@));
                    assert(b.deep_view() == Some(y@));
                }
            }
            e
        },
        _ => false,
    }
}

impl EpisodeAction {
    fn new(
        podcast: String,
        episode: String,
        timestamp: Option<DateTime>,
        action: EpisodeActionType,
    ) -> (r: EpisodeAction)
        ensures
            r == (EpisodeAction { podcast, episode, device: None, action, timestamp }),
    {
        EpisodeAction { podcast, episode, device: None, action, timestamp }
    }

    /// A new `Download` event, so that other clients know where a file has
    /// already been downloaded.
    pub fn new_download(podcast: String, episode: String, timestamp: Option<DateTime>) -> (r:
        EpisodeAction)
        ensures
            r == (EpisodeAction {
                podcast,
                episode,
                device: None,
                action: EpisodeActionType::Download,
                timestamp,
            }),
    {
        Self::new(podcast, episode, timestamp, EpisodeActionType::Download)
    }

    /// A new `Delete` event, so that other clients know where a previously
    /// downloaded file has been deleted.
    pub fn new_delete(podcast: String, episode: String, timestamp: Option<DateTime>) -> (r:
        EpisodeAction)
        ensures
            r == (EpisodeAction {
                podcast,
                episode,
                device: None,
                action: EpisodeActionType::Delete,
                timestamp,
            }),
    {
        Self::new(podcast, episode, timestamp, EpisodeActionType::Delete)
    }

    /// A new `New` event, to reset previous events.
    pub fn new_new(podcast: String, episode: String, timestamp: Option<DateTime>) -> (r:
        EpisodeAction)
        ensures
            r == (EpisodeAction {
                podcast,
                episode,
                device: None,
                action: EpisodeActionType::New,
                timestamp,
            }),
    {
        Self::new(podcast, episode, timestamp, EpisodeActionType::New)
    }

    /// A new `Play` event that records only where playback stopped: both
    /// `started` and `total` are left out.
    pub fn new_play_stop(
        podcast: String,
        episode: String,
        timestamp: Option<DateTime>,
        position: u32,
    ) -> (r: EpisodeAction)
        ensures
            r == (EpisodeAction {
                podcast,
                episode,
                device: None,
                action: EpisodeActionType::Play { position, started: None, total: None },
                timestamp,
            }),
    {
        Self::new(
            podcast,
            episode,
            timestamp,
            EpisodeActionType::Play { position, started: None, total: None },
        )
    }

    /// A new `Play` event with full position information: both `started` and
    /// `total` are set.
    pub fn new_play(
        podcast: String,
        episode: String,
        timestamp: Option<DateTime>,
        position: u32,
        started: u32,
        total: u32,
    ) -> (r: EpisodeAction)
        ensures
            r == (EpisodeAction {
                podcast,
                episode,
                device: None,
                action: EpisodeActionType::Play {
                    position,
                    started: Some(started),
                    total: Some(total),
                },
                timestamp,
            }),
    {
        Self::new(
            podcast,
            episode,
            timestamp,
            EpisodeActionType::Play { position, started: Some(started), total: Some(total) },
        )
    }
}

/// The opening of a flattened action object: the podcast and episode URLs.
pub open spec fn action_head_json(a: EpisodeAction) -> Seq<char> {
    seq!['{'] + json_key("podcast"@) + json_str_lit(a.podcast@) + seq![','] + json_key("episode"@)
        + json_str_lit(a.episode@)
}

/// The optional `device` member of a flattened action object.
pub open spec fn action_device_json(a: EpisodeAction) -> Seq<char> {
    match a.device {
        Some(d) => seq![','] + json_key("device"@) + json_str_lit(d@),
        None => Seq::empty(),
    }
}

/// The `action` discriminator member of a flattened action object.
pub open spec fn action_tag_json(a: EpisodeAction) -> Seq<char> {
    seq![','] + json_key("action"@) + json_str_lit(action_tag(a.action))
}

/// The payload members of a `Play` action: the stop position always, and
/// `started` and `total` only when they are present — omitted, never `null`.
pub open spec fn action_play_json(a: EpisodeAction) -> Seq<char> {
    match a.action {
        EpisodeActionType::Play { position, started, total } => {
            seq![','] + json_key("position"@) + dec_str(position as nat) + (match started {
                Some(s) => seq![','] + json_key("started"@) + dec_str(s as nat),
                None => Seq::empty(),
            }) + (match total {
                Some(t) => seq![','] + json_key("total"@) + dec_str(t as nat),
                None => Seq::empty(),
            })
        },
        _ => Seq::empty(),
    }
}

/// The optional `timestamp` member of a flattened action object.
pub open spec fn action_ts_json(a: EpisodeAction) -> Seq<char> {
    match a.timestamp {
        Some(ts) => seq![','] + json_key("timestamp"@) + seq!['"'] + iso_str(ts) + seq!['"'],
        None => Seq::empty(),
    }
}

/// The flattened JSON object of one action: the common fields and the
/// variant's payload merged into one object, tagged by the `action` field;
/// absent optional fields are omitted, never `null`.
pub open spec fn episode_action_json(a: EpisodeAction) -> Seq<char> {
    action_head_json(a) + action_device_json(a) + action_tag_json(a) + action_play_json(a)
        + action_ts_json(a) + seq!['}']
}

fn append_action_head(out: &mut String, a: &EpisodeAction)
    ensures
        final(out)@ == old(out)@ + action_head_json(*a),
{
    push_char(out, '{');
    append_json_key(out, "podcast");
    append_json_string(out, a.podcast.as_str());
    push_char(out, ',');
    append_json_key(out, "episode");
    append_json_string(out, a.episode.as_str());
    assert(out@ =~= old(out)@ + action_head_json(*a));
}

fn append_action_device(out: &mut String, a: &EpisodeAction)
    ensures
        final(out)@ == old(out)@ + action_device_json(*a),
{
    match &a.device {
        Some(d) => {
            push_char(out, ',');
            append_json_key(out, "device");
            append_json_string(out, d.as_str());
        },
        None => {},
    }
    assert(out@ =~= old(out)@ + action_device_json(*a));
}

fn append_action_tag(out: &mut String, a: &EpisodeAction)
    ensures
        final(out)@ == old(out)@ + action_tag_json(*a),
{
    push_char(out, ',');
    append_json_key(out, "action");
    append_json_string(out, a.action.tag_str());
    assert(out@ =~= old(out)@ + action_tag_json(*a));
}

fn append_action_play(out: &mut String, a: &EpisodeAction)
    ensures
        final(out)@ == old(out)@ + action_play_json(*a),
{
    match &a.action {
        EpisodeActionType::Play { position, started, total } => {
            let ghost s0 = out@;
            push_char(out, ',');
            append_json_key(out, "position");
            append_u64(out, *position as u64);
            proof {
                assert(out@ =~= s0 + (seq![','] + json_key("position"@) + dec_str(
                    *position as nat,
                )));
            }
            let ghost s1 = out@;
            match started {
                Some(s) => {
                    push_char(out, ',');
                    append_json_key(out, "started");
                    append_u64(out, *s as u64);
                },
                None => {},
            }
            proof {
                assert(out@ =~= s1 + (match started {
                    Some(s) => seq![','] + json_key("started"@) + dec_str(*s as nat),
                    None => Seq::empty(),
                }));
            }
            let ghost s2 = out@;
            match total {
                Some(t) => {
                    push_char(out, ',');
                    append_json_key(out, "total");
                    append_u64(out, *t as u64);
                },
                None => {},
            }
            proof {
                assert(out@ =~= s2 + (match total {
                    Some(t) => seq![','] + json_key("total"@) + dec_str(*t as nat),
                    None => Seq::empty(),
                }));
                assert(out@ =~= s0 + action_play_json(*a));
            }
        },
        _ => {
            assert(out@ =~= old(out)@ + action_play_json(*a));
        },
    }
}

fn append_action_ts(out: &mut String, a: &EpisodeAction)
    ensures
        final(out)@ == old(out)@ + action_ts_json(*a),
{
    match &a.timestamp {
        Some(ts) => {
            push_char(out, ',');
            append_json_key(out, "timestamp");
            push_char(out, '"');
            append_iso(out, ts);
            push_char(out, '"');
        },
        None => {},
    }
    assert(out@ =~= old(out)@ + action_ts_json(*a));
}

/// Appends the flattened JSON object of one action to `out`.
pub fn append_episode_action(out: &mut String, a: &EpisodeAction)
    ensures
        final(out)@ == old(out)@ + episode_action_json(*a),
{
    append_action_head(out, a);
    append_action_device(out, a);
    append_action_tag(out, a);
    append_action_play(out, a);
    append_action_ts(out, a);
    push_char(out, '}');
    assert(out@ =~= old(out)@ + episode_action_json(*a));
}

/// The upload body: a JSON array of flattened action objects.
pub open spec fn episode_actions_body(actions: Seq<EpisodeAction>) -> Seq<char> {
    seq!['['] + joined(actions.map_values(|a: EpisodeAction| episode_action_json(a))) + seq![']']
}

/// Renders the upload body for a list of actions.
#[verifier::rlimit(50)]
pub fn encode_episode_actions(actions: &Vec<EpisodeAction>) -> (r: String)
    ensures
        r@ == episode_actions_body(actions@),
{
    let ghost rendered = actions@.map_values(|a: EpisodeAction| episode_action_json(a));
    let mut out = String::new();
    push_char(&mut out, '[');
    let n = actions.len();
    let mut i: usize = 0;
    proof {
        assert(actions@.take(0).map_values(|a: EpisodeAction| episode_action_json(a)) =~= Seq::<
            Seq<char>,
        >::empty());
    }
    while i < n
        invariant
            n == actions@.len(),
            i <= n,
            out@ == seq!['['] + joined(
                actions@.take(i as int).map_values(|a: EpisodeAction| episode_action_json(a)),
            ),
        decreases n - i,
    {
        let ghost prefix = actions@.take(i as int).map_values(
            |a: EpisodeAction| episode_action_json(a),
        );
        proof {
            lemma_joined_push(prefix, episode_action_json(actions@[i as int]));
            assert(actions@.take(i as int + 1).map_values(
                |a: EpisodeAction| episode_action_json(a),
            ) =~= prefix.push(episode_action_json(actions@[i as int])));
        }
        if i > 0 {
            push_char(&mut out, ',');
        }
        append_episode_action(&mut out, &actions[i]);
        proof {
            assert(out@ =~= seq!['['] + joined(
                actions@.take(i as int + 1).map_values(
                    |a: EpisodeAction| episode_action_json(a),
                ),
            ));
        }
        i += 1;
    }
    push_char(&mut out, ']');
    proof {
        assert(actions@.take(n as int) =~= actions@);
        assert(out@ =~= episode_actions_body(actions@));
    }
    out
}

/// The timestamp field of an action object: absent or `null` means none; a
/// string means a `YYYY-MM-DDTHH:MM:SS` timestamp, which must parse.
pub open spec fn timestamp_field(fields: Seq<(String, JsonValue)>) -> Option<Option<DateTime>> {
    match obj_lookup(fields, "timestamp"@) {
        None => Some(None),
        Some(JsonValue::Null) => Some(None),
        Some(JsonValue::Str(s)) => match iso_parse(s@) {
            Some(dt) => Some(Some(dt)),
            None => None,
        },
        Some(_) => None,
    }
}

/// The action variant named by a tag, with its payload read from the same
/// flattened object.
pub open spec fn action_of_fields(tag: Seq<char>, fields: Seq<(String, JsonValue)>) -> Option<
    EpisodeActionType,
> {
    if tag == "download"@ {
        Some(EpisodeActionType::Download)
    } else if tag == "delete"@ {
        Some(EpisodeActionType::Delete)
    } else if tag == "new"@ {
        Some(EpisodeActionType::New)
    } else if tag == "flattr"@ {
        Some(EpisodeActionType::Flattr)
    } else if tag == "play"@ {
        match obj_lookup(fields, "position"@) {
            Some(JsonValue::UInt(p)) => {
                if p <= 0xFFFF_FFFF {
                    match (opt_u32_field(fields, "started"@), opt_u32_field(fields, "total"@)) {
                        (Some(started), Some(total)) => Some(
                            EpisodeActionType::Play { position: p as u32, started, total },
                        ),
                        _ => None,
                    }
                } else {
                    None
                }
            },
            _ => None,
        }
    } else {
        None
    }
}

impl JsonDecode for EpisodeAction {
    open spec fn decode_spec(j: JsonValue) -> Option<EpisodeAction> {
        match j {
            JsonValue::Obj(fields) => {
                match (
                    obj_lookup(fields@, "podcast"@),
                    obj_lookup(fields@, "episode"@),
                    obj_lookup(fields@, "action"@),
                ) {
                    (
                        Some(JsonValue::Str(podcast)),
                        Some(JsonValue::Str(episode)),
                        Some(JsonValue::Str(tag)),
                    ) => {
                        match (opt_str_field(fields@, "device"@), timestamp_field(fields@)) {
                            (Some(device), Some(timestamp)) => {
                                match action_of_fields(tag@, fields@) {
                                    Some(action) => Some(
                                        EpisodeAction {
                                            podcast,
                                            episode,
                                            device,
                                            action,
                                            timestamp,
                                        },
                                    ),
                                    None => None,
                                }
                            },
                            _ => None,
                        }
                    },
                    _ => None,
                }
            },
            _ => None,
        }
    }

    fn decode_json(j: &JsonValue) -> (r: Option<EpisodeAction>) {
        let fields = match j {
            JsonValue::Obj(fields) => fields,
            _ => { return None; },
        };
        let podcast = match obj_get(fields, "podcast") {
            Some(JsonValue::Str(s)) => s.clone(),
            _ => { return None; },
        };
        let episode = match obj_get(fields, "episode") {
            Some(JsonValue::Str(s)) => s.clone(),
            _ => { return None; },
        };
        let tag = match obj_get(fields, "action") {
            Some(JsonValue::Str(s)) => s.clone(),
            _ => { return None; },
        };
        let device = match get_opt_str(fields, "device") {
            Some(v) => v,
            None => { return None; },
        };
        let timestamp = match obj_get(fields, "timestamp") {
            None => None,
            Some(JsonValue::Null) => None,
            Some(JsonValue::Str(s)) => match crate::datetime::parse_iso(s.as_str()) {
                Some(dt) => Some(dt),
                None => { return None; },
            },
            Some(_) => { return None; },
        };
        let action: EpisodeActionType = if str_eq(tag.as_str(), "download") {
            EpisodeActionType::Download
        } else if str_eq(tag.as_str(), "delete") {
            EpisodeActionType::Delete
        } else if str_eq(tag.as_str(), "new") {
            EpisodeActionType::New
        } else if str_eq(tag.as_str(), "flattr") {
            EpisodeActionType::Flattr
        } else if str_eq(tag.as_str(), "play") {
            let position = match obj_get(fields, "position") {
                Some(JsonValue::UInt(p)) => {
                    if *p <= 0xFFFF_FFFF {
                        *p as u32
                    } else {
                        return None;
                    }
                },
                _ => { return None; },
            };
            let started = match get_opt_u32(fields, "started") {
                Some(v) => v,
                None => { return None; },
            };
            let total = match get_opt_u32(fields, "total") {
                Some(v) => v,
                None => { return None; },
            };
            EpisodeActionType::Play { position, started, total }
        } else {
            return None;
        };
        Some(EpisodeAction { podcast, episode, device, action, timestamp })
    }
}

/// Builds the JSON tree of one action, exactly as the upload body carries
/// it: absent optional fields are omitted, never `null`. The contract is the
/// round trip: decoding the tree yields the action back, so a `Play` action
/// built by the stop-form keeps `started` and `total` absent and one built
/// by the full form keeps both present.
pub fn episode_action_to_json(a: &EpisodeAction) -> (j: JsonValue)
    requires
        match a.timestamp {
            Some(ts) => ts.valid(),
            None => true,
        },
    ensures
        EpisodeAction::decode_spec(j) == Some(*a),
{
    let mut fields: Vec<(String, JsonValue)> = Vec::new();
    fields.push((String::from_str("podcast"), JsonValue::Str(a.podcast.clone())));
    fields.push((String::from_str("episode"), JsonValue::Str(a.episode.clone())));
    match &a.device {
        Some(d) => {
            fields.push((String::from_str("device"), JsonValue::Str(d.clone())));
        },
        None => {},
    }
    fields.push(
        (String::from_str("action"), JsonValue::Str(String::from_str(a.action.tag_str()))),
    );
    match &a.action {
        EpisodeActionType::Play { position, started, total } => {
            fields.push((String::from_str("position"), JsonValue::UInt(*position as u64)));
            match started {
                Some(s) => {
                    fields.push((String::from_str("started"), JsonValue::UInt(*s as u64)));
                },
                None => {},
            }
            match total {
                Some(t) => {
                    fields.push((String::from_str("total"), JsonValue::UInt(*t as u64)));
                },
                None => {},
            }
        },
        _ => {},
    }
    match &a.timestamp {
        Some(ts) => {
            fields.push(
                (String::from_str("timestamp"), JsonValue::Str(crate::datetime::format_iso(ts))),
            );
        },
        None => {},
    }
    let j = JsonValue::Obj(fields);
    proof {
        reveal_strlit("podcast");
        reveal_strlit("episode");
        reveal_strlit("device");
        reveal_strlit("action");
        reveal_strlit("position");
        reveal_strlit("started");
        reveal_strlit("total");
        reveal_strlit("timestamp");
        reveal_strlit("download");
        reveal_strlit("delete");
        reveal_strlit("play");
        reveal_strlit("new");
        reveal_strlit("flattr");
        assert("podcast"@[0] == 'p' && "podcast"@.len() == 7);
        assert("episode"@[0] == 'e' && "episode"@.len() == 7);
        assert("device"@[0] == 'd' && "device"@.len() == 6);
        assert("action"@[0] == 'a' && "action"@.len() == 6);
        assert("position"@[0] == 'p' && "position"@.len() == 8);
        assert("started"@[0] == 's' && "started"@.len() == 7);
        assert("total"@[0] == 't' && "total"@.len() == 5);
        assert("timestamp"@[0] == 't' && "timestamp"@.len() == 9);
        assert("download"@[0] == 'd' && "download"@.len() == 8);
        assert("delete"@[0] == 'd' && "delete"@.len() == 6);
        assert("play"@[0] == 'p' && "play"@.len() == 4);
        assert("new"@[0] == 'n' && "new"@.len() == 3);
        assert("flattr"@[0] == 'f' && "flattr"@.len() == 6);
        reveal_with_fuel(obj_lookup, 12);
        match a.timestamp {
            Some(ts) => {
                crate::datetime::lemma_iso_round_trip(ts);
            },
            None => {},
        }
        assert(EpisodeAction::decode_spec(j) == Some(*a));
    }
    j
}

/// Response to an upload of episode actions: the server's cursor and the
/// URLs it rewrote, under the same canonicalization contract as subscription
/// uploads, applied independently to podcast and episode URLs.
#[derive(Debug, Clone)]
pub struct UploadEpisodeActionsResponse {
    /// The current timestamp, for retrieving changes since the last query.
    pub timestamp: u64,
    /// Pairs of submitted and rewritten URL. URLs the service does not allow
    /// (non-ASCII, or not http/https) are rewritten to the empty string and
    /// ignored by the service.
    pub update_urls: Vec<(String, String)>,
}

/// Decodes the response to an upload of episode actions; the wire shape is
/// the same as for subscription-change uploads.
pub fn parse_upload_episode_actions_response(j: &JsonValue) -> (r: Option<
    UploadEpisodeActionsResponse,
>)
    ensures
        match r {
            Some(resp) => upload_changes_response_of(*j) == Some(
                (resp.timestamp, resp.update_urls@),
            ),
            None => upload_changes_response_of(*j) is None,
        },
{
    let fields = match j {
        JsonValue::Obj(fields) => fields,
        _ => { return None; },
    };
    let timestamp = match obj_get(fields, "timestamp") {
        Some(JsonValue::UInt(n)) => *n,
        _ => { return None; },
    };
    let updates = match obj_get(fields, "update_urls") {
        Some(v) => v,
        None => { return None; },
    };
    let update_urls = match decode_list::<(String, String)>(updates) {
        Some(v) => v,
        None => { return None; },
    };
    Some(UploadEpisodeActionsResponse { timestamp, update_urls })
}

/// Rewrites the podcast and episode URLs of every action to their canonical
/// form under a server-issued rewrite list, matching by exact string
/// equality only; the same contract as for subscription uploads, applied
/// independently to both URL fields. All other fields are kept.
pub fn apply_update_urls_to_actions(
    actions: &Vec<EpisodeAction>,
    updates: &Vec<(String, String)>,
) -> (r: Vec<EpisodeAction>)
    ensures
        r@.len() == actions@.len(),
        forall|i: int| 0 <= i < actions@.len() ==> {
            &&& (#[trigger] r@[i]).podcast@ == canonical_of(
                pair_views(updates@),
                actions@[i].podcast@,
            )
            &&& r@[i].episode@ == canonical_of(pair_views(updates@), actions@[i].episode@)
            &&& r@[i].device == actions@[i].device
            &&& r@[i].action == actions@[i].action
            &&& r@[i].timestamp == actions@[i].timestamp
        },
{
    let n = actions.len();
    let mut out: Vec<EpisodeAction> = Vec::new();
    let mut i: usize = 0;
    while i < n
        invariant
            n == actions@.len(),
            i <= n,
            out@.len() == i,
            forall|k: int| 0 <= k < i ==> {
                &&& (#[trigger] out@[k]).podcast@ == canonical_of(
                    pair_views(updates@),
                    actions@[k].podcast@,
                )
                &&& out@[k].episode@ == canonical_of(pair_views(updates@), actions@[k].episode@)
                &&& out@[k].device == actions@[k].device
                &&& out@[k].action == actions@[k].action
                &&& out@[k].timestamp == actions@[k].timestamp
            },
        decreases n - i,
    {
        let a = &actions[i];
        let device = match &a.device {
            Some(d) => Some(d.clone()),
            None => None,
        };
        let rewritten = EpisodeAction {
            podcast: canonical_url(updates, &a.podcast),
            episode: canonical_url(updates, &a.episode),
            device,
            action: a.action,
            timestamp: a.timestamp,
        };
        out.push(rewritten);
        i += 1;
    }
    out
}

/// Response to a query of episode actions: the actions uploaded since the
/// supplied cursor, and the cursor to use as the next `since` value.
#[derive(Debug, Clone)]
pub struct GetEpisodeActionsResponse {
    /// The actions uploaded since the supplied cursor.
    pub actions: Vec<EpisodeAction>,
    /// New timestamp the client should save and use in subsequent requests.
    pub timestamp: u64,
}

/// What decoding an episode-actions query response yields: the list of
/// actions and the next cursor.
pub open spec fn episode_actions_response_of(j: JsonValue) -> Option<(Seq<EpisodeAction>, u64)> {
    match j {
        JsonValue::Obj(fields) => {
            match (obj_lookup(fields@, "actions"@), obj_lookup(fields@, "timestamp"@)) {
                (Some(actions_json), Some(JsonValue::UInt(timestamp))) => {
                    match list_decoded::<EpisodeAction>(actions_json) {
                        Some(actions) => Some((actions, timestamp)),
                        None => None,
                    }
                },
                _ => None,
            }
        },
        _ => None,
    }
}

/// Decodes the response to a query of episode actions.
pub fn parse_episode_actions_response(j: &JsonValue) -> (r: Option<GetEpisodeActionsResponse>)
    ensures
        match r {
            Some(resp) => episode_actions_response_of(*j) == Some(
                (resp.actions@, resp.timestamp),
            ),
            None => episode_actions_response_of(*j) is None,
        },
{
    let fields = match j {
        JsonValue::Obj(fields) => fields,
        _ => { return None; },
    };
    let timestamp = match obj_get(fields, "timestamp") {
        Some(JsonValue::UInt(n)) => *n,
        _ => { return None; },
    };
    let actions_json = match obj_get(fields, "actions") {
        Some(v) => v,
        None => { return None; },
    };
    let actions = match decode_list::<EpisodeAction>(actions_json) {
        Some(v) => v,
        None => { return None; },
    };
    Some(GetEpisodeActionsResponse { actions, timestamp })
}

/// The URL of the episode-actions endpoint of a user.
pub open spec fn episodes_url(username: Seq<char>) -> Seq<char> {
    "https://gpodder.net/api/2/episodes/"@ + username + ".json"@
}

/// The request that uploads a list of episode actions, before credentials.
/// Actions are stored per user; the endpoint is the same for every device.
pub open spec fn upload_episode_actions_req(
    username: Seq<char>,
    actions: Seq<EpisodeAction>,
) -> ReqView {
    ReqView {
        method: HttpMethod::Post,
        url: episodes_url(username),
        query: Seq::empty(),
        body: Some(episode_actions_body(actions)),
        auth: None,
    }
}

/// The wire form of a boolean query value.
pub open spec fn bool_str(b: bool) -> Seq<char> {
    if b {
        "true"@
    } else {
        "false"@
    }
}

/// The request that queries episode actions, before credentials. The query
/// always carries `aggregated`; it carries `since` and `podcast` only when
/// they are supplied. Omitting `since` asks for the entire history, which
/// callers should avoid once they hold a cursor.
pub open spec fn get_episode_actions_req(
    username: Seq<char>,
    podcast: Option<Seq<char>>,
    since: Option<u64>,
    aggregated: bool,
) -> ReqView {
    ReqView {
        method: HttpMethod::Get,
        url: episodes_url(username),
        query: seq![("aggregated"@, bool_str(aggregated))] + (match since {
            Some(s) => seq![("since"@, dec_str(s as nat))],
            None => Seq::empty(),
        }) + (match podcast {
            Some(p) => seq![("podcast"@, p)],
            None => Seq::empty(),
        }),
        body: None,
        auth: None,
    }
}

/// see [`UploadEpisodeActions::upload_episode_actions_request`]
pub trait UploadEpisodeActions: UserIdentity {
    /// The request that uploads changed episode actions. Actions are stored
    /// per user, so the endpoint is the same for every device; for logging
    /// purposes each action may carry the device it happened on.
    fn upload_episode_actions_request(&self, actions: &Vec<EpisodeAction>) -> (r: HttpRequest)
        ensures
            r@ == with_auth(
                upload_episode_actions_req(self.account(), actions@),
                self.credentials().0,
                self.credentials().1,
            ),
    ;
}

/// see [`GetEpisodeActions::get_episode_actions_request`]
pub trait GetEpisodeActions: UserIdentity {
    /// The request that queries episode actions: all actions uploaded since
    /// the cursor, optionally restricted to one podcast, optionally
    /// aggregated to the latest action per episode (decided server-side).
    fn get_episode_actions_request(
        &self,
        podcast: Option<String>,
        since: Option<u64>,
        aggregated: bool,
    ) -> (r: HttpRequest)
        ensures
            r@ == with_auth(
                get_episode_actions_req(self.account(), podcast.deep_view(), since, aggregated),
                self.credentials().0,
                self.credentials().1,
            ),
    ;
}

impl AuthenticatedClient {
    fn episodes_url_string(&self) -> (r: String)
        ensures
            r@ == episodes_url(self.username@),
    {
        let mut url = String::from_str("https://gpodder.net/api/2/episodes/");
        url.append(self.username.as_str());
        url.append(".json");
        proof {
            assert(url@ =~= episodes_url(self.username@));
        }
        url
    }
}

impl UploadEpisodeActions for AuthenticatedClient {
    fn upload_episode_actions_request(&self, actions: &Vec<EpisodeAction>) -> (r: HttpRequest) {
        let url = self.episodes_url_string();
        let body = encode_episode_actions(actions);
        let r = HttpRequest::post(url, body).with_credentials(
            self.username.as_str(),
            self.password.as_str(),
        );
        proof {
            assert(r@ =~= with_auth(
                upload_episode_actions_req(self.username@, actions@),
                self.username@,
                self.password@,
            ));
        }
        r
    }
}

impl UploadEpisodeActions for DeviceClient {
    /// The same request the wrapped authenticated client builds.
    fn upload_episode_actions_request(&self, actions: &Vec<EpisodeAction>) -> (r: HttpRequest) {
        self.authenticated_client.upload_episode_actions_request(actions)
    }
}

impl GetEpisodeActions for AuthenticatedClient {
    fn get_episode_actions_request(
        &self,
        podcast: Option<String>,
        since: Option<u64>,
        aggregated: bool,
    ) -> (r: HttpRequest) {
        let url = self.episodes_url_string();
        let mut r = HttpRequest::get(url);
        let aggregated_string = if aggregated {
            String::from_str("true")
        } else {
            String::from_str("false")
        };
        r.push_query("aggregated", aggregated_string);
        match since {
            Some(s) => {
                let mut since_string = String::new();
                append_u64(&mut since_string, s);
                r.push_query("since", since_string);
            },
            None => {},
        }
        match &podcast {
            Some(p) => {
                r.push_query("podcast", p.clone());
            },
            None => {},
        }
        let r = r.with_credentials(self.username.as_str(), self.password.as_str());
        proof {
            assert(r@.query =~= get_episode_actions_req(
                self.username@,
                podcast.deep_view(),
                since,
                aggregated,
            ).query);
            assert(r@ =~= with_auth(
                get_episode_actions_req(self.username@, podcast.deep_view(), since, aggregated),
                self.username@,
                self.password@,
            ));
        }
        r
    }
}

impl GetEpisodeActions for DeviceClient {
    /// The same request the wrapped authenticated client builds.
    fn get_episode_actions_request(
        &self,
        podcast: Option<String>,
        since: Option<u64>,
        aggregated: bool,
    ) -> (r: HttpRequest) {
        self.authenticated_client.get_episode_actions_request(podcast, since, aggregated)
    }
}

} // verus!
