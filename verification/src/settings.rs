//! Settings storage: string-to-string mappings scoped to the account, one
//! device, one podcast or one episode. A save uploads a mapping to upsert
//! and a set of keys to delete; the service answers with the resulting full
//! mapping for that scope.

use vstd::prelude::*;

verus! {

use crate::client::AuthenticatedClient;
use crate::client::DeviceClient;
use crate::client::DeviceIdentity;
use crate::client::UserIdentity;
use crate::http::HttpMethod;
use crate::http::HttpRequest;
use crate::http::ReqView;
use crate::http::with_auth;
use crate::json::JsonValue;
use crate::json::append_json_key;
use crate::json::append_json_str_array;
use crate::json::append_json_string;
use crate::json::joined;
use crate::json::json_key;
use crate::json::json_str_array;
use crate::json::json_str_lit;
use crate::json::lemma_joined_push;
use crate::strutil::push_char;
use vstd::string::StringExecFns;

/// The members of a JSON object of string-valued settings, in order.
pub open spec fn settings_members(set: Seq<(Seq<char>, Seq<char>)>) -> Seq<Seq<char>> {
    set.map_values(|kv: (Seq<char>, Seq<char>)| json_key(kv.0) + json_str_lit(kv.1))
}

/// The body of a settings save: the mapping to upsert and the keys to
/// delete.
pub open spec fn save_settings_body(
    set: Seq<(Seq<char>, Seq<char>)>,
    remove: Seq<Seq<char>>,
) -> Seq<char> {
    seq!['{'] + json_key("set"@) + seq!['{'] + joined(settings_members(set)) + seq!['}']
        + seq![','] + json_key("remove"@) + json_str_array(remove) + seq!['}']
}

/// The views of a list of string pairs.
pub open spec fn setting_views(set: Seq<(String, String)>) -> Seq<(Seq<char>, Seq<char>)> {
    set.map_values(|kv: (String, String)| (kv.0@, kv.1@))
}

/// Renders the body of a settings save.
pub fn encode_save_settings(set: &Vec<(String, String)>, remove: &Vec<String>) -> (r: String)
    ensures
        r@ == save_settings_body(setting_views(set@), remove.deep_view()),
{
    let mut out = String::new();
    push_char(&mut out, '{');
    append_json_key(&mut out, "set");
    push_char(&mut out, '{');
    let ghost s0 = out@;
    let n = set.len();
    let mut i: usize = 0;
    proof {
        assert(settings_members(setting_views(set@.take(0))) =~= Seq::<Seq<char>>::empty());
    }
    while i < n
        invariant
            n == set@.len(),
            i <= n,
            out@ == s0 + joined(settings_members(setting_views(set@.take(i as int)))),
        decreases n - i,
    {
        let ghost prefix = settings_members(setting_views(set@.take(i as int)));
        let ghost member = json_key(set@[i as int].0@) + json_str_lit(set@[i as int].1@);
        proof {
            lemma_joined_push(prefix, member);
            assert(settings_members(setting_views(set@.take(i as int + 1))) =~= prefix.push(
                member,
            ));
        }
        if i > 0 {
            push_char(&mut out, ',');
        }
        append_json_key(&mut out, set[i].0.as_str());
        append_json_string(&mut out, set[i].1.as_str());
        proof {
            assert(out@ =~= s0 + joined(
                settings_members(setting_views(set@.take(i as int + 1))),
            ));
        }
        i += 1;
    }
    proof {
        assert(set@.take(n as int) =~= set@);
    }
    push_char(&mut out, '}');
    push_char(&mut out, ',');
    append_json_key(&mut out, "remove");
    append_json_str_array(&mut out, remove);
    push_char(&mut out, '}');
    proof {
        assert(out@ =~= save_settings_body(setting_views(set@), remove.deep_view()));
    }
    out
}

/// What decoding a settings mapping yields: the key-value pairs of a JSON
/// object whose values are all strings, in order of appearance.
pub open spec fn settings_of_fields(fields: Seq<(String, JsonValue)>) -> Option<
    Seq<(String, String)>,
>
    decreases fields.len(),
{
    if fields.len() == 0 {
        Some(Seq::empty())
    } else {
        match (settings_of_fields(fields.drop_last()), fields.last().1) {
            (Some(front), JsonValue::Str(v)) => Some(front.push((fields.last().0, v))),
            _ => None,
        }
    }
}

/// What decoding a settings response yields.
pub open spec fn settings_of_json(j: JsonValue) -> Option<Seq<(String, String)>> {
    match j {
        JsonValue::Obj(fields) => settings_of_fields(fields@),
        _ => None,
    }
}

proof fn lemma_settings_prefix_none(fields: Seq<(String, JsonValue)>, k: int)
    requires
        0 <= k <= fields.len(),
        settings_of_fields(fields.take(k)) is None,
    ensures
        settings_of_fields(fields) is None,
    decreases fields.len(),
{
    if fields.len() > k {
        assert(fields.drop_last().take(k) =~= fields.take(k));
        lemma_settings_prefix_none(fields.drop_last(), k);
    } else {
        assert(fields.take(k) =~= fields);
    }
}

/// Decodes a settings mapping: the response to every settings read and
/// save.
pub fn parse_settings(j: &JsonValue) -> (r: Option<Vec<(String, String)>>)
    ensures
        match r {
            Some(v) => settings_of_json(*j) == Some(v@),
            None => settings_of_json(*j) is None,
        },
{
    let fields = match j {
        JsonValue::Obj(fields) => fields,
        _ => { return None; },
    };
    let n = fields.len();
    let mut out: Vec<(String, String)> = Vec::new();
    let mut i: usize = 0;
    proof {
        assert(fields@.take(0) =~= Seq::<(String, JsonValue)>::empty());
    }
    while i < n
        invariant
            n == fields@.len(),
            i <= n,
            settings_of_json(*j) == settings_of_fields(fields@),
            settings_of_fields(fields@.take(i as int)) == Some(out@),
        decreases n - i,
    {
        proof {
            assert(fields@.take(i as int + 1).drop_last() =~= fields@.take(i as int));
            assert(fields@.take(i as int + 1).last() == fields@[i as int]);
        }
        match &fields[i].1 {
            JsonValue::Str(v) => {
                out.push((fields[i].0.clone(), v.clone()));
            },
            _ => {
                proof {
                    lemma_settings_prefix_none(fields@, i as int + 1);
                }
                return None;
            },
        }
        i += 1;
    }
    proof {
        assert(fields@.take(n as int) =~= fields@);
    }
    Some(out)
}

/// The URL of one settings scope of a user: `scope` is `account`, `device`,
/// `podcast` or `episode`.
pub open spec fn settings_url(username: Seq<char>, scope: Seq<char>) -> Seq<char> {
    "https://gpodder.net/api/2/settings/"@ + username + "/"@ + scope + ".json"@
}

/// The request that saves settings in one scope, before credentials and
/// before the scope's extra query identifiers.
pub open spec fn save_settings_req(
    username: Seq<char>,
    scope: Seq<char>,
    set: Seq<(Seq<char>, Seq<char>)>,
    remove: Seq<Seq<char>>,
) -> ReqView {
    ReqView {
        method: HttpMethod::Post,
        url: settings_url(username, scope),
        query: Seq::empty(),
        body: Some(save_settings_body(set, remove)),
        auth: None,
    }
}

/// The request that reads the settings of one scope, before credentials and
/// before the scope's extra query identifiers.
pub open spec fn get_settings_req(username: Seq<char>, scope: Seq<char>) -> ReqView {
    ReqView {
        method: HttpMethod::Get,
        url: settings_url(username, scope),
        query: Seq::empty(),
        body: None,
        auth: None,
    }
}

/// A request with one more query parameter.
pub open spec fn with_query(r: ReqView, key: Seq<char>, value: Seq<char>) -> ReqView {
    ReqView { query: r.query.push((key, value)), ..r }
}

/// see [`SaveAccountSettings::save_account_settings_request`]
pub trait SaveAccountSettings: UserIdentity {
    /// The request that saves account-scoped settings: the given mapping is
    /// upserted and the given keys are deleted.
    fn save_account_settings_request(
        &self,
        set: &Vec<(String, String)>,
        remove: &Vec<String>,
    ) -> (r: HttpRequest)
        ensures
            r@ == with_auth(
                save_settings_req(
                    self.account(),
                    "account"@,
                    setting_views(set@),
                    remove.deep_view(),
                ),
                self.credentials().0,
                self.credentials().1,
            ),
    ;
}

/// see [`SaveDeviceSettings::save_device_settings_request`]
pub trait SaveDeviceSettings: DeviceIdentity {
    /// The request that saves the client's device's settings; the device is
    /// named in the query.
    fn save_device_settings_request(
        &self,
        set: &Vec<(String, String)>,
        remove: &Vec<String>,
    ) -> (r: HttpRequest)
        ensures
            r@ == with_auth(
                with_query(
                    save_settings_req(
                        self.account(),
                        "device"@,
                        setting_views(set@),
                        remove.deep_view(),
                    ),
                    "device"@,
                    self.device(),
                ),
                self.credentials().0,
                self.credentials().1,
            ),
    ;
}

/// see [`SavePodcastSettings::save_podcast_settings_request`]
pub trait SavePodcastSettings: UserIdentity {
    /// The request that saves podcast-scoped settings; the podcast is named
    /// by its feed URL in the query.
    fn save_podcast_settings_request(
        &self,
        set: &Vec<(String, String)>,
        remove: &Vec<String>,
        podcast: String,
    ) -> (r: HttpRequest)
        ensures
            r@ == with_auth(
                with_query(
                    save_settings_req(
                        self.account(),
                        "podcast"@,
                        setting_views(set@),
                        remove.deep_view(),
                    ),
                    "podcast"@,
                    podcast@,
                ),
                self.credentials().0,
                self.credentials().1,
            ),
    ;
}

/// see [`SaveEpisodeSettings::save_episode_settings_request`]
pub trait SaveEpisodeSettings: UserIdentity {
    /// The request that saves episode-scoped settings; the episode is named
    /// by its podcast feed URL and media URL in the query.
    fn save_episode_settings_request(
        &self,
        set: &Vec<(String, String)>,
        remove: &Vec<String>,
        podcast: String,
        episode: String,
    ) -> (r: HttpRequest)
        ensures
            r@ == with_auth(
                with_query(
                    with_query(
                        save_settings_req(
                            self.account(),
                            "episode"@,
                            setting_views(set@),
                            remove.deep_view(),
                        ),
                        "podcast"@,
                        podcast@,
                    ),
                    "episode"@,
                    episode@,
                ),
                self.credentials().0,
                self.credentials().1,
            ),
    ;
}

/// see [`GetAccountSettings::get_account_settings_request`]
pub trait GetAccountSettings: UserIdentity {
    /// The request that reads the account-scoped settings.
    fn get_account_settings_request(&self) -> (r: HttpRequest)
        ensures
            r@ == with_auth(
                get_settings_req(self.account(), "account"@),
                self.credentials().0,
                self.credentials().1,
            ),
    ;
}

/// see [`GetDeviceSettings::get_device_settings_request`]
pub trait GetDeviceSettings: DeviceIdentity {
    /// The request that reads the client's device's settings.
    fn get_device_settings_request(&self) -> (r: HttpRequest)
        ensures
            r@ == with_auth(
                with_query(
                    get_settings_req(self.account(), "device"@),
                    "device"@,
                    self.device(),
                ),
                self.credentials().0,
                self.credentials().1,
            ),
    ;
}

/// see [`GetPodcastSettings::get_podcast_settings_request`]
pub trait GetPodcastSettings: UserIdentity {
    /// The request that reads the settings of one podcast.
    fn get_podcast_settings_request(&self, podcast: String) -> (r: HttpRequest)
        ensures
            r@ == with_auth(
                with_query(
                    get_settings_req(self.account(), "podcast"@),
                    "podcast"@,
                    podcast@,
                ),
                self.credentials().0,
                self.credentials().1,
            ),
    ;
}

/// see [`GetEpisodeSettings::get_episode_settings_request`]
pub trait GetEpisodeSettings: UserIdentity {
    /// The request that reads the settings of one episode.
    fn get_episode_settings_request(&self, podcast: String, episode: String) -> (r: HttpRequest)
        ensures
            r@ == with_auth(
                with_query(
                    with_query(
                        get_settings_req(self.account(), "episode"@),
                        "podcast"@,
                        podcast@,
                    ),
                    "episode"@,
                    episode@,
                ),
                self.credentials().0,
                self.credentials().1,
            ),
    ;
}

impl AuthenticatedClient {
    fn settings_url_string(&self, scope: &str) -> (r: String)
        ensures
            r@ == settings_url(self.username@, scope@),
    {
        let mut url = String::from_str("https://gpodder.net/api/2/settings/");
        url.append(self.username.as_str());
        url.append("/");
        url.append(scope);
        url.append(".json");
        proof {
            assert(url@ =~= settings_url(self.username@, scope@));
        }
        url
    }
}

impl SaveAccountSettings for AuthenticatedClient {
    fn save_account_settings_request(
        &self,
        set: &Vec<(String, String)>,
        remove: &Vec<String>,
    ) -> (r: HttpRequest) {
        let url = self.settings_url_string("account");
        let body = encode_save_settings(set, remove);
        let r = HttpRequest::post(url, body).with_credentials(
            self.username.as_str(),
            self.password.as_str(),
        );
        proof {
            assert(r@ =~= with_auth(
                save_settings_req(
                    self.username@,
                    "account"@,
                    setting_views(set@),
                    remove.deep_view(),
                ),
                self.username@,
                self.password@,
            ));
        }
        r
    }
}

impl SaveAccountSettings for DeviceClient {
    /// The same request the wrapped authenticated client builds.
    fn save_account_settings_request(
        &self,
        set: &Vec<(String, String)>,
        remove: &Vec<String>,
    ) -> (r: HttpRequest) {
        self.authenticated_client.save_account_settings_request(set, remove)
    }
}

impl SaveDeviceSettings for DeviceClient {
    fn save_device_settings_request(
        &self,
        set: &Vec<(String, String)>,
        remove: &Vec<String>,
    ) -> (r: HttpRequest) {
        let url = self.authenticated_client.settings_url_string("device");
        let body = encode_save_settings(set, remove);
        let mut r = HttpRequest::post(url, body);
        r.push_query("device", self.device_id.clone());
        let r = r.with_credentials(
            self.authenticated_client.username.as_str(),
            self.authenticated_client.password.as_str(),
        );
        proof {
            assert(r@ =~= with_auth(
                with_query(
                    save_settings_req(
                        self.authenticated_client.username@,
                        "device"@,
                        setting_views(set@),
                        remove.deep_view(),
                    ),
                    "device"@,
                    self.device_id@,
                ),
                self.authenticated_client.username@,
                self.authenticated_client.password@,
            ));
        }
        r
    }
}

impl SavePodcastSettings for AuthenticatedClient {
    fn save_podcast_settings_request(
        &self,
        set: &Vec<(String, String)>,
        remove: &Vec<String>,
        podcast: String,
    ) -> (r: HttpRequest) {
        let ghost podcast_view = podcast@;
        let url = self.settings_url_string("podcast");
        let body = encode_save_settings(set, remove);
        let mut r = HttpRequest::post(url, body);
        r.push_query("podcast", podcast);
        let r = r.with_credentials(self.username.as_str(), self.password.as_str());
        proof {
            assert(r@ =~= with_auth(
                with_query(
                    save_settings_req(
                        self.username@,
                        "podcast"@,
                        setting_views(set@),
                        remove.deep_view(),
                    ),
                    "podcast"@,
                    podcast_view,
                ),
                self.username@,
                self.password@,
            ));
        }
        r
    }
}

impl SavePodcastSettings for DeviceClient {
    /// The same request the wrapped authenticated client builds.
    fn save_podcast_settings_request(
        &self,
        set: &Vec<(String, String)>,
        remove: &Vec<String>,
        podcast: String,
    ) -> (r: HttpRequest) {
        self.authenticated_client.save_podcast_settings_request(set, remove, podcast)
    }
}

impl SaveEpisodeSettings for AuthenticatedClient {
    fn save_episode_settings_request(
        &self,
        set: &Vec<(String, String)>,
        remove: &Vec<String>,
        podcast: String,
        episode: String,
    ) -> (r: HttpRequest) {
        let ghost podcast_view = podcast@;
        let ghost episode_view = episode@;
        let url = self.settings_url_string("episode");
        let body = encode_save_settings(set, remove);
        let mut r = HttpRequest::post(url, body);
        r.push_query("podcast", podcast);
        r.push_query("episode", episode);
        let r = r.with_credentials(self.username.as_str(), self.password.as_str());
        proof {
            assert(r@ =~= with_auth(
                with_query(
                    with_query(
                        save_settings_req(
                            self.username@,
                            "episode"@,
                            setting_views(set@),
                            remove.deep_view(),
                        ),
                        "podcast"@,
                        podcast_view,
                    ),
                    "episode"@,
                    episode_view,
                ),
                self.username@,
                self.password@,
            ));
        }
        r
    }
}

impl SaveEpisodeSettings for DeviceClient {
    /// The same request the wrapped authenticated client builds.
    fn save_episode_settings_request(
        &self,
        set: &Vec<(String, String)>,
        remove: &Vec<String>,
        podcast: String,
        episode: String,
    ) -> (r: HttpRequest) {
        self.authenticated_client.save_episode_settings_request(set, remove, podcast, episode)
    }
}

impl GetAccountSettings for AuthenticatedClient {
    fn get_account_settings_request(&self) -> (r: HttpRequest) {
        let url = self.settings_url_string("account");
        let r = HttpRequest::get(url).with_credentials(
            self.username.as_str(),
            self.password.as_str(),
        );
        proof {
            assert(r@ =~= with_auth(
                get_settings_req(self.username@, "account"@),
                self.username@,
                self.password@,
            ));
        }
        r
    }
}

impl GetAccountSettings for DeviceClient {
    /// The same request the wrapped authenticated client builds.
    fn get_account_settings_request(&self) -> (r: HttpRequest) {
        self.authenticated_client.get_account_settings_request()
    }
}

impl GetDeviceSettings for DeviceClient {
    fn get_device_settings_request(&self) -> (r: HttpRequest) {
        let url = self.authenticated_client.settings_url_string("device");
        let mut r = HttpRequest::get(url);
        r.push_query("device", self.device_id.clone());
        let r = r.with_credentials(
            self.authenticated_client.username.as_str(),
            self.authenticated_client.password.as_str(),
        );
        proof {
            assert(r@ =~= with_auth(
                with_query(
                    get_settings_req(self.authenticated_client.username@, "device"@),
                    "device"@,
                    self.device_id@,
                ),
                self.authenticated_client.username@,
                self.authenticated_client.password@,
            ));
        }
        r
    }
}

impl GetPodcastSettings for AuthenticatedClient {
    fn get_podcast_settings_request(&self, podcast: String) -> (r: HttpRequest) {
        let ghost podcast_view = podcast@;
        let url = self.settings_url_string("podcast");
        let mut r = HttpRequest::get(url);
        r.push_query("podcast", podcast);
        let r = r.with_credentials(self.username.as_str(), self.password.as_str());
        proof {
            assert(r@ =~= with_auth(
                with_query(
                    get_settings_req(self.username@, "podcast"@),
                    "podcast"@,
                    podcast_view,
                ),
                self.username@,
                self.password@,
            ));
        }
        r
    }
}

impl GetPodcastSettings for DeviceClient {
    /// The same request the wrapped authenticated client builds.
    fn get_podcast_settings_request(&self, podcast: String) -> (r: HttpRequest) {
        self.authenticated_client.get_podcast_settings_request(podcast)
    }
}

impl GetEpisodeSettings for AuthenticatedClient {
    fn get_episode_settings_request(&self, podcast: String, episode: String) -> (r: HttpRequest) {
        let ghost podcast_view = podcast@;
        let ghost episode_view = episode@;
        let url = self.settings_url_string("episode");
        let mut r = HttpRequest::get(url);
        r.push_query("podcast", podcast);
        r.push_query("episode", episode);
        let r = r.with_credentials(self.username.as_str(), self.password.as_str());
        proof {
            assert(r@ =~= with_auth(
                with_query(
                    with_query(
                        get_settings_req(self.username@, "episode"@),
                        "podcast"@,
                        podcast_view,
                    ),
                    "episode"@,
                    episode_view,
                ),
                self.username@,
                self.password@,
            ));
        }
        r
    }
}

impl GetEpisodeSettings for DeviceClient {
    /// The same request the wrapped authenticated client builds.
    fn get_episode_settings_request(&self, podcast: String, episode: String) -> (r: HttpRequest) {
        self.authenticated_client.get_episode_settings_request(podcast, episode)
    }
}

} // verus!
