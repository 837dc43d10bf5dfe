//! Subscriptions: the rich subscription records, the full-state reads and
//! writes of a device's subscription list, and the incremental delta-sync
//! protocol with its URL-canonicalization rules.

use vstd::prelude::*;

verus! {

broadcast use vstd::string::group_string_axioms;

use core::cmp::Ordering;
use crate::client::AuthenticatedClient;
use crate::client::DeviceClient;
use crate::client::DeviceIdentity;
use crate::client::UserIdentity;
use crate::http::HttpMethod;
use crate::http::HttpRequest;
use crate::http::ReqView;
use crate::http::with_auth;
use crate::json::JsonDecode;
use crate::json::JsonValue;
use crate::json::append_json_key;
use crate::json::append_json_str_array;
use crate::json::decode_list;
use crate::json::get_opt_str;
use crate::json::json_key;
use crate::json::json_str_array;
use crate::json::list_decoded;
use crate::json::obj_get;
use crate::json::obj_lookup;
use crate::json::opt_str_field;
use crate::strutil::append_u64;
use crate::strutil::cmp_str;
use crate::strutil::dec_str;
use crate::strutil::lemma_cmp_str_equal_iff_eq;
use crate::strutil::lex_cmp_bytes;
use crate::strutil::push_char;
use crate::strutil::str_eq;
use vstd::std_specs::cmp::PartialEqSpec;
use vstd::std_specs::cmp::PartialOrdSpec;
use vstd::string::StringExecFns;
use vstd::utf8::encode_utf8;

/// A subscription record as the directory and subscription reads return it.
/// Identity, equality and ordering are defined solely by the feed `url`.
#[derive(Debug, Clone)]
pub struct Subscription {
    /// Feed URL: the primary key of the record.
    pub url: String,
    /// Title of the podcast.
    pub title: String,
    /// Description of the podcast.
    pub description: String,
    /// Number of subscribers on the service.
    pub subscribers: u16,
    /// Number of subscribers on the service one week before.
    pub subscribers_last_week: u16,
    /// URL to the logo of the podcast.
    pub logo_url: Option<String>,
    /// URL to a scaled logo of the podcast.
    pub scaled_logo_url: Option<String>,
    /// Website of the podcast.
    pub website: Option<String>,
    /// Service-internal feed URL.
    pub mygpo_link: String,
}

impl PartialEq for Subscription {
    fn eq(&self, other: &Self) -> (r: bool) {
        self.url == other.url
    }
}

impl vstd::std_specs::cmp::PartialEqSpecImpl for Subscription {
    open spec fn obeys_eq_spec() -> bool {
        true
    }

    open spec fn eq_spec(&self, other: &Subscription) -> bool {
        self.url@ == other.url@
    }
}

impl PartialOrd for Subscription {
    fn partial_cmp(&self, other: &Self) -> (r: Option<Ordering>) {
        Some(cmp_str(self.url.as_str(), other.url.as_str()))
    }
}

impl vstd::std_specs::cmp::PartialOrdSpecImpl for Subscription {
    open spec fn obeys_partial_cmp_spec() -> bool {
        true
    }

    open spec fn partial_cmp_spec(&self, other: &Subscription) -> Option<Ordering> {
        Some(lex_cmp_bytes(encode_utf8(self.url@), encode_utf8(other.url@)))
    }
}

/// Relies on std's `String::hash`: a subscription hashes as its feed URL
/// alone, so that records that are equal (same URL) hash alike.
impl core::hash::Hash for Subscription {
    #[verifier::external_body]
    fn hash<H: core::hash::Hasher>(&self, state: &mut H) {
        self.url.hash(state);
    }
}

/// Law: subscription identity is the feed URL alone. Two records are equal
/// exactly when their URLs are, whatever their other fields.
pub proof fn lemma_subscription_equality_by_url(s1: Subscription, s2: Subscription)
    ensures
        s1.eq_spec(&s2) <==> s1.url@ == s2.url@,
        s1.partial_cmp_spec(&s2) == Some(Ordering::Equal) <==> s1.url@ == s2.url@,
{
    lemma_cmp_str_equal_iff_eq(s1.url@, s2.url@);
}

/// The reader-friendly one-line form of a subscription record:
/// `Title: Description <url>`.
pub open spec fn subscription_display(s: Subscription) -> Seq<char> {
    s.title@ + seq![':', ' '] + s.description@ + seq![' ', '<'] + s.url@ + seq!['>']
}

impl Subscription {
    /// Formats this record as `Title: Description <url>`.
    pub fn display_string(&self) -> (r: String)
        ensures
            r@ == subscription_display(*self),
    {
        let mut out = String::new();
        out.append(self.title.as_str());
        push_char(&mut out, ':');
        push_char(&mut out, ' ');
        out.append(self.description.as_str());
        push_char(&mut out, ' ');
        push_char(&mut out, '<');
        out.append(self.url.as_str());
        push_char(&mut out, '>');
        assert(out@ =~= subscription_display(*self));
        out
    }
}

impl JsonDecode for Subscription {
    open spec fn decode_spec(j: JsonValue) -> Option<Subscription> {
        match j {
            JsonValue::Obj(fields) => {
                match (
                    obj_lookup(fields@, "url"@),
                    obj_lookup(fields@, "title"@),
                    obj_lookup(fields@, "description"@),
                    obj_lookup(fields@, "subscribers"@),
                    obj_lookup(fields@, "subscribers_last_week"@),
                    obj_lookup(fields@, "mygpo_link"@),
                ) {
                    (
                        Some(JsonValue::Str(url)),
                        Some(JsonValue::Str(title)),
                        Some(JsonValue::Str(description)),
                        Some(JsonValue::UInt(subs)),
                        Some(JsonValue::UInt(subs_week)),
                        Some(JsonValue::Str(mygpo_link)),
                    ) => {
                        match (
                            opt_str_field(fields@, "logo_url"@),
                            opt_str_field(fields@, "scaled_logo_url"@),
                            opt_str_field(fields@, "website"@),
                        ) {
                            (Some(logo_url), Some(scaled_logo_url), Some(website)) => {
                                if subs <= 65535 && subs_week <= 65535 {
                                    Some(
                                        Subscription {
                                            url,
                                            title,
                                            description,
                                            subscribers: subs as u16,
                                            subscribers_last_week: subs_week as u16,
                                            logo_url,
                                            scaled_logo_url,
                                            website,
                                            mygpo_link,
                                        },
                                    )
                                } else {
                                    None
                                }
                            },
                            _ => None,
                        }
                    },
                    _ => None,
                }
            },
            _ => None,
        }
    }

    fn decode_json(j: &JsonValue) -> (r: Option<Subscription>) {
        let fields = match j {
            JsonValue::Obj(fields) => fields,
            _ => { return None; },
        };
        let url = match obj_get(fields, "url") {
            Some(JsonValue::Str(s)) => s.clone(),
            _ => { return None; },
        };
        let title = match obj_get(fields, "title") {
            Some(JsonValue::Str(s)) => s.clone(),
            _ => { return None; },
        };
        let description = match obj_get(fields, "description") {
            Some(JsonValue::Str(s)) => s.clone(),
            _ => { return None; },
        };
        let subscribers = match obj_get(fields, "subscribers") {
            Some(JsonValue::UInt(n)) => {
                if *n <= 65535 {
                    *n as u16
                } else {
                    return None;
                }
            },
            _ => { return None; },
        };
        let subscribers_last_week = match obj_get(fields, "subscribers_last_week") {
            Some(JsonValue::UInt(n)) => {
                if *n <= 65535 {
                    *n as u16
                } else {
                    return None;
                }
            },
            _ => { return None; },
        };
        let mygpo_link = match obj_get(fields, "mygpo_link") {
            Some(JsonValue::Str(s)) => s.clone(),
            _ => { return None; },
        };
        let logo_url = match get_opt_str(fields, "logo_url") {
            Some(v) => v,
            None => { return None; },
        };
        let scaled_logo_url = match get_opt_str(fields, "scaled_logo_url") {
            Some(v) => v,
            None => { return None; },
        };
        let website = match get_opt_str(fields, "website") {
            Some(v) => v,
            None => { return None; },
        };
        Some(
            Subscription {
                url,
                title,
                description,
                subscribers,
                subscribers_last_week,
                logo_url,
                scaled_logo_url,
                website,
                mygpo_link,
            },
        )
    }
}

/// Response to an upload of subscription changes: the server's cursor for
/// the next delta read, and the URLs it rewrote while sanitizing the upload.
#[derive(Debug, Clone)]
pub struct UploadSubscriptionChangesResponse {
    /// Timestamp/ID that can be used for requesting changes since this
    /// upload in a subsequent API call.
    pub timestamp: u64,
    /// Pairs of submitted and rewritten URL, for every URL the server
    /// normalized. The client should replace its local copies accordingly.
    pub update_urls: Vec<(String, String)>,
}

/// What decoding an upload response yields: the cursor and the list of
/// `(submitted, rewritten)` URL pairs.
pub open spec fn upload_changes_response_of(j: JsonValue) -> Option<(u64, Seq<(String, String)>)> {
    match j {
        JsonValue::Obj(fields) => {
            match (obj_lookup(fields@, "timestamp"@), obj_lookup(fields@, "update_urls"@)) {
                (Some(JsonValue::UInt(timestamp)), Some(updates)) => {
                    match list_decoded::<(String, String)>(updates) {
                        Some(update_urls) => Some((timestamp, update_urls)),
                        None => None,
                    }
                },
                _ => None,
            }
        },
        _ => None,
    }
}

/// Decodes the response to an upload of subscription changes.
pub fn parse_upload_subscription_changes_response(j: &JsonValue) -> (r: Option<
    UploadSubscriptionChangesResponse,
>)
    ensures
        match r {
            Some(resp) => upload_changes_response_of(*j) == Some(
                (resp.timestamp, resp.update_urls@),
            ),
            None => upload_changes_response_of(*j) is None,
        },
{
    let fields = match j {
        JsonValue::Obj(fields) => fields,
        _ => { return None; },
    };
    let timestamp = match obj_get(fields, "timestamp") {
        Some(JsonValue::UInt(n)) => *n,
        _ => { return None; },
    };
    let updates = match obj_get(fields, "update_urls") {
        Some(v) => v,
        None => { return None; },
    };
    let update_urls = match decode_list::<(String, String)>(updates) {
        Some(v) => v,
        None => { return None; },
    };
    Some(UploadSubscriptionChangesResponse { timestamp, update_urls })
}

/// Response to a read of subscription changes: the delta since the supplied
/// cursor, and the cursor to store for the next read.
#[derive(Debug, Clone)]
pub struct GetSubscriptionChangesResponse {
    /// The timestamp the client should store and supply as `since` in the
    /// next request.
    pub timestamp: u64,
    /// Feed URLs that should be added.
    pub add: Vec<String>,
    /// Feed URLs that should be removed.
    pub remove: Vec<String>,
}

/// What decoding a delta-read response yields: the cursor, the URLs to add
/// and the URLs to remove.
pub open spec fn subscription_changes_response_of(j: JsonValue) -> Option<
    (u64, Seq<String>, Seq<String>),
> {
    match j {
        JsonValue::Obj(fields) => {
            match (
                obj_lookup(fields@, "timestamp"@),
                obj_lookup(fields@, "add"@),
                obj_lookup(fields@, "remove"@),
            ) {
                (Some(JsonValue::UInt(timestamp)), Some(add_json), Some(remove_json)) => {
                    match (list_decoded::<String>(add_json), list_decoded::<String>(remove_json)) {
                        (Some(add), Some(remove)) => Some((timestamp, add, remove)),
                        _ => None,
                    }
                },
                _ => None,
            }
        },
        _ => None,
    }
}

/// Decodes the response to a read of subscription changes.
pub fn parse_subscription_changes_response(j: &JsonValue) -> (r: Option<
    GetSubscriptionChangesResponse,
>)
    ensures
        match r {
            Some(resp) => subscription_changes_response_of(*j) == Some(
                (resp.timestamp, resp.add@, resp.remove@),
            ),
            None => subscription_changes_response_of(*j) is None,
        },
{
    let fields = match j {
        JsonValue::Obj(fields) => fields,
        _ => { return None; },
    };
    let timestamp = match obj_get(fields, "timestamp") {
        Some(JsonValue::UInt(n)) => *n,
        _ => { return None; },
    };
    let add_json = match obj_get(fields, "add") {
        Some(v) => v,
        None => { return None; },
    };
    let remove_json = match obj_get(fields, "remove") {
        Some(v) => v,
        None => { return None; },
    };
    let add = match decode_list::<String>(add_json) {
        Some(v) => v,
        None => { return None; },
    };
    let remove = match decode_list::<String>(remove_json) {
        Some(v) => v,
        None => { return None; },
    };
    Some(GetSubscriptionChangesResponse { timestamp, add, remove })
}

/// The URL of the rich subscription list of a user.
pub open spec fn all_subscriptions_url(username: Seq<char>) -> Seq<char> {
    "https://gpodder.net/subscriptions/"@ + username + ".json"@
}

/// The URL of the bare subscription list of one device.
pub open spec fn device_subscriptions_url(username: Seq<char>, device_id: Seq<char>) -> Seq<
    char,
> {
    "https://gpodder.net/subscriptions/"@ + username + "/"@ + device_id + ".json"@
}

/// The URL of the incremental subscription-change endpoint of one device.
pub open spec fn subscription_changes_url(username: Seq<char>, device_id: Seq<char>) -> Seq<
    char,
> {
    "https://gpodder.net/api/2/subscriptions/"@ + username + "/"@ + device_id + ".json"@
}

/// The request that reads the rich subscription list, before credentials.
pub open spec fn get_all_subscriptions_req(username: Seq<char>) -> ReqView {
    ReqView {
        method: HttpMethod::Get,
        url: all_subscriptions_url(username),
        query: Seq::empty(),
        body: None,
        auth: None,
    }
}

/// The request that reads one device's subscription list, before
/// credentials.
pub open spec fn get_device_subscriptions_req(username: Seq<char>, device_id: Seq<char>) -> ReqView {
    ReqView {
        method: HttpMethod::Get,
        url: device_subscriptions_url(username, device_id),
        query: Seq::empty(),
        body: None,
        auth: None,
    }
}

/// The request that replaces one device's subscription list wholesale: a PUT
/// of the complete list of feed URLs, before credentials.
pub open spec fn put_device_subscriptions_req(
    username: Seq<char>,
    device_id: Seq<char>,
    subscriptions: Seq<Seq<char>>,
) -> ReqView {
    ReqView {
        method: HttpMethod::Put,
        url: device_subscriptions_url(username, device_id),
        query: Seq::empty(),
        body: Some(json_str_array(subscriptions)),
        auth: None,
    }
}

/// The body of an incremental subscription upload: the URLs to add and the
/// URLs to remove. The two sets should be disjoint; the server's behaviour
/// on a URL that appears in both is its own and is not corrected here.
pub open spec fn subscription_changes_body(add: Seq<Seq<char>>, remove: Seq<Seq<char>>) -> Seq<
    char,
> {
    seq!['{'] + json_key("add"@) + json_str_array(add) + seq![','] + json_key("remove"@)
        + json_str_array(remove) + seq!['}']
}

/// The request that uploads an incremental subscription change set, before
/// credentials.
pub open spec fn upload_subscription_changes_req(
    username: Seq<char>,
    device_id: Seq<char>,
    add: Seq<Seq<char>>,
    remove: Seq<Seq<char>>,
) -> ReqView {
    ReqView {
        method: HttpMethod::Post,
        url: subscription_changes_url(username, device_id),
        query: Seq::empty(),
        body: Some(subscription_changes_body(add, remove)),
        auth: None,
    }
}

/// The request that reads the subscription delta since `since`, before
/// credentials. The cursor should be the value a prior upload or read in the
/// same device's history returned; omitting it asks for the entire history.
pub open spec fn get_subscription_changes_req(
    username: Seq<char>,
    device_id: Seq<char>,
    since: Option<u64>,
) -> ReqView {
    ReqView {
        method: HttpMethod::Get,
        url: subscription_changes_url(username, device_id),
        query: match since {
            Some(s) => seq![("since"@, dec_str(s as nat))],
            None => Seq::empty(),
        },
        body: None,
        auth: None,
    }
}

/// see [`GetAllSubscriptions::get_all_subscriptions_request`]
pub trait GetAllSubscriptions: UserIdentity {
    /// The request that reads the rich subscription list of the user.
    fn get_all_subscriptions_request(&self) -> (r: HttpRequest)
        ensures
            r@ == with_auth(
                get_all_subscriptions_req(self.account()),
                self.credentials().0,
                self.credentials().1,
            ),
    ;
}

/// Read and replace the subscription list of one device.
pub trait SubscriptionsOfDevice: DeviceIdentity {
    /// The request that reads the device's bare subscription list.
    fn get_subscriptions_of_device_request(&self) -> (r: HttpRequest)
        ensures
            r@ == with_auth(
                get_device_subscriptions_req(self.account(), self.device()),
                self.credentials().0,
                self.credentials().1,
            ),
    ;

    /// The request that replaces the device's subscription list wholesale
    /// with the given feed URLs; there is no merge and no partial update.
    fn upload_subscriptions_of_device_request(&self, subscriptions: &Vec<String>) -> (r:
        HttpRequest)
        ensures
            r@ == with_auth(
                put_device_subscriptions_req(
                    self.account(),
                    self.device(),
                    subscriptions.deep_view(),
                ),
                self.credentials().0,
                self.credentials().1,
            ),
    ;
}

/// Upload and read incremental subscription change sets.
pub trait SubscriptionChanges: DeviceIdentity {
    /// The request that uploads an incremental subscription change set.
    /// Timestamps are issued by the server; only deltas are carried here.
    fn upload_subscription_changes_request(&self, add: &Vec<String>, remove: &Vec<String>) -> (r:
        HttpRequest)
        ensures
            r@ == with_auth(
                upload_subscription_changes_req(
                    self.account(),
                    self.device(),
                    add.deep_view(),
                    remove.deep_view(),
                ),
                self.credentials().0,
                self.credentials().1,
            ),
    ;

    /// The request that reads the subscription delta since `since`;
    /// omitting the cursor asks for the entire history, which callers
    /// should avoid once they hold one.
    fn get_subscription_changes_request(&self, since: Option<u64>) -> (r: HttpRequest)
        ensures
            r@ == with_auth(
                get_subscription_changes_req(self.account(), self.device(), since),
                self.credentials().0,
                self.credentials().1,
            ),
    ;
}

impl GetAllSubscriptions for AuthenticatedClient {
    fn get_all_subscriptions_request(&self) -> (r: HttpRequest) {
        let mut url = String::from_str("https://gpodder.net/subscriptions/");
        url.append(self.username.as_str());
        url.append(".json");
        let r = HttpRequest::get(url).with_credentials(
            self.username.as_str(),
            self.password.as_str(),
        );
        proof {
            assert(r@ =~= with_auth(
                get_all_subscriptions_req(self.username@),
                self.username@,
                self.password@,
            ));
        }
        r
    }
}

impl GetAllSubscriptions for DeviceClient {
    /// The same request the wrapped authenticated client builds.
    fn get_all_subscriptions_request(&self) -> (r: HttpRequest) {
        self.authenticated_client.get_all_subscriptions_request()
    }
}

impl DeviceClient {
    fn device_subscriptions_url_string(&self) -> (r: String)
        ensures
            r@ == device_subscriptions_url(self.authenticated_client.username@, self.device_id@),
    {
        let mut url = String::from_str("https://gpodder.net/subscriptions/");
        url.append(self.authenticated_client.username.as_str());
        url.append("/");
        url.append(self.device_id.as_str());
        url.append(".json");
        proof {
            assert(url@ =~= device_subscriptions_url(
                self.authenticated_client.username@,
                self.device_id@,
            ));
        }
        url
    }

    fn subscription_changes_url_string(&self) -> (r: String)
        ensures
            r@ == subscription_changes_url(self.authenticated_client.username@, self.device_id@),
    {
        let mut url = String::from_str("https://gpodder.net/api/2/subscriptions/");
        url.append(self.authenticated_client.username.as_str());
        url.append("/");
        url.append(self.device_id.as_str());
        url.append(".json");
        proof {
            assert(url@ =~= subscription_changes_url(
                self.authenticated_client.username@,
                self.device_id@,
            ));
        }
        url
    }
}

impl SubscriptionsOfDevice for DeviceClient {
    fn get_subscriptions_of_device_request(&self) -> (r: HttpRequest) {
        let url = self.device_subscriptions_url_string();
        let r = HttpRequest::get(url).with_credentials(
            self.authenticated_client.username.as_str(),
            self.authenticated_client.password.as_str(),
        );
        proof {
            assert(r@ =~= with_auth(
                get_device_subscriptions_req(
                    self.authenticated_client.username@,
                    self.device_id@,
                ),
                self.authenticated_client.username@,
                self.authenticated_client.password@,
            ));
        }
        r
    }

    fn upload_subscriptions_of_device_request(&self, subscriptions: &Vec<String>) -> (r:
        HttpRequest) {
        let url = self.device_subscriptions_url_string();
        let mut body = String::new();
        append_json_str_array(&mut body, subscriptions);
        let r = HttpRequest::put(url, body).with_credentials(
            self.authenticated_client.username.as_str(),
            self.authenticated_client.password.as_str(),
        );
        proof {
            assert(r@ =~= with_auth(
                put_device_subscriptions_req(
                    self.authenticated_client.username@,
                    self.device_id@,
                    subscriptions.deep_view(),
                ),
                self.authenticated_client.username@,
                self.authenticated_client.password@,
            ));
        }
        r
    }
}

impl SubscriptionChanges for DeviceClient {
    fn upload_subscription_changes_request(&self, add: &Vec<String>, remove: &Vec<String>) -> (r:
        HttpRequest) {
        let url = self.subscription_changes_url_string();
        let mut body = String::new();
        push_char(&mut body, '{');
        append_json_key(&mut body, "add");
        append_json_str_array(&mut body, add);
        push_char(&mut body, ',');
        append_json_key(&mut body, "remove");
        append_json_str_array(&mut body, remove);
        push_char(&mut body, '}');
        proof {
            assert(body@ =~= subscription_changes_body(add.deep_view(), remove.deep_view()));
        }
        let r = HttpRequest::post(url, body).with_credentials(
            self.authenticated_client.username.as_str(),
            self.authenticated_client.password.as_str(),
        );
        proof {
            assert(r@ =~= with_auth(
                upload_subscription_changes_req(
                    self.authenticated_client.username@,
                    self.device_id@,
                    add.deep_view(),
                    remove.deep_view(),
                ),
                self.authenticated_client.username@,
                self.authenticated_client.password@,
            ));
        }
        r
    }

    fn get_subscription_changes_request(&self, since: Option<u64>) -> (r: HttpRequest) {
        let url = self.subscription_changes_url_string();
        let mut r = HttpRequest::get(url);
        match since {
            Some(s) => {
                let mut since_string = String::new();
                append_u64(&mut since_string, s);
                r.push_query("since", since_string);
            },
            None => {},
        }
        let r = r.with_credentials(
            self.authenticated_client.username.as_str(),
            self.authenticated_client.password.as_str(),
        );
        proof {
            assert(r@.query =~= get_subscription_changes_req(
                self.authenticated_client.username@,
                self.device_id@,
                since,
            ).query);
            assert(r@ =~= with_auth(
                get_subscription_changes_req(
                    self.authenticated_client.username@,
                    self.device_id@,
                    since,
                ),
                self.authenticated_client.username@,
                self.authenticated_client.password@,
            ));
        }
        r
    }
}

/// The canonical form of `url` under a server-issued rewrite list: the
/// rewritten side of the first pair whose submitted side is exactly `url`,
/// or `url` itself when no pair matches it.
pub open spec fn canonical_of(updates: Seq<(Seq<char>, Seq<char>)>, url: Seq<char>) -> Seq<char>
    decreases updates.len(),
{
    if updates.len() == 0 {
        url
    } else if updates[0].0 == url {
        updates[0].1
    } else {
        canonical_of(updates.drop_first(), url)
    }
}

/// The views of a list of string pairs.
pub open spec fn pair_views(pairs: Seq<(String, String)>) -> Seq<(Seq<char>, Seq<char>)> {
    pairs.map_values(|p: (String, String)| (p.0@, p.1@))
}

/// Law: a URL that no pair of the rewrite list mentions is left exactly as
/// it is.
pub proof fn lemma_canonical_unmentioned(updates: Seq<(Seq<char>, Seq<char>)>, url: Seq<char>)
    requires
        forall|k: int| 0 <= k < updates.len() ==> (#[trigger] updates[k]).0 != url,
    ensures
        canonical_of(updates, url) == url,
    decreases updates.len(),
{
    if updates.len() > 0 {
        lemma_canonical_unmentioned(updates.drop_first(), url);
    }
}

/// Law: the first pair whose submitted side is exactly `url` decides the
/// canonical form.
pub proof fn lemma_canonical_first_match(
    updates: Seq<(Seq<char>, Seq<char>)>,
    url: Seq<char>,
    k: int,
)
    requires
        0 <= k < updates.len(),
        updates[k].0 == url,
        forall|j: int| 0 <= j < k ==> (#[trigger] updates[j]).0 != url,
    ensures
        canonical_of(updates, url) == updates[k].1,
    decreases k,
{
    if k > 0 {
        lemma_canonical_first_match(updates.drop_first(), url, k - 1);
    }
}

proof fn lemma_canonical_skip(updates: Seq<(Seq<char>, Seq<char>)>, url: Seq<char>, i: int)
    requires
        0 <= i <= updates.len(),
        forall|j: int| 0 <= j < i ==> (#[trigger] updates[j]).0 != url,
    ensures
        canonical_of(updates, url) == canonical_of(updates.skip(i), url),
    decreases i,
{
    if i > 0 {
        assert(updates.drop_first() =~= updates.skip(1));
        lemma_canonical_skip(updates.skip(1), url, i - 1);
        assert(updates.skip(1).skip(i - 1) =~= updates.skip(i));
    } else {
        assert(updates.skip(0) =~= updates);
    }
}

/// The canonical form of one URL under a rewrite list.
pub fn canonical_url(updates: &Vec<(String, String)>, url: &String) -> (r: String)
    ensures
        r@ == canonical_of(pair_views(updates@), url@),
{
    let n = updates.len();
    let mut i: usize = 0;
    while i < n
        invariant
            n == updates@.len(),
            i <= n,
            forall|j: int| 0 <= j < i ==> (#[trigger] pair_views(updates@)[j]).0 != url@,
        decreases n - i,
    {
        proof {
            lemma_canonical_skip(pair_views(updates@), url@, i as int);
            assert(pair_views(updates@).skip(i as int)[0] == pair_views(updates@)[i as int]);
        }
        if str_eq(updates[i].0.as_str(), url.as_str()) {
            return updates[i].1.clone();
        }
        i += 1;
    }
    proof {
        lemma_canonical_skip(pair_views(updates@), url@, n as int);
        assert(pair_views(updates@).skip(n as int) =~= Seq::empty());
    }
    url.clone()
}

/// Rewrites every URL of a local list to its canonical form under a
/// server-issued rewrite list, matching submitted URLs by exact string
/// equality only.
pub fn apply_update_urls(urls: &Vec<String>, updates: &Vec<(String, String)>) -> (r: Vec<String>)
    ensures
        r@.len() == urls@.len(),
        forall|i: int| 0 <= i < urls@.len() ==> #[trigger] r@[i]@ == canonical_of(
            pair_views(updates@),
            urls@[i]@,
        ),
{
    let n = urls.len();
    let mut out: Vec<String> = Vec::new();
    let mut i: usize = 0;
    while i < n
        invariant
            n == urls@.len(),
            i <= n,
            out@.len() == i,
            forall|k: int| 0 <= k < i ==> #[trigger] out@[k]@ == canonical_of(
                pair_views(updates@),
                urls@[k]@,
            ),
        decreases n - i,
    {
        let c = canonical_url(updates, &urls[i]);
        out.push(c);
        i += 1;
    }
    out
}

/// Whether a list of strings contains the string with the given characters.
pub fn contains_str(v: &Vec<String>, s: &String) -> (r: bool)
    ensures
        r == v.deep_view().contains(s@),
{
    let n = v.len();
    let mut i: usize = 0;
    while i < n
        invariant
            n == v@.len(),
            i <= n,
            forall|j: int| 0 <= j < i ==> v.deep_view()[j] != s@,
        decreases n - i,
    {
        if str_eq(v[i].as_str(), s.as_str()) {
            assert(v.deep_view()[i as int] == s@);
            return true;
        }
        i += 1;
    }
    assert(!v.deep_view().contains(s@));
    false
}

/// Whether a feed URL is in the subscription set that results from applying
/// the change set `{add, remove}` to the set `subs`: it is there when it was
/// present or added, and was not removed.
pub open spec fn delta_member(
    subs: Seq<Seq<char>>,
    add: Seq<Seq<char>>,
    remove: Seq<Seq<char>>,
    url: Seq<char>,
) -> bool {
    (subs.contains(url) || add.contains(url)) && !remove.contains(url)
}

/// Applies a subscription change set to a local subscription list: the
/// result holds exactly the URLs that were present or added and not removed,
/// each once.
pub fn apply_subscription_delta(subs: &Vec<String>, add: &Vec<String>, remove: &Vec<String>) -> (r:
    Vec<String>)
    ensures
        forall|url: Seq<char>| #[trigger]
            r.deep_view().contains(url) == delta_member(
                subs.deep_view(),
                add.deep_view(),
                remove.deep_view(),
                url,
            ),
        forall|i: int, j: int| 0 <= i < j < r.deep_view().len() ==> r.deep_view()[i]
            != r.deep_view()[j],
{
    let mut out: Vec<String> = Vec::new();
    let mut i: usize = 0;
    let n = subs.len();
    while i < n
        invariant
            n == subs@.len(),
            i <= n,
            forall|url: Seq<char>| #[trigger]
                out.deep_view().contains(url) == ((subs.deep_view().take(i as int).contains(url))
                    && !remove.deep_view().contains(url)),
            forall|k: int, l: int| 0 <= k < l < out.deep_view().len() ==> out.deep_view()[k]
                != out.deep_view()[l],
        decreases n - i,
    {
        let ghost prefix = subs.deep_view().take(i as int);
        let u = &subs[i];
        proof {
            assert(subs.deep_view().take(i as int + 1) =~= prefix.push(u@));
        }
        if !contains_str(remove, u) && !contains_str(&out, u) {
            let ghost before = out.deep_view();
            out.push(u.clone());
            proof {
                assert(out.deep_view() =~= before.push(u@));
                assert forall|url: Seq<char>| #[trigger]
                    out.deep_view().contains(url) == ((prefix.push(u@).contains(url))
                        && !remove.deep_view().contains(url)) by {
                    if out.deep_view().contains(url) {
                        let w = choose|w: int|
                            0 <= w < out.deep_view().len() && out.deep_view()[w] == url;
                        if w < before.len() {
                            assert(before.contains(url));
                        } else {
                            assert(url == u@);
                            assert(prefix.push(u@).last() == u@);
                            assert(prefix.push(u@).contains(u@));
                        }
                    }
                    if prefix.push(u@).contains(url) && !remove.deep_view().contains(url) {
                        let w = choose|w: int|
                            0 <= w < prefix.push(u@).len() && prefix.push(u@)[w] == url;
                        if w < prefix.len() {
                            assert(prefix.contains(url));
                            assert(before.contains(url));
                            let v = choose|v: int| 0 <= v < before.len() && before[v] == url;
                            assert(out.deep_view()[v] == url);
                        } else {
                            assert(out.deep_view().last() == u@);
                        }
                        assert(out.deep_view().contains(url));
                    }
                }
            }
        } else {
            proof {
                assert forall|url: Seq<char>| #[trigger]
                    out.deep_view().contains(url) == ((prefix.push(u@).contains(url))
                        && !remove.deep_view().contains(url)) by {
                    if prefix.push(u@).contains(url) && !remove.deep_view().contains(url) {
                        let w = choose|w: int|
                            0 <= w < prefix.push(u@).len() && prefix.push(u@)[w] == url;
                        if w < prefix.len() {
                            assert(prefix.contains(url));
                        } else {
                            assert(url == u@);
                            assert(!remove.deep_view().contains(u@));
                            assert(out.deep_view().contains(u@));
                        }
                    }
                    if out.deep_view().contains(url) {
                        assert(prefix.contains(url));
                        let w = choose|w: int| 0 <= w < prefix.len() && prefix[w] == url;
                        assert(prefix.push(u@)[w] == url);
                        assert(prefix.push(u@).contains(url));
                    }
                }
            }
        }
        i += 1;
    }
    proof {
        assert(subs.deep_view().take(n as int) =~= subs.deep_view());
    }
    let m = add.len();
    let mut i2: usize = 0;
    while i2 < m
        invariant
            m == add@.len(),
            i2 <= m,
            forall|url: Seq<char>| #[trigger]
                out.deep_view().contains(url) == ((subs.deep_view().contains(url)
                    || add.deep_view().take(i2 as int).contains(url))
                    && !remove.deep_view().contains(url)),
            forall|k: int, l: int| 0 <= k < l < out.deep_view().len() ==> out.deep_view()[k]
                != out.deep_view()[l],
        decreases m - i2,
    {
        let ghost prefix = add.deep_view().take(i2 as int);
        let u = &add[i2];
        proof {
            assert(add.deep_view().take(i2 as int + 1) =~= prefix.push(u@));
        }
        if !contains_str(remove, u) && !contains_str(&out, u) {
            let ghost before = out.deep_view();
            out.push(u.clone());
            proof {
                assert(out.deep_view() =~= before.push(u@));
                assert forall|url: Seq<char>| #[trigger]
                    out.deep_view().contains(url) == ((subs.deep_view().contains(url)
                        || prefix.push(u@).contains(url)) && !remove.deep_view().contains(
                        url,
                    )) by {
                    if out.deep_view().contains(url) {
                        let w = choose|w: int|
                            0 <= w < out.deep_view().len() && out.deep_view()[w] == url;
                        if w < before.len() {
                            assert(before.contains(url));
                        } else {
                            assert(url == u@);
                            assert(prefix.push(u@).last() == u@);
                            assert(prefix.push(u@).contains(u@));
                        }
                    }
                    if (subs.deep_view().contains(url) || prefix.push(u@).contains(url))
                        && !remove.deep_view().contains(url) {
                        if url == u@ {
                            assert(out.deep_view().last() == u@);
                            assert(out.deep_view().contains(url));
                        } else {
                            if prefix.push(u@).contains(url) {
                                let w = choose|w: int|
                                    0 <= w < prefix.push(u@).len() && prefix.push(u@)[w] == url;
                                assert(prefix[w] == url);
                                assert(prefix.contains(url));
                            }
                            assert(before.contains(url));
                            let v = choose|v: int| 0 <= v < before.len() && before[v] == url;
                            assert(out.deep_view()[v] == url);
                            assert(out.deep_view().contains(url));
                        }
                    }
                }
            }
        } else {
            proof {
                assert forall|url: Seq<char>| #[trigger]
                    out.deep_view().contains(url) == ((subs.deep_view().contains(url)
                        || prefix.push(u@).contains(url)) && !remove.deep_view().contains(
                        url,
                    )) by {
                    if (subs.deep_view().contains(url) || prefix.push(u@).contains(url))
                        && !remove.deep_view().contains(url) {
                        if url == u@ {
                            assert(!remove.deep_view().contains(u@));
                            assert(out.deep_view().contains(u@));
                        } else {
                            if prefix.push(u@).contains(url) {
                                let w = choose|w: int|
                                    0 <= w < prefix.push(u@).len() && prefix.push(u@)[w] == url;
                                assert(prefix[w] == url);
                                assert(prefix.contains(url));
                            }
                        }
                    }
                    if out.deep_view().contains(url) && url != u@ {
                        if !subs.deep_view().contains(url) {
                            assert(prefix.contains(url));
                            let w = choose|w: int| 0 <= w < prefix.len() && prefix[w] == url;
                            assert(prefix.push(u@)[w] == url);
                            assert(prefix.push(u@).contains(url));
                        }
                    }
                }
            }
        }
        i2 += 1;
    }
    proof {
        assert(add.deep_view().take(m as int) =~= add.deep_view());
    }
    out
}

/// Law: uploading `{add: [x], remove: []}` and then `{add: [], remove: [x]}`
/// leaves the subscription set exactly as it was before both calls, provided
/// `x` was not present at the start. `mid` is any set with the membership
/// the first upload produces.
pub proof fn lemma_subscription_delta_idempotence(
    subs: Seq<Seq<char>>,
    mid: Seq<Seq<char>>,
    x: Seq<char>,
)
    requires
        !subs.contains(x),
        forall|u: Seq<char>| #[trigger]
            mid.contains(u) == delta_member(subs, seq![x], Seq::empty(), u),
    ensures
        forall|u: Seq<char>| #[trigger]
            delta_member(mid, Seq::empty(), seq![x], u) == subs.contains(u),
{
    assert forall|u: Seq<char>| #[trigger]
        delta_member(mid, Seq::empty(), seq![x], u) == subs.contains(u) by {
        assert(seq![x].contains(u) <==> u == x) by {
            if seq![x].contains(u) {
                let w = choose|w: int| 0 <= w < 1 && seq![x][w] == u;
                assert(seq![x][0] == x);
            } else {
                assert(seq![x][0] == x);
            }
        }
        assert(!Seq::<Seq<char>>::empty().contains(u));
        assert(mid.contains(u) == delta_member(subs, seq![x], Seq::empty(), u));
    }
}

} // verus!

