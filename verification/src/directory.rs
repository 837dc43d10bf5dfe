//! The podcast directory: tags, episode records, search, toplist and
//! per-podcast lookups. All directory reads are available without
//! credentials; the authenticated clients issue the identical requests with
//! credentials attached.

use vstd::prelude::*;

verus! {

use core::cmp::Ordering;
use crate::client::AuthenticatedClient;
use crate::client::DeviceClient;
use crate::client::ClientIdentity;
use crate::client::PublicClient;
use crate::datetime::DateTime;
use crate::datetime::iso_parse;
use crate::http::HttpMethod;
use crate::http::HttpRequest;
use crate::http::ReqView;
use crate::http::signed;
use crate::http::with_auth;
use crate::json::JsonDecode;
use crate::json::JsonValue;
use crate::json::get_opt_str;
use crate::json::obj_get;
use crate::json::obj_lookup;
use crate::json::opt_str_field;
use crate::strutil::append_u64;
use crate::strutil::cmp_str;
use crate::strutil::dec_str;
use crate::strutil::lemma_cmp_str_equal_iff_eq;
use crate::strutil::lex_cmp_bytes;
use crate::strutil::push_char;
use crate::urlenc::urlencode;
use crate::urlenc::urlencoded;
use vstd::std_specs::cmp::PartialEqSpec;
use vstd::std_specs::cmp::PartialOrdSpec;
use vstd::string::StringExecFns;
use vstd::utf8::encode_utf8;

/// A podcast tag. Identity, equality and ordering are defined solely by
/// `tag`, the unique identifier.
#[derive(Debug, Clone)]
pub struct Tag {
    /// More reader-friendly representation of the tag.
    pub title: String,
    /// The actual tag: the unique identifier.
    pub tag: String,
    /// Number of podcasts using this tag.
    pub usage: u16,
}

impl PartialEq for Tag {
    fn eq(&self, other: &Self) -> (r: bool) {
        self.tag == other.tag
    }
}

impl vstd::std_specs::cmp::PartialEqSpecImpl for Tag {
    open spec fn obeys_eq_spec() -> bool {
        true
    }

    open spec fn eq_spec(&self, other: &Tag) -> bool {
        self.tag@ == other.tag@
    }
}

impl PartialOrd for Tag {
    fn partial_cmp(&self, other: &Self) -> (r: Option<Ordering>) {
        Some(cmp_str(self.tag.as_str(), other.tag.as_str()))
    }
}

impl vstd::std_specs::cmp::PartialOrdSpecImpl for Tag {
    open spec fn obeys_partial_cmp_spec() -> bool {
        true
    }

    open spec fn partial_cmp_spec(&self, other: &Tag) -> Option<Ordering> {
        Some(lex_cmp_bytes(encode_utf8(self.tag@), encode_utf8(other.tag@)))
    }
}

/// Relies on std's `String::hash`: a tag record hashes as its identifier
/// alone, so that records that are equal hash alike.
impl core::hash::Hash for Tag {
    #[verifier::external_body]
    fn hash<H: core::hash::Hasher>(&self, state: &mut H) {
        self.tag.hash(state);
    }
}

/// Law: tag identity is the identifier alone.
pub proof fn lemma_tag_equality_by_tag(t1: Tag, t2: Tag)
    ensures
        t1.eq_spec(&t2) <==> t1.tag@ == t2.tag@,
        t1.partial_cmp_spec(&t2) == Some(Ordering::Equal) <==> t1.tag@ == t2.tag@,
{
    lemma_cmp_str_equal_iff_eq(t1.tag@, t2.tag@);
}

/// The reader-friendly one-line form of a tag: `tag: Title`.
pub open spec fn tag_display(t: Tag) -> Seq<char> {
    t.tag@ + seq![':', ' '] + t.title@
}

impl Tag {
    /// Formats this tag as `tag: Title`.
    pub fn display_string(&self) -> (r: String)
        ensures
            r@ == tag_display(*self),
    {
        let mut out = String::new();
        out.append(self.tag.as_str());
        push_char(&mut out, ':');
        push_char(&mut out, ' ');
        out.append(self.title.as_str());
        assert(out@ =~= tag_display(*self));
        out
    }
}

impl JsonDecode for Tag {
    open spec fn decode_spec(j: JsonValue) -> Option<Tag> {
        match j {
            JsonValue::Obj(fields) => {
                match (
                    obj_lookup(fields@, "title"@),
                    obj_lookup(fields@, "tag"@),
                    obj_lookup(fields@, "usage"@),
                ) {
                    (
                        Some(JsonValue::Str(title)),
                        Some(JsonValue::Str(tag)),
                        Some(JsonValue::UInt(usage)),
                    ) => {
                        if usage <= 65535 {
                            Some(Tag { title, tag, usage: usage as u16 })
                        } else {
                            None
                        }
                    },
                    _ => None,
                }
            },
            _ => None,
        }
    }

    fn decode_json(j: &JsonValue) -> (r: Option<Tag>) {
        let fields = match j {
            JsonValue::Obj(fields) => fields,
            _ => { return None; },
        };
        let title = match obj_get(fields, "title") {
            Some(JsonValue::Str(s)) => s.clone(),
            _ => { return None; },
        };
        let tag = match obj_get(fields, "tag") {
            Some(JsonValue::Str(s)) => s.clone(),
            _ => { return None; },
        };
        let usage = match obj_get(fields, "usage") {
            Some(JsonValue::UInt(n)) => {
                if *n <= 65535 {
                    *n as u16
                } else {
                    return None;
                }
            },
            _ => { return None; },
        };
        Some(Tag { title, tag, usage })
    }
}

/// A podcast episode of the directory. Identity, equality and ordering are
/// defined solely by the media `url`.
#[derive(Debug, Clone)]
pub struct Episode {
    /// Title of the episode.
    pub title: String,
    /// Media URL: the primary key of the record.
    pub url: String,
    /// Title of the podcast.
    pub podcast_title: String,
    /// Feed URL of the podcast.
    pub podcast_url: String,
    /// Description of the episode.
    pub description: String,
    /// Website of the episode.
    pub website: Option<String>,
    /// Service-internal link.
    pub mygpo_link: String,
    /// Release date.
    pub released: DateTime,
}

impl PartialEq for Episode {
    fn eq(&self, other: &Self) -> (r: bool) {
        self.url == other.url
    }
}

impl vstd::std_specs::cmp::PartialEqSpecImpl for Episode {
    open spec fn obeys_eq_spec() -> bool {
        true
    }

    open spec fn eq_spec(&self, other: &Episode) -> bool {
        self.url@ == other.url@
    }
}

impl PartialOrd for Episode {
    fn partial_cmp(&self, other: &Self) -> (r: Option<Ordering>) {
        Some(cmp_str(self.url.as_str(), other.url.as_str()))
    }
}

impl vstd::std_specs::cmp::PartialOrdSpecImpl for Episode {
    open spec fn obeys_partial_cmp_spec() -> bool {
        true
    }

    open spec fn partial_cmp_spec(&self, other: &Episode) -> Option<Ordering> {
        Some(lex_cmp_bytes(encode_utf8(self.url@), encode_utf8(other.url@)))
    }
}

/// Relies on std's `String::hash`: an episode record hashes as its media URL
/// alone, so that records that are equal hash alike.
impl core::hash::Hash for Episode {
    #[verifier::external_body]
    fn hash<H: core::hash::Hasher>(&self, state: &mut H) {
        self.url.hash(state);
    }
}

/// Law: episode identity is the media URL alone.
pub proof fn lemma_episode_equality_by_url(e1: Episode, e2: Episode)
    ensures
        e1.eq_spec(&e2) <==> e1.url@ == e2.url@,
        e1.partial_cmp_spec(&e2) == Some(Ordering::Equal) <==> e1.url@ == e2.url@,
{
    lemma_cmp_str_equal_iff_eq(e1.url@, e2.url@);
}

/// The reader-friendly one-line form of an episode: `Title: url`.
pub open spec fn episode_display(e: Episode) -> Seq<char> {
    e.title@ + seq![':', ' '] + e.url@
}

impl Episode {
    /// Formats this episode as `Title: url`.
    pub fn display_string(&self) -> (r: String)
        ensures
            r@ == episode_display(*self),
    {
        let mut out = String::new();
        out.append(self.title.as_str());
        push_char(&mut out, ':');
        push_char(&mut out, ' ');
        out.append(self.url.as_str());
        assert(out@ =~= episode_display(*self));
        out
    }
}

impl JsonDecode for Episode {
    open spec fn decode_spec(j: JsonValue) -> Option<Episode> {
        match j {
            JsonValue::Obj(fields) => {
                match (
                    obj_lookup(fields@, "title"@),
                    obj_lookup(fields@, "url"@),
                    obj_lookup(fields@, "podcast_title"@),
                    obj_lookup(fields@, "podcast_url"@),
                    obj_lookup(fields@, "description"@),
                    obj_lookup(fields@, "mygpo_link"@),
                    obj_lookup(fields@, "released"@),
                ) {
                    (
                        Some(JsonValue::Str(title)),
                        Some(JsonValue::Str(url)),
                        Some(JsonValue::Str(podcast_title)),
                        Some(JsonValue::Str(podcast_url)),
                        Some(JsonValue::Str(description)),
                        Some(JsonValue::Str(mygpo_link)),
                        Some(JsonValue::Str(released_str)),
                    ) => {
                        match (opt_str_field(fields@, "website"@), iso_parse(released_str@)) {
                            (Some(website), Some(released)) => Some(
                                Episode {
                                    title,
                                    url,
                                    podcast_title,
                                    podcast_url,
                                    description,
                                    website,
                                    mygpo_link,
                                    released,
                                },
                            ),
                            _ => None,
                        }
                    },
                    _ => None,
                }
            },
            _ => None,
        }
    }

    fn decode_json(j: &JsonValue) -> (r: Option<Episode>) {
        let fields = match j {
            JsonValue::Obj(fields) => fields,
            _ => { return None; },
        };
        let title = match obj_get(fields, "title") {
            Some(JsonValue::Str(s)) => s.clone(),
            _ => { return None; },
        };
        let url = match obj_get(fields, "url") {
            Some(JsonValue::Str(s)) => s.clone(),
            _ => { return None; },
        };
        let podcast_title = match obj_get(fields, "podcast_title") {
            Some(JsonValue::Str(s)) => s.clone(),
            _ => { return None; },
        };
        let podcast_url = match obj_get(fields, "podcast_url") {
            Some(JsonValue::Str(s)) => s.clone(),
            _ => { return None; },
        };
        let description = match obj_get(fields, "description") {
            Some(JsonValue::Str(s)) => s.clone(),
            _ => { return None; },
        };
        let mygpo_link = match obj_get(fields, "mygpo_link") {
            Some(JsonValue::Str(s)) => s.clone(),
            _ => { return None; },
        };
        let released = match obj_get(fields, "released") {
            Some(JsonValue::Str(s)) => match crate::datetime::parse_iso(s.as_str()) {
                Some(dt) => dt,
                None => { return None; },
            },
            _ => { return None; },
        };
        let website = match get_opt_str(fields, "website") {
            Some(v) => v,
            None => { return None; },
        };
        Some(
            Episode {
                title,
                url,
                podcast_title,
                podcast_url,
                description,
                website,
                mygpo_link,
                released,
            },
        )
    }
}

/// The request that retrieves the `count` most used tags.
pub open spec fn top_tags_req(count: u8) -> ReqView {
    ReqView {
        method: HttpMethod::Get,
        url: "https://gpodder.net/api/2/tags/"@ + dec_str(count as nat) + ".json"@,
        query: Seq::empty(),
        body: None,
        auth: None,
    }
}

/// The request that retrieves up to `count` podcasts for a tag; the tag is
/// percent-encoded into the URL path.
pub open spec fn podcasts_for_tag_req(tag: Seq<char>, count: u8) -> ReqView {
    ReqView {
        method: HttpMethod::Get,
        url: "https://gpodder.net/api/2/tag/"@ + urlencoded(encode_utf8(tag)) + "/"@ + dec_str(
            count as nat,
        ) + ".json"@,
        query: Seq::empty(),
        body: None,
        auth: None,
    }
}

/// The request that looks one podcast up by feed URL; an unknown URL is an
/// error on the service side, not an empty result.
pub open spec fn podcast_data_req(url: Seq<char>) -> ReqView {
    ReqView {
        method: HttpMethod::Get,
        url: "https://gpodder.net/api/2/data/podcast.json"@,
        query: seq![("url"@, url)],
        body: None,
        auth: None,
    }
}

/// The request that looks one episode up by media URL and podcast feed URL.
pub open spec fn episode_data_req(url: Seq<char>, podcast: Seq<char>) -> ReqView {
    ReqView {
        method: HttpMethod::Get,
        url: "https://gpodder.net/api/2/data/episode.json"@,
        query: seq![("url"@, url), ("podcast"@, podcast)],
        body: None,
        auth: None,
    }
}

/// The request that retrieves the toplist of `number` podcasts, with an
/// optional scaled-logo size (a positive number up to 256; the service
/// defaults to 64).
pub open spec fn podcast_toplist_req(number: u8, scale_logo: Option<u16>) -> ReqView {
    ReqView {
        method: HttpMethod::Get,
        url: "https://gpodder.net/toplist/"@ + dec_str(number as nat) + ".json"@,
        query: match scale_logo {
            Some(size) => seq![("scale_logo"@, dec_str(size as nat))],
            None => Seq::empty(),
        },
        body: None,
        auth: None,
    }
}

/// The request that searches the directory for podcasts matching `q`, with
/// an optional scaled-logo size.
pub open spec fn podcast_search_req(q: Seq<char>, scale_logo: Option<u16>) -> ReqView {
    ReqView {
        method: HttpMethod::Get,
        url: "https://gpodder.net/search.json"@,
        query: seq![("q"@, q)] + (match scale_logo {
            Some(size) => seq![("scale_logo"@, dec_str(size as nat))],
            None => Seq::empty(),
        }),
        body: None,
        auth: None,
    }
}

/// see [`RetrieveTopTags::retrieve_top_tags_request`]
pub trait RetrieveTopTags: ClientIdentity {
    /// The request that retrieves the `count` most used tags.
    fn retrieve_top_tags_request(&self, count: u8) -> (r: HttpRequest)
        ensures
            r@ == signed(top_tags_req(count), self.opt_credentials()),
    ;
}

/// see [`RetrievePodcastsForTag::retrieve_podcasts_for_tag_request`]
pub trait RetrievePodcastsForTag: ClientIdentity {
    /// The request that retrieves up to `count` podcasts for a tag; the tag
    /// is percent-encoded into the URL path.
    fn retrieve_podcasts_for_tag_request(&self, tag: &str, count: u8) -> (r: HttpRequest)
        ensures
            r@ == signed(podcasts_for_tag_req(tag@, count), self.opt_credentials()),
    ;
}

/// see [`RetrievePodcastData::retrieve_podcast_data_request`]
pub trait RetrievePodcastData: ClientIdentity {
    /// The request that looks one podcast up by feed URL; an unknown URL is
    /// an error on the service side, not an empty result.
    fn retrieve_podcast_data_request(&self, url: String) -> (r: HttpRequest)
        ensures
            r@ == signed(podcast_data_req(url@), self.opt_credentials()),
    ;
}

/// see [`RetrieveEpisodeData::retrieve_episode_data_request`]
pub trait RetrieveEpisodeData: ClientIdentity {
    /// The request that looks one episode up by media URL and podcast feed
    /// URL.
    fn retrieve_episode_data_request(&self, url: String, podcast: String) -> (r: HttpRequest)
        ensures
            r@ == signed(episode_data_req(url@, podcast@), self.opt_credentials()),
    ;
}

/// see [`PodcastToplist::podcast_toplist_request`]
pub trait PodcastToplist: ClientIdentity {
    /// The request that retrieves the toplist of `number` podcasts, with an
    /// optional scaled-logo size.
    fn podcast_toplist_request(&self, number: u8, scale_logo: Option<u16>) -> (r: HttpRequest)
        ensures
            r@ == signed(podcast_toplist_req(number, scale_logo), self.opt_credentials()),
    ;
}

/// see [`PodcastSearch::podcast_search_request`]
pub trait PodcastSearch: ClientIdentity {
    /// The request that searches the directory for podcasts matching `q`.
    fn podcast_search_request(&self, q: String, scale_logo: Option<u16>) -> (r: HttpRequest)
        ensures
            r@ == signed(podcast_search_req(q@, scale_logo), self.opt_credentials()),
    ;
}

impl RetrieveTopTags for PublicClient {
    fn retrieve_top_tags_request(&self, count: u8) -> (r: HttpRequest) {
        let mut url = String::from_str("https://gpodder.net/api/2/tags/");
        append_u64(&mut url, count as u64);
        url.append(".json");
        let r = HttpRequest::get(url);
        proof {
            assert(r@ =~= top_tags_req(count));
        }
        r
    }
}

impl RetrieveTopTags for AuthenticatedClient {
    /// The anonymous request with credentials attached.
    fn retrieve_top_tags_request(&self, count: u8) -> (r: HttpRequest) {
        let r = self.public_client.retrieve_top_tags_request(count).with_credentials(
            self.username.as_str(),
            self.password.as_str(),
        );
        proof {
            assert(r@ =~= with_auth(top_tags_req(count), self.username@, self.password@));
        }
        r
    }
}

impl RetrieveTopTags for DeviceClient {
    /// The same request the wrapped authenticated client builds.
    fn retrieve_top_tags_request(&self, count: u8) -> (r: HttpRequest) {
        self.authenticated_client.retrieve_top_tags_request(count)
    }
}

impl RetrievePodcastsForTag for PublicClient {
    fn retrieve_podcasts_for_tag_request(&self, tag: &str, count: u8) -> (r: HttpRequest) {
        let mut url = String::from_str("https://gpodder.net/api/2/tag/");
        let encoded = urlencode(tag);
        url.append(encoded.as_str());
        url.append("/");
        append_u64(&mut url, count as u64);
        url.append(".json");
        let r = HttpRequest::get(url);
        proof {
            assert(r@ =~= podcasts_for_tag_req(tag@, count));
        }
        r
    }
}

impl RetrievePodcastsForTag for AuthenticatedClient {
    /// The anonymous request with credentials attached.
    fn retrieve_podcasts_for_tag_request(&self, tag: &str, count: u8) -> (r: HttpRequest) {
        let r = self.public_client.retrieve_podcasts_for_tag_request(tag, count).with_credentials(
            self.username.as_str(),
            self.password.as_str(),
        );
        proof {
            assert(r@ =~= with_auth(
                podcasts_for_tag_req(tag@, count),
                self.username@,
                self.password@,
            ));
        }
        r
    }
}

impl RetrievePodcastsForTag for DeviceClient {
    /// The same request the wrapped authenticated client builds.
    fn retrieve_podcasts_for_tag_request(&self, tag: &str, count: u8) -> (r: HttpRequest) {
        self.authenticated_client.retrieve_podcasts_for_tag_request(tag, count)
    }
}

impl RetrievePodcastData for PublicClient {
    fn retrieve_podcast_data_request(&self, url: String) -> (r: HttpRequest) {
        let ghost url_view = url@;
        let mut r = HttpRequest::get(String::from_str("https://gpodder.net/api/2/data/podcast.json"));
        r.push_query("url", url);
        proof {
            assert(r@.query =~= podcast_data_req(url_view).query);
            assert(r@ =~= podcast_data_req(url_view));
        }
        r
    }
}

impl RetrievePodcastData for AuthenticatedClient {
    /// The anonymous request with credentials attached.
    fn retrieve_podcast_data_request(&self, url: String) -> (r: HttpRequest) {
        let ghost url_view = url@;
        let r = self.public_client.retrieve_podcast_data_request(url).with_credentials(
            self.username.as_str(),
            self.password.as_str(),
        );
        proof {
            assert(r@ =~= with_auth(podcast_data_req(url_view), self.username@, self.password@));
        }
        r
    }
}

impl RetrievePodcastData for DeviceClient {
    /// The same request the wrapped authenticated client builds.
    fn retrieve_podcast_data_request(&self, url: String) -> (r: HttpRequest) {
        self.authenticated_client.retrieve_podcast_data_request(url)
    }
}

impl RetrieveEpisodeData for PublicClient {
    fn retrieve_episode_data_request(&self, url: String, podcast: String) -> (r: HttpRequest) {
        let ghost url_view = url@;
        let ghost podcast_view = podcast@;
        let mut r = HttpRequest::get(String::from_str("https://gpodder.net/api/2/data/episode.json"));
        r.push_query("url", url);
        r.push_query("podcast", podcast);
        proof {
            assert(r@ =~= episode_data_req(url_view, podcast_view));
        }
        r
    }
}

impl RetrieveEpisodeData for AuthenticatedClient {
    /// The anonymous request with credentials attached.
    fn retrieve_episode_data_request(&self, url: String, podcast: String) -> (r: HttpRequest) {
        let ghost url_view = url@;
        let ghost podcast_view = podcast@;
        let r = self.public_client.retrieve_episode_data_request(url, podcast).with_credentials(
            self.username.as_str(),
            self.password.as_str(),
        );
        proof {
            assert(r@ =~= with_auth(
                episode_data_req(url_view, podcast_view),
                self.username@,
                self.password@,
            ));
        }
        r
    }
}

impl RetrieveEpisodeData for DeviceClient {
    /// The same request the wrapped authenticated client builds.
    fn retrieve_episode_data_request(&self, url: String, podcast: String) -> (r: HttpRequest) {
        self.authenticated_client.retrieve_episode_data_request(url, podcast)
    }
}

impl PodcastToplist for PublicClient {
    fn podcast_toplist_request(&self, number: u8, scale_logo: Option<u16>) -> (r: HttpRequest) {
        let mut url = String::from_str("https://gpodder.net/toplist/");
        append_u64(&mut url, number as u64);
        url.append(".json");
        let mut r = HttpRequest::get(url);
        match scale_logo {
            Some(size) => {
                let mut size_string = String::new();
                append_u64(&mut size_string, size as u64);
                r.push_query("scale_logo", size_string);
            },
            None => {},
        }
        proof {
            assert(r@.query =~= podcast_toplist_req(number, scale_logo).query);
            assert(r@ =~= podcast_toplist_req(number, scale_logo));
        }
        r
    }
}

impl PodcastToplist for AuthenticatedClient {
    /// The anonymous request with credentials attached.
    fn podcast_toplist_request(&self, number: u8, scale_logo: Option<u16>) -> (r: HttpRequest) {
        let r = self.public_client.podcast_toplist_request(number, scale_logo).with_credentials(
            self.username.as_str(),
            self.password.as_str(),
        );
        proof {
            assert(r@ =~= with_auth(
                podcast_toplist_req(number, scale_logo),
                self.username@,
                self.password@,
            ));
        }
        r
    }
}

impl PodcastToplist for DeviceClient {
    /// The same request the wrapped authenticated client builds.
    fn podcast_toplist_request(&self, number: u8, scale_logo: Option<u16>) -> (r: HttpRequest) {
        self.authenticated_client.podcast_toplist_request(number, scale_logo)
    }
}

impl PodcastSearch for PublicClient {
    fn podcast_search_request(&self, q: String, scale_logo: Option<u16>) -> (r: HttpRequest) {
        let ghost q_view = q@;
        let mut r = HttpRequest::get(String::from_str("https://gpodder.net/search.json"));
        r.push_query("q", q);
        match scale_logo {
            Some(size) => {
                let mut size_string = String::new();
                append_u64(&mut size_string, size as u64);
                r.push_query("scale_logo", size_string);
            },
            None => {},
        }
        proof {
            assert(r@.query =~= podcast_search_req(q_view, scale_logo).query);
            assert(r@ =~= podcast_search_req(q_view, scale_logo));
        }
        r
    }
}

impl PodcastSearch for AuthenticatedClient {
    /// The anonymous request with credentials attached.
    fn podcast_search_request(&self, q: String, scale_logo: Option<u16>) -> (r: HttpRequest) {
        let ghost q_view = q@;
        let r = self.public_client.podcast_search_request(q, scale_logo).with_credentials(
            self.username.as_str(),
            self.password.as_str(),
        );
        proof {
            assert(r@ =~= with_auth(
                podcast_search_req(q_view, scale_logo),
                self.username@,
                self.password@,
            ));
        }
        r
    }
}

impl PodcastSearch for DeviceClient {
    /// The same request the wrapped authenticated client builds.
    fn podcast_search_request(&self, q: String, scale_logo: Option<u16>) -> (r: HttpRequest) {
        self.authenticated_client.podcast_search_request(q, scale_logo)
    }
}

} // verus!
