//! Podcast suggestions: records the service recommends to the user based on
//! the server-side subscription lists, and the request that retrieves them.

use vstd::prelude::*;

verus! {

use core::cmp::Ordering;
use crate::client::AuthenticatedClient;
use crate::client::DeviceClient;
use crate::client::UserIdentity;
use crate::http::HttpMethod;
use crate::http::HttpRequest;
use crate::http::ReqView;
use crate::http::with_auth;
use crate::json::JsonDecode;
use crate::json::JsonValue;
use crate::json::get_opt_str;
use crate::json::obj_get;
use crate::json::obj_lookup;
use crate::json::opt_str_field;
use crate::strutil::append_u64;
use crate::strutil::cmp_str;
use crate::strutil::dec_str;
use crate::strutil::lemma_cmp_str_equal_iff_eq;
use crate::strutil::lex_cmp_bytes;
use crate::strutil::push_char;
use vstd::std_specs::cmp::PartialEqSpec;
use vstd::std_specs::cmp::PartialOrdSpec;
use vstd::string::StringExecFns;
use vstd::utf8::encode_utf8;

/// A podcast suggestion. Identity, equality and ordering are defined solely
/// by the feed `url`.
#[derive(Debug, Clone)]
pub struct Suggestion {
    /// Website of the podcast.
    pub website: String,
    /// Service-internal feed link.
    pub mygpo_link: String,
    /// Description of the podcast.
    pub description: String,
    /// Number of subscribers on the service.
    pub subscribers: u16,
    /// Title of the podcast.
    pub title: String,
    /// Feed URL: the primary key of the record.
    pub url: String,
    /// Number of subscribers on the service one week before.
    pub subscribers_last_week: u16,
    /// URL to the logo of the podcast.
    pub logo_url: Option<String>,
}

impl PartialEq for Suggestion {
    fn eq(&self, other: &Self) -> (r: bool) {
        self.url == other.url
    }
}

impl vstd::std_specs::cmp::PartialEqSpecImpl for Suggestion {
    open spec fn obeys_eq_spec() -> bool {
        true
    }

    open spec fn eq_spec(&self, other: &Suggestion) -> bool {
        self.url@ == other.url@
    }
}

impl PartialOrd for Suggestion {
    fn partial_cmp(&self, other: &Self) -> (r: Option<Ordering>) {
        Some(cmp_str(self.url.as_str(), other.url.as_str()))
    }
}

impl vstd::std_specs::cmp::PartialOrdSpecImpl for Suggestion {
    open spec fn obeys_partial_cmp_spec() -> bool {
        true
    }

    open spec fn partial_cmp_spec(&self, other: &Suggestion) -> Option<Ordering> {
        Some(lex_cmp_bytes(encode_utf8(self.url@), encode_utf8(other.url@)))
    }
}

/// Relies on std's `String::hash`: a suggestion hashes as its feed URL
/// alone, so that records that are equal hash alike.
impl core::hash::Hash for Suggestion {
    #[verifier::external_body]
    fn hash<H: core::hash::Hasher>(&self, state: &mut H) {
        self.url.hash(state);
    }
}

/// Law: suggestion identity is the feed URL alone.
pub proof fn lemma_suggestion_equality_by_url(s1: Suggestion, s2: Suggestion)
    ensures
        s1.eq_spec(&s2) <==> s1.url@ == s2.url@,
        s1.partial_cmp_spec(&s2) == Some(Ordering::Equal) <==> s1.url@ == s2.url@,
{
    lemma_cmp_str_equal_iff_eq(s1.url@, s2.url@);
}

/// The reader-friendly one-line form of a suggestion:
/// `Title: Description <url>`.
pub open spec fn suggestion_display(s: Suggestion) -> Seq<char> {
    s.title@ + seq![':', ' '] + s.description@ + seq![' ', '<'] + s.url@ + seq!['>']
}

impl Suggestion {
    /// Formats this suggestion as `Title: Description <url>`.
    pub fn display_string(&self) -> (r: String)
        ensures
            r@ == suggestion_display(*self),
    {
        let mut out = String::new();
        out.append(self.title.as_str());
        push_char(&mut out, ':');
        push_char(&mut out, ' ');
        out.append(self.description.as_str());
        push_char(&mut out, ' ');
        push_char(&mut out, '<');
        out.append(self.url.as_str());
        push_char(&mut out, '>');
        assert(out@ =~= suggestion_display(*self));
        out
    }
}

impl JsonDecode for Suggestion {
    open spec fn decode_spec(j: JsonValue) -> Option<Suggestion> {
        match j {
            JsonValue::Obj(fields) => {
                match (
                    obj_lookup(fields@, "website"@),
                    obj_lookup(fields@, "mygpo_link"@),
                    obj_lookup(fields@, "description"@),
                    obj_lookup(fields@, "subscribers"@),
                    obj_lookup(fields@, "title"@),
                    obj_lookup(fields@, "url"@),
                    obj_lookup(fields@, "subscribers_last_week"@),
                ) {
                    (
                        Some(JsonValue::Str(website)),
                        Some(JsonValue::Str(mygpo_link)),
                        Some(JsonValue::Str(description)),
                        Some(JsonValue::UInt(subscribers)),
                        Some(JsonValue::Str(title)),
                        Some(JsonValue::Str(url)),
                        Some(JsonValue::UInt(subscribers_last_week)),
                    ) => {
                        match opt_str_field(fields@, "logo_url"@) {
                            Some(logo_url) => {
                                if subscribers <= 65535 && subscribers_last_week <= 65535 {
                                    Some(
                                        Suggestion {
                                            website,
                                            mygpo_link,
                                            description,
                                            subscribers: subscribers as u16,
                                            title,
                                            url,
                                            subscribers_last_week: subscribers_last_week as u16,
                                            logo_url,
                                        },
                                    )
                                } else {
                                    None
                                }
                            },
                            None => None,
                        }
                    },
                    _ => None,
                }
            },
            _ => None,
        }
    }

    fn decode_json(j: &JsonValue) -> (r: Option<Suggestion>) {
        let fields = match j {
            JsonValue::Obj(fields) => fields,
            _ => { return None; },
        };
        let website = match obj_get(fields, "website") {
            Some(JsonValue::Str(s)) => s.clone(),
            _ => { return None; },
        };
        let mygpo_link = match obj_get(fields, "mygpo_link") {
            Some(JsonValue::Str(s)) => s.clone(),
            _ => { return None; },
        };
        let description = match obj_get(fields, "description") {
            Some(JsonValue::Str(s)) => s.clone(),
            _ => { return None; },
        };
        let subscribers = match obj_get(fields, "subscribers") {
            Some(JsonValue::UInt(n)) => {
                if *n <= 65535 {
                    *n as u16
                } else {
                    return None;
                }
            },
            _ => { return None; },
        };
        let title = match obj_get(fields, "title") {
            Some(JsonValue::Str(s)) => s.clone(),
            _ => { return None; },
        };
        let url = match obj_get(fields, "url") {
            Some(JsonValue::Str(s)) => s.clone(),
            _ => { return None; },
        };
        let subscribers_last_week = match obj_get(fields, "subscribers_last_week") {
            Some(JsonValue::UInt(n)) => {
                if *n <= 65535 {
                    *n as u16
                } else {
                    return None;
                }
            },
            _ => { return None; },
        };
        let logo_url = match get_opt_str(fields, "logo_url") {
            Some(v) => v,
            None => { return None; },
        };
        Some(
            Suggestion {
                website,
                mygpo_link,
                description,
                subscribers,
                title,
                url,
                subscribers_last_week,
                logo_url,
            },
        )
    }
}

/// The request that downloads up to `max_results` suggested podcasts,
/// before credentials.
pub open spec fn suggestions_req(max_results: u8) -> ReqView {
    ReqView {
        method: HttpMethod::Get,
        url: "https://gpodder.net/suggestions/"@ + dec_str(max_results as nat) + ".json"@,
        query: Seq::empty(),
        body: None,
        auth: None,
    }
}

/// see [`Suggestions::retrieve_suggested_podcasts_request`]
pub trait Suggestions: UserIdentity {
    /// The request that downloads up to `max_results` podcasts the user has
    /// not yet subscribed to and might find interesting.
    fn retrieve_suggested_podcasts_request(&self, max_results: u8) -> (r: HttpRequest)
        ensures
            r@ == with_auth(
                suggestions_req(max_results),
                self.credentials().0,
                self.credentials().1,
            ),
    ;
}

impl Suggestions for AuthenticatedClient {
    fn retrieve_suggested_podcasts_request(&self, max_results: u8) -> (r: HttpRequest) {
        let mut url = String::from_str("https://gpodder.net/suggestions/");
        append_u64(&mut url, max_results as u64);
        url.append(".json");
        let r = HttpRequest::get(url).with_credentials(
            self.username.as_str(),
            self.password.as_str(),
        );
        proof {
            assert(r@ =~= with_auth(suggestions_req(max_results), self.username@, self.password@));
        }
        r
    }
}

impl Suggestions for DeviceClient {
    /// The same request the wrapped authenticated client builds.
    fn retrieve_suggested_podcasts_request(&self, max_results: u8) -> (r: HttpRequest) {
        self.authenticated_client.retrieve_suggested_podcasts_request(max_results)
    }
}

} // verus!
