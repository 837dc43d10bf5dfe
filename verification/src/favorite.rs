//! Favorites: the request that retrieves the episodes the user marked as
//! favorite. The response is a list of directory episode records.

use vstd::prelude::*;

verus! {

use crate::client::AuthenticatedClient;
use crate::client::DeviceClient;
use crate::client::UserIdentity;
use crate::http::HttpMethod;
use crate::http::HttpRequest;
use crate::http::ReqView;
use crate::http::with_auth;
use vstd::string::StringExecFns;

/// The request that retrieves the favorite episodes of a user, before
/// credentials.
pub open spec fn favorites_req(username: Seq<char>) -> ReqView {
    ReqView {
        method: HttpMethod::Get,
        url: "https://gpodder.net/api/2/favorites/"@ + username + ".json"@,
        query: Seq::empty(),
        body: None,
        auth: None,
    }
}

/// see [`GetFavoriteEpisodes::get_favorite_episodes_request`]
pub trait GetFavoriteEpisodes: UserIdentity {
    /// The request that retrieves the user's favorite episodes.
    fn get_favorite_episodes_request(&self) -> (r: HttpRequest)
        ensures
            r@ == with_auth(
                favorites_req(self.account()),
                self.credentials().0,
                self.credentials().1,
            ),
    ;
}

impl GetFavoriteEpisodes for AuthenticatedClient {
    fn get_favorite_episodes_request(&self) -> (r: HttpRequest) {
        let mut url = String::from_str("https://gpodder.net/api/2/favorites/");
        url.append(self.username.as_str());
        url.append(".json");
        let r = HttpRequest::get(url).with_credentials(
            self.username.as_str(),
            self.password.as_str(),
        );
        proof {
            assert(r@ =~= with_auth(favorites_req(self.username@), self.username@, self.password@));
        }
        r
    }
}

impl GetFavoriteEpisodes for DeviceClient {
    /// The same request the wrapped authenticated client builds.
    fn get_favorite_episodes_request(&self) -> (r: HttpRequest) {
        self.authenticated_client.get_favorite_episodes_request()
    }
}

} // verus!
