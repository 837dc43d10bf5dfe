//! The three client identity levels: anonymous, user-authenticated and
//! device-scoped. Each level wraps the previous one and forwards its
//! operations to it; credentials are immutable for the lifetime of a client
//! value.

use vstd::prelude::*;

verus! {

/// Client without authentication; may build the unauthenticated requests
/// only.
#[derive(Debug, Clone)]
pub struct PublicClient {}

/// Client authenticated with username and password; every request it builds
/// carries HTTP Basic credentials.
#[derive(Debug, Clone)]
pub struct AuthenticatedClient {
    /// The account name.
    pub username: String,
    /// The account password.
    pub password: String,
    /// The wrapped anonymous client.
    pub public_client: PublicClient,
}

/// Device-specific [`AuthenticatedClient`]: adds the device-scoped requests
/// and forwards everything else to the wrapped client.
#[derive(Debug, Clone)]
pub struct DeviceClient {
    /// The identifier of the device this client is scoped to.
    pub device_id: String,
    /// The wrapped authenticated client.
    pub authenticated_client: AuthenticatedClient,
}

impl PublicClient {
    /// Create a [`PublicClient`] locally.
    pub fn new() -> (r: PublicClient) {
        PublicClient {  }
    }
}

impl AuthenticatedClient {
    /// Create an [`AuthenticatedClient`] locally.
    pub fn new(username: &str, password: &str) -> (r: AuthenticatedClient)
        ensures
            r.username@ == username@,
            r.password@ == password@,
    {
        AuthenticatedClient {
            username: username.to_owned(),
            password: password.to_owned(),
            public_client: PublicClient::new(),
        }
    }
}

impl DeviceClient {
    /// Create a [`DeviceClient`] locally.
    pub fn new(username: &str, password: &str, device_id: &str) -> (r: DeviceClient)
        ensures
            r.device_id@ == device_id@,
            r.authenticated_client.username@ == username@,
            r.authenticated_client.password@ == password@,
    {
        DeviceClient {
            device_id: device_id.to_owned(),
            authenticated_client: AuthenticatedClient::new(username, password),
        }
    }

    /// The wrapped authenticated client.
    pub fn authenticated(&self) -> (r: &AuthenticatedClient)
        ensures
            *r == self.authenticated_client,
    {
        &self.authenticated_client
    }
}

/// How a client signs the requests it builds: anonymously or with HTTP
/// Basic credentials. The capability traits of the resource modules state
/// their contracts over it.
pub trait ClientIdentity {
    /// The credentials the client attaches to every request, if any.
    spec fn opt_credentials(&self) -> Option<(Seq<char>, Seq<char>)>;
}

/// A client acting for a user account; always signs its requests.
pub trait UserIdentity: ClientIdentity {
    /// The account the client acts for.
    spec fn account(&self) -> Seq<char>;

    /// The username and password the client attaches to every request.
    spec fn credentials(&self) -> (Seq<char>, Seq<char>);
}

/// A client scoped to one device of a user account.
pub trait DeviceIdentity: UserIdentity {
    /// The device the client is scoped to.
    spec fn device(&self) -> Seq<char>;
}

impl ClientIdentity for PublicClient {
    open spec fn opt_credentials(&self) -> Option<(Seq<char>, Seq<char>)> {
        None
    }
}

impl ClientIdentity for AuthenticatedClient {
    open spec fn opt_credentials(&self) -> Option<(Seq<char>, Seq<char>)> {
        Some((self.username@, self.password@))
    }
}

impl UserIdentity for AuthenticatedClient {
    open spec fn account(&self) -> Seq<char> {
        self.username@
    }

    open spec fn credentials(&self) -> (Seq<char>, Seq<char>) {
        (self.username@, self.password@)
    }
}

impl ClientIdentity for DeviceClient {
    open spec fn opt_credentials(&self) -> Option<(Seq<char>, Seq<char>)> {
        Some((self.authenticated_client.username@, self.authenticated_client.password@))
    }
}

impl UserIdentity for DeviceClient {
    open spec fn account(&self) -> Seq<char> {
        self.authenticated_client.username@
    }

    open spec fn credentials(&self) -> (Seq<char>, Seq<char>) {
        (self.authenticated_client.username@, self.authenticated_client.password@)
    }
}

impl DeviceIdentity for DeviceClient {
    open spec fn device(&self) -> Seq<char> {
        self.device_id@
    }
}

impl From<DeviceClient> for AuthenticatedClient {
    /// Unwraps the authenticated client a device-scoped client is built
    /// around.
    fn from(device_client: DeviceClient) -> (r: Self) {
        device_client.authenticated_client
    }
}

impl vstd::std_specs::convert::FromSpecImpl<DeviceClient> for AuthenticatedClient {
    open spec fn obeys_from_spec() -> bool {
        true
    }

    open spec fn from_spec(device_client: DeviceClient) -> Self {
        device_client.authenticated_client
    }
}

} // verus!
