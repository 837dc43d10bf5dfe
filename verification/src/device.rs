//! Devices: the records of the device registry, their identity rules, and
//! the requests and decoders of the device API.

use vstd::prelude::*;

verus! {

broadcast use vstd::string::group_string_axioms;

use core::cmp::Ordering;
use crate::client::AuthenticatedClient;
use crate::client::DeviceClient;
use crate::client::DeviceIdentity;
use crate::client::UserIdentity;
use crate::http::HttpMethod;
use crate::http::HttpRequest;
use crate::http::ReqView;
use crate::http::with_auth;
use crate::json::JsonDecode;
use crate::json::JsonValue;
use crate::json::append_json_key;
use crate::json::append_json_string;
use crate::json::json_key;
use crate::json::json_str_lit;
use crate::json::obj_get;
use crate::json::obj_lookup;
use crate::strutil::cmp_str;
use crate::strutil::lemma_cmp_str_equal_iff_eq;
use crate::strutil::lex_cmp_bytes;
use crate::strutil::push_char;
use crate::strutil::str_eq;
use vstd::std_specs::cmp::PartialEqSpec;
use vstd::std_specs::cmp::PartialOrdSpec;
use vstd::string::StringExecFns;
use vstd::utf8::encode_utf8;

/// Type of a [`Device`].
#[derive(Debug, Clone, Copy, PartialEq, Eq, Structural, Hash)]
pub enum DeviceType {
    /// desktop computer
    Desktop,
    /// portable computer
    Laptop,
    /// smartphone/tablet
    Mobile,
    /// server
    Server,
    /// any type of device which doesn't fit another variant
    Other,
}

/// The reader-friendly name of a device type.
pub open spec fn device_type_name(t: DeviceType) -> Seq<char> {
    match t {
        DeviceType::Desktop => "Desktop"@,
        DeviceType::Laptop => "Laptop"@,
        DeviceType::Mobile => "Mobile"@,
        DeviceType::Server => "Server"@,
        DeviceType::Other => "Other"@,
    }
}

/// The lowercase name a device type has on the wire.
pub open spec fn device_type_wire(t: DeviceType) -> Seq<char> {
    match t {
        DeviceType::Desktop => "desktop"@,
        DeviceType::Laptop => "laptop"@,
        DeviceType::Mobile => "mobile"@,
        DeviceType::Server => "server"@,
        DeviceType::Other => "other"@,
    }
}

/// The device type a lowercase wire name stands for, if any.
pub open spec fn device_type_of_wire(s: Seq<char>) -> Option<DeviceType> {
    if s == "desktop"@ {
        Some(DeviceType::Desktop)
    } else if s == "laptop"@ {
        Some(DeviceType::Laptop)
    } else if s == "mobile"@ {
        Some(DeviceType::Mobile)
    } else if s == "server"@ {
        Some(DeviceType::Server)
    } else if s == "other"@ {
        Some(DeviceType::Other)
    } else {
        None
    }
}

impl DeviceType {
    /// The reader-friendly name of this device type.
    pub fn name_str(&self) -> (r: &'static str)
        ensures
            r@ == device_type_name(*self),
    {
        match self {
            DeviceType::Desktop => "Desktop",
            DeviceType::Laptop => "Laptop",
            DeviceType::Mobile => "Mobile",
            DeviceType::Server => "Server",
            DeviceType::Other => "Other",
        }
    }

    /// The lowercase name this device type has on the wire.
    pub fn wire_str(&self) -> (r: &'static str)
        ensures
            r@ == device_type_wire(*self),
    {
        match self {
            DeviceType::Desktop => "desktop",
            DeviceType::Laptop => "laptop",
            DeviceType::Mobile => "mobile",
            DeviceType::Server => "server",
            DeviceType::Other => "other",
        }
    }

    /// Reads a device type from its lowercase wire name.
    pub fn from_wire(s: &str) -> (r: Option<DeviceType>)
        ensures
            r == device_type_of_wire(s@),
    {
        if str_eq(s, "desktop") {
            Some(DeviceType::Desktop)
        } else if str_eq(s, "laptop") {
            Some(DeviceType::Laptop)
        } else if str_eq(s, "mobile") {
            Some(DeviceType::Mobile)
        } else if str_eq(s, "server") {
            Some(DeviceType::Server)
        } else if str_eq(s, "other") {
            Some(DeviceType::Other)
        } else {
            None
        }
    }
}

/// Law: the wire name of a device type reads back as the same device type.
pub proof fn lemma_device_type_wire_round_trip(t: DeviceType)
    ensures
        device_type_of_wire(device_type_wire(t)) == Some(t),
{
    reveal_strlit("desktop");
    reveal_strlit("laptop");
    reveal_strlit("mobile");
    reveal_strlit("server");
    reveal_strlit("other");
    assert("desktop"@[0] == 'd');
    assert("laptop"@[0] == 'l');
    assert("mobile"@[0] == 'm');
    assert("server"@[0] == 's');
    assert("other"@[0] == 'o');
}

/// A device record of the registry. Identity, equality and ordering are
/// defined solely by `id`: two records with the same id are the same device,
/// whatever their other fields say.
#[derive(Debug, Clone)]
pub struct Device {
    /// A device ID: any string matching `[\w.-]+`, chosen by the client
    /// application, which should keep it unique within the user account.
    pub id: String,
    /// Human readable label for the device.
    pub caption: String,
    /// Type of the device.
    pub device_type: DeviceType,
    /// Number of subscriptions for this device.
    pub subscriptions: u16,
}

impl PartialEq for Device {
    fn eq(&self, other: &Self) -> (r: bool) {
        self.id == other.id
    }
}

impl vstd::std_specs::cmp::PartialEqSpecImpl for Device {
    open spec fn obeys_eq_spec() -> bool {
        true
    }

    open spec fn eq_spec(&self, other: &Device) -> bool {
        self.id@ == other.id@
    }
}

impl PartialOrd for Device {
    fn partial_cmp(&self, other: &Self) -> (r: Option<Ordering>) {
        Some(cmp_str(self.id.as_str(), other.id.as_str()))
    }
}

impl vstd::std_specs::cmp::PartialOrdSpecImpl for Device {
    open spec fn obeys_partial_cmp_spec() -> bool {
        true
    }

    open spec fn partial_cmp_spec(&self, other: &Device) -> Option<Ordering> {
        Some(lex_cmp_bytes(encode_utf8(self.id@), encode_utf8(other.id@)))
    }
}

/// Relies on std's `String::hash`: a device hashes as its id alone, so that
/// records that are equal (same id) hash alike.
impl core::hash::Hash for Device {
    #[verifier::external_body]
    fn hash<H: core::hash::Hasher>(&self, state: &mut H) {
        self.id.hash(state);
    }
}

/// Law: device identity is the id alone. Two devices are equal exactly when
/// their ids are, and devices with equal ids also compare as equal, whatever
/// their captions, types and subscription counts.
pub proof fn lemma_device_equality_by_id(d1: Device, d2: Device)
    ensures
        d1.eq_spec(&d2) <==> d1.id@ == d2.id@,
        d1.partial_cmp_spec(&d2) == Some(Ordering::Equal) <==> d1.id@ == d2.id@,
{
    lemma_cmp_str_equal_iff_eq(d1.id@, d2.id@);
}

/// The reader-friendly one-line form of a device record:
/// `Type Caption (id=...)`.
pub open spec fn device_display(d: Device) -> Seq<char> {
    device_type_name(d.device_type) + seq![' '] + d.caption@ + seq![' ', '(', 'i', 'd', '='] + d.id@
        + seq![')']
}

impl Device {
    /// Formats this record as `Type Caption (id=...)`.
    pub fn display_string(&self) -> (r: String)
        ensures
            r@ == device_display(*self),
    {
        let mut out = String::new();
        out.append(self.device_type.name_str());
        push_char(&mut out, ' ');
        out.append(self.caption.as_str());
        push_char(&mut out, ' ');
        push_char(&mut out, '(');
        push_char(&mut out, 'i');
        push_char(&mut out, 'd');
        push_char(&mut out, '=');
        out.append(self.id.as_str());
        push_char(&mut out, ')');
        assert(out@ =~= device_display(*self));
        out
    }
}

impl JsonDecode for Device {
    open spec fn decode_spec(j: JsonValue) -> Option<Device> {
        match j {
            JsonValue::Obj(fields) => {
                match (
                    obj_lookup(fields@, "id"@),
                    obj_lookup(fields@, "caption"@),
                    obj_lookup(fields@, "type"@),
                    obj_lookup(fields@, "subscriptions"@),
                ) {
                    (
                        Some(JsonValue::Str(id)),
                        Some(JsonValue::Str(caption)),
                        Some(JsonValue::Str(t)),
                        Some(JsonValue::UInt(n)),
                    ) => {
                        match device_type_of_wire(t@) {
                            Some(device_type) => {
                                if n <= 65535 {
                                    Some(
                                        Device {
                                            id,
                                            caption,
                                            device_type,
                                            subscriptions: n as u16,
                                        },
                                    )
                                } else {
                                    None
                                }
                            },
                            None => None,
                        }
                    },
                    _ => None,
                }
            },
            _ => None,
        }
    }

    fn decode_json(j: &JsonValue) -> (r: Option<Device>) {
        let fields = match j {
            JsonValue::Obj(fields) => fields,
            _ => { return None; },
        };
        let id = match obj_get(fields, "id") {
            Some(JsonValue::Str(s)) => s.clone(),
            _ => { return None; },
        };
        let caption = match obj_get(fields, "caption") {
            Some(JsonValue::Str(s)) => s.clone(),
            _ => { return None; },
        };
        let device_type = match obj_get(fields, "type") {
            Some(JsonValue::Str(s)) => match DeviceType::from_wire(s.as_str()) {
                Some(t) => t,
                None => { return None; },
            },
            _ => { return None; },
        };
        let subscriptions = match obj_get(fields, "subscriptions") {
            Some(JsonValue::UInt(n)) => {
                if *n <= 65535 {
                    *n as u16
                } else {
                    return None;
                }
            },
            _ => { return None; },
        };
        Some(Device { id, caption, device_type, subscriptions })
    }
}

/// The URL that lists the devices of a user.
pub open spec fn devices_list_url(username: Seq<char>) -> Seq<char> {
    "https://gpodder.net/api/2/devices/"@ + username + ".json"@
}

/// The URL that updates the data of one device of a user.
pub open spec fn device_update_url(username: Seq<char>, device_id: Seq<char>) -> Seq<char> {
    "https://gpodder.net/api/2/devices/"@ + username + "/"@ + device_id + ".json"@
}

/// The request that lists the devices of a user, before credentials.
pub open spec fn list_devices_req(username: Seq<char>) -> ReqView {
    ReqView {
        method: HttpMethod::Get,
        url: devices_list_url(username),
        query: Seq::empty(),
        body: None,
        auth: None,
    }
}

/// The body of a device-data update: only the supplied fields are sent.
pub open spec fn device_data_body(caption: Option<Seq<char>>, t: Option<DeviceType>) -> Seq<
    char,
> {
    match (caption, t) {
        (Option::None, Option::None) => seq!['{', '}'],
        (Option::Some(c), Option::None) => seq!['{'] + json_key("caption"@) + json_str_lit(c)
            + seq!['}'],
        (Option::None, Option::Some(ty)) => seq!['{'] + json_key("type"@) + json_str_lit(
            device_type_wire(ty),
        ) + seq!['}'],
        (Option::Some(c), Option::Some(ty)) => seq!['{'] + json_key("caption"@) + json_str_lit(c)
            + seq![','] + json_key("type"@) + json_str_lit(device_type_wire(ty)) + seq!['}'],
    }
}

/// Renders the body of a device-data update.
pub fn encode_device_data(caption: &Option<String>, device_type: &Option<DeviceType>) -> (r:
    String)
    ensures
        r@ == device_data_body(caption.deep_view(), *device_type),
{
    let mut out = String::new();
    push_char(&mut out, '{');
    match caption {
        Some(c) => {
            append_json_key(&mut out, "caption");
            append_json_string(&mut out, c.as_str());
            if device_type.is_some() {
                push_char(&mut out, ',');
            }
        },
        None => {},
    }
    match device_type {
        Some(t) => {
            append_json_key(&mut out, "type");
            append_json_string(&mut out, t.wire_str());
        },
        None => {},
    }
    push_char(&mut out, '}');
    assert(out@ =~= device_data_body(caption.deep_view(), *device_type));
    out
}

/// The request that updates the data of one device, before credentials.
pub open spec fn update_device_data_req(
    username: Seq<char>,
    device_id: Seq<char>,
    caption: Option<Seq<char>>,
    device_type: Option<DeviceType>,
) -> ReqView {
    ReqView {
        method: HttpMethod::Post,
        url: device_update_url(username, device_id),
        query: Seq::empty(),
        body: Some(device_data_body(caption, device_type)),
        auth: None,
    }
}

/// see [`ListDevices::list_devices_request`]
pub trait ListDevices: UserIdentity {
    /// The request that lists the devices that belong to the user.
    fn list_devices_request(&self) -> (r: HttpRequest)
        ensures
            r@ == with_auth(
                list_devices_req(self.account()),
                self.credentials().0,
                self.credentials().1,
            ),
    ;
}

/// see [`UpdateDeviceData::update_device_data_request`]
pub trait UpdateDeviceData: DeviceIdentity {
    /// The request that updates the device's caption and type; only the
    /// supplied fields are sent.
    fn update_device_data_request(
        &self,
        caption: Option<String>,
        device_type: Option<DeviceType>,
    ) -> (r: HttpRequest)
        ensures
            r@ == with_auth(
                update_device_data_req(
                    self.account(),
                    self.device(),
                    caption.deep_view(),
                    device_type,
                ),
                self.credentials().0,
                self.credentials().1,
            ),
    ;
}

/// The device API as a whole: a client that can both list the account's
/// devices and update its own device's data.
pub trait Devices: UpdateDeviceData + ListDevices {

}

impl ListDevices for AuthenticatedClient {
    fn list_devices_request(&self) -> (r: HttpRequest) {
        let mut url = String::from_str("https://gpodder.net/api/2/devices/");
        url.append(self.username.as_str());
        url.append(".json");
        let r = HttpRequest::get(url).with_credentials(
            self.username.as_str(),
            self.password.as_str(),
        );
        proof {
            assert(r@ =~= with_auth(
                list_devices_req(self.username@),
                self.username@,
                self.password@,
            ));
        }
        r
    }
}

impl ListDevices for DeviceClient {
    /// The same request the wrapped authenticated client builds.
    fn list_devices_request(&self) -> (r: HttpRequest) {
        self.authenticated_client.list_devices_request()
    }
}

impl UpdateDeviceData for DeviceClient {
    fn update_device_data_request(
        &self,
        caption: Option<String>,
        device_type: Option<DeviceType>,
    ) -> (r: HttpRequest) {
        let mut url = String::from_str("https://gpodder.net/api/2/devices/");
        url.append(self.authenticated_client.username.as_str());
        url.append("/");
        url.append(self.device_id.as_str());
        url.append(".json");
        let body = encode_device_data(&caption, &device_type);
        let r = HttpRequest::post(url, body).with_credentials(
            self.authenticated_client.username.as_str(),
            self.authenticated_client.password.as_str(),
        );
        proof {
            assert(r@ =~= with_auth(
                update_device_data_req(
                    self.authenticated_client.username@,
                    self.device_id@,
                    caption.deep_view(),
                    device_type,
                ),
                self.authenticated_client.username@,
                self.authenticated_client.password@,
            ));
        }
        r
    }
}

impl Devices for DeviceClient {

}

} // verus!
