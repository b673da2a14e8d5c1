//! The values that the web API answers with.

use vstd::prelude::*;

verus! {

/// An access token as the authorization endpoint grants it.
#[derive(Debug, PartialEq, Eq)]
pub struct AuthToken {
    pub access_token: String,
    pub token_type: String,
    pub expires_in: i32,
}

/// A playback device of the user.
#[derive(Debug, PartialEq, Eq)]
pub struct Device {
    pub id: String,
    pub is_active: bool,
    pub is_private_session: bool,
    pub is_restricted: bool,
    pub name: String,
    pub kind: String,
    pub volume_percent: i16,
}

/// The user's playback devices, in the order in which the API lists them.
#[derive(Debug, PartialEq, Eq)]
pub struct Devices {
    pub devices: Vec<Device>,
}

/// An [`AuthToken`] as a mathematical value.
pub struct TokenModel {
    pub access_token: Seq<char>,
    pub token_type: Seq<char>,
    pub expires_in: int,
}

/// A [`Device`] as a mathematical value.
pub struct DeviceModel {
    pub id: Seq<char>,
    pub is_active: bool,
    pub is_private_session: bool,
    pub is_restricted: bool,
    pub name: Seq<char>,
    pub kind: Seq<char>,
    pub volume_percent: int,
}

impl View for AuthToken {
    type V = TokenModel;

    open spec fn view(&self) -> TokenModel {
        TokenModel {
            access_token: self.access_token@,
            token_type: self.token_type@,
            expires_in: self.expires_in as int,
        }
    }
}

impl View for Device {
    type V = DeviceModel;

    open spec fn view(&self) -> DeviceModel {
        DeviceModel {
            id: self.id@,
            is_active: self.is_active,
            is_private_session: self.is_private_session,
            is_restricted: self.is_restricted,
            name: self.name@,
            kind: self.kind@,
            volume_percent: self.volume_percent as int,
        }
    }
}

impl View for Devices {
    type V = Seq<DeviceModel>;

    open spec fn view(&self) -> Seq<DeviceModel> {
        self.devices@.map_values(|d: Device| d@)
    }
}

} // verus!
