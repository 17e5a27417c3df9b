//! Plain values exchanged with libobs by services: resolutions and the
//! connect-info selector.

use vstd::prelude::*;

use crate::settings::Settings;

verus! {

/// A handle to a live OBS service (libobs `obs_service_t`), by libobs's address of it.
#[derive(Debug, PartialEq, Eq, Structural)]
pub struct ServiceRef {
    raw: usize,
}

impl ServiceRef {
    /// libobs's address of the object.
    pub closed spec fn spec_raw(&self) -> usize {
        self.raw
    }

    /// The handle for libobs address `raw`; a null address gives none.
    pub fn from_raw(raw: usize) -> (r: Option<ServiceRef>)
        ensures
            r is None <==> raw == 0,
            r matches Some(h) ==> h.spec_raw() == raw,
    {
        if raw == 0 {
            None
        } else {
            Some(ServiceRef { raw })
        }
    }

    /// libobs's address of the object.
    pub fn as_raw(&self) -> (r: usize)
        ensures
            r == self.spec_raw(),
    {
        self.raw
    }
}


/// libobs's `obs_service_resolution`: a width (`cx`) and height (`cy`).
#[derive(Debug, Clone, Copy, PartialEq, Eq, Structural)]
pub struct ServiceResolution {
    pub cx: i32,
    pub cy: i32,
}

/// A 2D resolution exposed to libobs as `obs_service_resolution`.
///
/// Used by [`GetSupportedResolutionsService`](super::traits::GetSupportedResolutionsService)
/// to advertise the resolutions a service ingest accepts.
#[derive(Debug, Clone, Copy, PartialEq, Eq, Structural)]
pub struct Resolution {
    /// Width in pixels.
    pub width: i32,
    /// Height in pixels.
    pub height: i32,
}

impl Resolution {
    /// libobs's representation of this resolution.
    pub open spec fn spec_into_raw(self) -> ServiceResolution {
        ServiceResolution { cx: self.width, cy: self.height }
    }

    /// The resolution libobs's `raw` stands for.
    pub open spec fn spec_from_raw(raw: ServiceResolution) -> Self {
        Resolution { width: raw.cx, height: raw.cy }
    }

    /// Constructs a resolution.
    pub fn new(width: i32, height: i32) -> (r: Self)
        ensures
            r.width == width,
            r.height == height,
    {
        Self { width, height }
    }

    /// Converts to libobs's representation.
    pub fn into_raw(self) -> (r: ServiceResolution)
        ensures
            r == self.spec_into_raw(),
    {
        ServiceResolution { cx: self.width, cy: self.height }
    }

    /// Converts from libobs's representation.
    pub fn from_raw(raw: ServiceResolution) -> (r: Self)
        ensures
            r == Self::spec_from_raw(raw),
    {
        Self::new(raw.cx, raw.cy)
    }
}

/// Converting a resolution to libobs's representation and back gives the
/// same resolution, and the other way round.
pub proof fn lemma_resolution_raw_roundtrip(r: Resolution, raw: ServiceResolution)
    ensures
        Resolution::spec_from_raw(r.spec_into_raw()) == r,
        Resolution::spec_from_raw(raw).spec_into_raw() == raw,
{
}

/// One of the connect-info fields requested by libobs through
/// `obs_service_get_connect_info`.
///
/// Unknown values are preserved through the [`Other`](Self::Other) variant
/// so newer libobs revisions that introduce additional fields don't break
/// existing services. The raw representation is the unsigned enumerant that
/// libobs uses on Unix-like targets.
#[derive(Debug, Clone, Copy, PartialEq, Eq, Structural)]
pub enum ConnectInfo {
    /// The ingest URL the output should connect to.
    ServerUrl,
    /// The stream key (alias of `STREAM_ID` in libobs).
    StreamKey,
    /// The user name credential.
    Username,
    /// The password credential.
    Password,
    /// The passphrase used to encrypt the stream (e.g. SRT encryption).
    EncryptPassphrase,
    /// A bearer token credential (e.g. WHIP).
    BearerToken,
    /// A connect-info field this version of the library does not name.
    Other(u32),
}

/// libobs's `OBS_SERVICE_CONNECT_INFO_SERVER_URL`.
pub const CONNECT_INFO_SERVER_URL: u32 = 0;
/// libobs's `OBS_SERVICE_CONNECT_INFO_STREAM_KEY` (= `STREAM_ID`).
pub const CONNECT_INFO_STREAM_KEY: u32 = 2;
/// libobs's `OBS_SERVICE_CONNECT_INFO_USERNAME`.
pub const CONNECT_INFO_USERNAME: u32 = 4;
/// libobs's `OBS_SERVICE_CONNECT_INFO_PASSWORD`.
pub const CONNECT_INFO_PASSWORD: u32 = 6;
/// libobs's `OBS_SERVICE_CONNECT_INFO_ENCRYPT_PASSPHRASE`.
pub const CONNECT_INFO_ENCRYPT_PASSPHRASE: u32 = 8;
/// libobs's `OBS_SERVICE_CONNECT_INFO_BEARER_TOKEN`.
pub const CONNECT_INFO_BEARER_TOKEN: u32 = 10;

/// Whether `raw` is one of the enumerants that [`ConnectInfo`] names.
pub open spec fn is_named_connect_info(raw: u32) -> bool {
    raw == CONNECT_INFO_SERVER_URL || raw == CONNECT_INFO_STREAM_KEY || raw
        == CONNECT_INFO_USERNAME || raw == CONNECT_INFO_PASSWORD || raw
        == CONNECT_INFO_ENCRYPT_PASSPHRASE || raw == CONNECT_INFO_BEARER_TOKEN
}

impl ConnectInfo {
    /// The libobs enumerant of this field.
    pub open spec fn spec_raw(self) -> u32 {
        match self {
            ConnectInfo::ServerUrl => CONNECT_INFO_SERVER_URL,
            ConnectInfo::StreamKey => CONNECT_INFO_STREAM_KEY,
            ConnectInfo::Username => CONNECT_INFO_USERNAME,
            ConnectInfo::Password => CONNECT_INFO_PASSWORD,
            ConnectInfo::EncryptPassphrase => CONNECT_INFO_ENCRYPT_PASSPHRASE,
            ConnectInfo::BearerToken => CONNECT_INFO_BEARER_TOKEN,
            ConnectInfo::Other(v) => v,
        }
    }

    /// The field libobs means by the enumerant `kind`.
    pub open spec fn spec_from_raw(kind: u32) -> ConnectInfo {
        if kind == CONNECT_INFO_SERVER_URL {
            ConnectInfo::ServerUrl
        } else if kind == CONNECT_INFO_STREAM_KEY {
            ConnectInfo::StreamKey
        } else if kind == CONNECT_INFO_USERNAME {
            ConnectInfo::Username
        } else if kind == CONNECT_INFO_PASSWORD {
            ConnectInfo::Password
        } else if kind == CONNECT_INFO_ENCRYPT_PASSPHRASE {
            ConnectInfo::EncryptPassphrase
        } else if kind == CONNECT_INFO_BEARER_TOKEN {
            ConnectInfo::BearerToken
        } else {
            ConnectInfo::Other(kind)
        }
    }

    /// Maps the libobs raw kind into a [`ConnectInfo`].
    pub fn from_raw(kind: u32) -> (r: Self)
        ensures
            r == Self::spec_from_raw(kind),
    {
        if kind == CONNECT_INFO_SERVER_URL {
            ConnectInfo::ServerUrl
        } else if kind == CONNECT_INFO_STREAM_KEY {
            ConnectInfo::StreamKey
        } else if kind == CONNECT_INFO_USERNAME {
            ConnectInfo::Username
        } else if kind == CONNECT_INFO_PASSWORD {
            ConnectInfo::Password
        } else if kind == CONNECT_INFO_ENCRYPT_PASSPHRASE {
            ConnectInfo::EncryptPassphrase
        } else if kind == CONNECT_INFO_BEARER_TOKEN {
            ConnectInfo::BearerToken
        } else {
            ConnectInfo::Other(kind)
        }
    }

    /// Returns the underlying libobs raw kind.
    pub fn as_raw(&self) -> (r: u32)
        ensures
            r == self.spec_raw(),
    {
        match self {
            ConnectInfo::ServerUrl => CONNECT_INFO_SERVER_URL,
            ConnectInfo::StreamKey => CONNECT_INFO_STREAM_KEY,
            ConnectInfo::Username => CONNECT_INFO_USERNAME,
            ConnectInfo::Password => CONNECT_INFO_PASSWORD,
            ConnectInfo::EncryptPassphrase => CONNECT_INFO_ENCRYPT_PASSPHRASE,
            ConnectInfo::BearerToken => CONNECT_INFO_BEARER_TOKEN,
            ConnectInfo::Other(v) => *v,
        }
    }
}

/// Every libobs enumerant survives the trip through [`ConnectInfo`]:
/// `as_raw(from_raw(kind)) == kind`.
pub proof fn lemma_connect_info_raw_preserved(kind: u32)
    ensures
        ConnectInfo::spec_from_raw(kind).spec_raw() == kind,
{
}

/// A [`ConnectInfo`] survives the trip through its enumerant,
/// `from_raw(as_raw(c)) == c`, unless it is an `Other` that carries one of
/// the named enumerants (which comes back as the named variant).
pub proof fn lemma_connect_info_roundtrip(c: ConnectInfo)
    ensures
        !(c matches ConnectInfo::Other(v) && is_named_connect_info(v)) ==> ConnectInfo::spec_from_raw(
            c.spec_raw(),
        ) == c,
        c matches ConnectInfo::Other(v) && is_named_connect_info(v) ==> ConnectInfo::spec_from_raw(
            c.spec_raw(),
        ) != c,
{
}

/// What a service's create hook receives besides the service's handle:
/// the initial settings.
pub struct CreatableServiceContext {
    /// Initial service settings.
    pub settings: Settings,
}

impl CreatableServiceContext {
    /// A context carrying `settings`.
    pub fn from_raw(settings: Settings) -> (r: Self)
        ensures
            r.settings == settings,
    {
        CreatableServiceContext { settings }
    }
}

/// Each value's libobs enumerant, as libobs numbers them, and the value each of those
/// enumerants stands for.
pub proof fn lemma_connect_info_numbering()
    ensures
        ConnectInfo::ServerUrl.spec_raw() == 0,
        ConnectInfo::spec_from_raw(0) == ConnectInfo::ServerUrl,
        ConnectInfo::StreamKey.spec_raw() == 2,
        ConnectInfo::spec_from_raw(2) == ConnectInfo::StreamKey,
        ConnectInfo::Username.spec_raw() == 4,
        ConnectInfo::spec_from_raw(4) == ConnectInfo::Username,
        ConnectInfo::Password.spec_raw() == 6,
        ConnectInfo::spec_from_raw(6) == ConnectInfo::Password,
        ConnectInfo::EncryptPassphrase.spec_raw() == 8,
        ConnectInfo::spec_from_raw(8) == ConnectInfo::EncryptPassphrase,
        ConnectInfo::BearerToken.spec_raw() == 10,
        ConnectInfo::spec_from_raw(10) == ConnectInfo::BearerToken,
{
}

} // verus!
