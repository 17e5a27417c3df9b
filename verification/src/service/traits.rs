//! The traits a service implements; each optional one is switched on with
//! the matching `enable_*` method of
//! [`ServiceInfoBuilder`](super::ServiceInfoBuilder).
//!
//! Services exposing newer ingests should prefer
//! [`GetConnectInfoService`] over the per-field `get_url` / `get_key` /
//! `get_username` / `get_password` callbacks: libobs prefers
//! `get_connect_info` when it is present.

use vstd::prelude::*;

use super::context::{ConnectInfo, CreatableServiceContext, Resolution, ServiceRef};
use crate::source::traits::CreateError;
use crate::properties::Properties;
use crate::settings::Settings;

verus! {

/// The mandatory trait every service implements: its identity and its
/// constructor.
///
/// Service plugins represent streaming destinations such as Twitch,
/// YouTube, or generic RTMP — anything that an output binds to in order
/// to negotiate a protocol, server URL, and credentials.
pub trait Serviceable: Sized {
    /// Returns the globally-unique identifier for this service type.
    fn get_id() -> &'static str;

    /// Constructs a new service instance, each time OBS creates a service
    /// of this type (from saved settings or on request).
    fn create(context: &mut CreatableServiceContext, service: ServiceRef) -> Result<
        Self,
        CreateError,
    >;
}

/// Provides a user-visible display name for the service.
pub trait GetNameService {
    /// Returns the display name shown in OBS UIs.
    fn get_name() -> &'static str;
}

/// Notified when an output bound to this service deactivates.
pub trait DeactivateService: Sized {
    /// Called when streaming to the service has stopped.
    fn deactivate(&mut self);
}

/// Builds the user-facing [`Properties`] panel for the service.
pub trait GetPropertiesService: Sized {
    /// Returns the property tree OBS will render in the service settings.
    fn get_properties(&self) -> Properties;
}

/// Reports the ingest URL the service is configured to push to; `None`
/// reports a null URL.
pub trait GetUrlService: Sized {
    /// Returns the configured ingest URL.
    fn get_url(&self) -> Option<&str>;
}

/// Reports the stream key the service is configured with; `None` reports a
/// null key.
pub trait GetKeyService: Sized {
    /// Returns the configured stream key.
    fn get_key(&self) -> Option<&str>;
}

/// Reports the username the service is configured with.
pub trait GetUsernameService: Sized {
    /// Returns the configured username.
    fn get_username(&self) -> Option<&str>;
}

/// Reports the password the service is configured with.
pub trait GetPasswordService: Sized {
    /// Returns the configured password.
    fn get_password(&self) -> Option<&str>;
}

/// Returns the OBS output type that should be paired with this service
/// (e.g. `"rtmp_output"`).
pub trait GetOutputTypeService: Sized {
    /// Returns the registered id of the preferred output.
    fn get_output_type(&self) -> Option<&str>;
}

/// Reports the resolutions the service supports.
pub trait GetSupportedResolutionsService: Sized {
    /// Returns the list of supported resolutions.
    fn get_supported_resolutions(&self) -> Vec<Resolution>;
}

/// Reports the maximum frame rate the service accepts.
pub trait GetMaxFpsService: Sized {
    /// Returns the maximum FPS, in whole frames per second.
    fn get_max_fps(&self) -> i32;
}

/// Reports the maximum bitrates the service accepts, in kilobits per
/// second.
pub trait GetMaxBitrateService: Sized {
    /// Returns `(video_kbps, audio_kbps)`.
    fn get_max_bitrate(&self) -> (i32, i32);
}

/// Reports the video codecs the service ingest accepts, as libobs codec ids
/// (e.g. `"h264"`, `"hevc"`, `"av1"`).
pub trait GetSupportedVideoCodecsService: Sized {
    /// Returns the list of supported video codec ids.
    fn get_supported_video_codecs(&self) -> Vec<String>;
}

/// Reports the audio codecs the service ingest accepts.
pub trait GetSupportedAudioCodecsService: Sized {
    /// Returns the list of supported audio codec ids.
    fn get_supported_audio_codecs(&self) -> Vec<String>;
}

/// Returns the streaming protocol identifier this service negotiates
/// (e.g. `"RTMP"`, `"RTMPS"`, `"WHIP"`).
pub trait GetProtocolService: Sized {
    /// Returns the protocol identifier.
    fn get_protocol(&self) -> Option<&str>;
}

/// Returns one piece of connect-time information identified by
/// [`ConnectInfo`].
pub trait GetConnectInfoService: Sized {
    /// Returns the requested field, or `None` to report a null value.
    fn get_connect_info(&self, kind: ConnectInfo) -> Option<&str>;
}

/// Reports whether the service is in a state that permits a connection
/// attempt.
pub trait CanTryToConnectService: Sized {
    /// Returns `true` if the service has enough configuration to attempt a
    /// connection.
    fn can_try_to_connect(&self) -> bool;
}

/// Notified when an output bound to this service activates, with the
/// latest settings.
pub trait ActivateService: Sized {
    /// Called when an output is about to start streaming to the service.
    fn activate(&mut self, settings: &mut Settings);
}

/// Applies a new settings object to a service instance.
pub trait UpdateService: Sized {
    /// Applies updated settings.
    fn update(&mut self, settings: &mut Settings);
}

/// Populates the default settings written into a freshly-created service.
pub trait GetDefaultsService {
    /// Writes default values into `settings`.
    fn get_defaults(settings: &mut Settings);
}

/// Modifies the encoder settings OBS plans to use with this service, e.g.
/// to clamp bitrates or force keyframe intervals.
pub trait ApplyEncoderSettingsService: Sized {
    /// Mutates the encoder settings before they are applied; either is
    /// `None` when the corresponding encoder is absent.
    fn apply_encoder_settings(
        &mut self,
        video_encoder_settings: Option<&mut Settings>,
        audio_encoder_settings: Option<&mut Settings>,
    );
}

} // verus!
