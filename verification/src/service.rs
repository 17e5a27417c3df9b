//! Building blocks for authoring custom OBS services: the registration
//! record built from the callbacks a service implements.

pub mod context;
pub mod traits;

use std::marker::PhantomData;

use vstd::prelude::*;

use crate::settings::Settings;
use crate::source::traits::CreateError;
use self::context::{CreatableServiceContext, Resolution, ServiceRef, ServiceResolution};
use self::traits::{
    ActivateService, ApplyEncoderSettingsService, CanTryToConnectService, DeactivateService,
    GetConnectInfoService, GetDefaultsService, GetKeyService, GetMaxBitrateService,
    GetMaxFpsService, GetNameService, GetOutputTypeService, GetPasswordService,
    GetPropertiesService, GetProtocolService, GetSupportedAudioCodecsService,
    GetSupportedResolutionsService, GetSupportedVideoCodecsService, GetUrlService,
    GetUsernameService, Serviceable, UpdateService,
};

verus! {

/// Which optional callbacks a service registration wires up.
#[derive(Debug, Clone, Copy, PartialEq, Eq, Structural)]
pub struct ServiceCallbacks {
    pub get_name: bool,
    pub activate: bool,
    pub deactivate: bool,
    pub update: bool,
    pub get_defaults: bool,
    pub get_properties: bool,
    pub initialize: bool,
    pub get_url: bool,
    pub get_key: bool,
    pub get_username: bool,
    pub get_password: bool,
    pub apply_encoder_settings: bool,
    pub get_output_type: bool,
    pub get_supported_resolutions: bool,
    pub get_max_fps: bool,
    pub get_max_bitrate: bool,
    pub get_supported_video_codecs: bool,
    pub get_protocol: bool,
    pub get_supported_audio_codecs: bool,
    pub get_connect_info: bool,
    pub can_try_to_connect: bool,
}

impl ServiceCallbacks {
    /// No optional callback.
    pub open spec fn spec_none() -> Self {
        ServiceCallbacks {
            get_name: false,
            activate: false,
            deactivate: false,
            update: false,
            get_defaults: false,
            get_properties: false,
            initialize: false,
            get_url: false,
            get_key: false,
            get_username: false,
            get_password: false,
            apply_encoder_settings: false,
            get_output_type: false,
            get_supported_resolutions: false,
            get_max_fps: false,
            get_max_bitrate: false,
            get_supported_video_codecs: false,
            get_protocol: false,
            get_supported_audio_codecs: false,
            get_connect_info: false,
            can_try_to_connect: false,
        }
    }

    /// No optional callback.
    pub fn none() -> (r: Self)
        ensures
            r == Self::spec_none(),
    {
        ServiceCallbacks {
            get_name: false,
            activate: false,
            deactivate: false,
            update: false,
            get_defaults: false,
            get_properties: false,
            initialize: false,
            get_url: false,
            get_key: false,
            get_username: false,
            get_password: false,
            apply_encoder_settings: false,
            get_output_type: false,
            get_supported_resolutions: false,
            get_max_fps: false,
            get_max_bitrate: false,
            get_supported_video_codecs: false,
            get_protocol: false,
            get_supported_audio_codecs: false,
            get_connect_info: false,
            can_try_to_connect: false,
        }
    }
}

/// A fully-configured service registration, ready to be handed to OBS.
///
/// Produced by [`ServiceInfoBuilder::build`].
#[derive(Debug, Clone, Copy)]
pub struct ServiceInfo {
    /// The service's identifier.
    pub id: &'static str,
    /// The optional callbacks it wires up.
    pub callbacks: ServiceCallbacks,
}

/// Builder that wires up the OBS callbacks for a custom service `D`.
///
/// Call the matching `enable_*` method for each optional trait implemented
/// on `D`; each is bounded on that trait. Finalize with
/// [`build`](Self::build).
pub struct ServiceInfoBuilder<D: Serviceable> {
    __data: PhantomData<D>,
    info: ServiceInfo,
}

impl<D: Serviceable> ServiceInfoBuilder<D> {
    /// The callbacks enabled so far.
    pub closed spec fn spec_callbacks(&self) -> ServiceCallbacks {
        self.info.callbacks
    }

    /// The identifier the registration carries.
    pub closed spec fn spec_id(&self) -> &'static str {
        self.info.id
    }

    /// A builder for `D` with no optional callback.
    pub fn new() -> (r: Self)
        ensures
            r.spec_callbacks() == ServiceCallbacks::spec_none(),
    {
        ServiceInfoBuilder {
            __data: PhantomData,
            info: ServiceInfo { id: D::get_id(), callbacks: ServiceCallbacks::none() },
        }
    }

    /// Finalizes the builder into a [`ServiceInfo`] carrying exactly the
    /// callbacks enabled so far.
    pub fn build(self) -> (r: ServiceInfo)
        ensures
            r.callbacks == self.spec_callbacks(),
            r.id == self.spec_id(),
    {
        self.info
    }
}

impl<D: Serviceable + GetNameService> ServiceInfoBuilder<D> {
    /// Enables the `get_name` callback.
    pub fn enable_get_name(self) -> (r: Self)
        ensures
            r.spec_callbacks() == (ServiceCallbacks { get_name: true, ..self.spec_callbacks() }),
            r.spec_id() == self.spec_id(),
    {
        let callbacks = ServiceCallbacks { get_name: true, ..self.info.callbacks };
        ServiceInfoBuilder { __data: PhantomData, info: ServiceInfo { callbacks, ..self.info } }
    }
}

impl<D: Serviceable + ActivateService> ServiceInfoBuilder<D> {
    /// Enables the `activate` callback.
    pub fn enable_activate(self) -> (r: Self)
        ensures
            r.spec_callbacks() == (ServiceCallbacks { activate: true, ..self.spec_callbacks() }),
            r.spec_id() == self.spec_id(),
    {
        let callbacks = ServiceCallbacks { activate: true, ..self.info.callbacks };
        ServiceInfoBuilder { __data: PhantomData, info: ServiceInfo { callbacks, ..self.info } }
    }
}

impl<D: Serviceable + UpdateService> ServiceInfoBuilder<D> {
    /// Enables the `update` callback.
    pub fn enable_update(self) -> (r: Self)
        ensures
            r.spec_callbacks() == (ServiceCallbacks { update: true, ..self.spec_callbacks() }),
            r.spec_id() == self.spec_id(),
    {
        let callbacks = ServiceCallbacks { update: true, ..self.info.callbacks };
        ServiceInfoBuilder { __data: PhantomData, info: ServiceInfo { callbacks, ..self.info } }
    }
}

impl<D: Serviceable + GetDefaultsService> ServiceInfoBuilder<D> {
    /// Enables the `get_defaults` callback.
    pub fn enable_get_defaults(self) -> (r: Self)
        ensures
            r.spec_callbacks() == (ServiceCallbacks { get_defaults: true, ..self.spec_callbacks() }),
            r.spec_id() == self.spec_id(),
    {
        let callbacks = ServiceCallbacks { get_defaults: true, ..self.info.callbacks };
        ServiceInfoBuilder { __data: PhantomData, info: ServiceInfo { callbacks, ..self.info } }
    }
}

impl<D: Serviceable + ApplyEncoderSettingsService> ServiceInfoBuilder<D> {
    /// Enables the `apply_encoder_settings` callback.
    pub fn enable_apply_encoder_settings(self) -> (r: Self)
        ensures
            r.spec_callbacks() == (ServiceCallbacks { apply_encoder_settings: true, ..self.spec_callbacks() }),
            r.spec_id() == self.spec_id(),
    {
        let callbacks = ServiceCallbacks { apply_encoder_settings: true, ..self.info.callbacks };
        ServiceInfoBuilder { __data: PhantomData, info: ServiceInfo { callbacks, ..self.info } }
    }
}

impl<D: Serviceable + DeactivateService> ServiceInfoBuilder<D> {
    /// Enables the `deactivate` callback.
    pub fn enable_deactivate(self) -> (r: Self)
        ensures
            r.spec_callbacks() == (ServiceCallbacks { deactivate: true, ..self.spec_callbacks() }),
            r.spec_id() == self.spec_id(),
    {
        let callbacks = ServiceCallbacks { deactivate: true, ..self.info.callbacks };
        ServiceInfoBuilder { __data: PhantomData, info: ServiceInfo { callbacks, ..self.info } }
    }
}

impl<D: Serviceable + GetPropertiesService> ServiceInfoBuilder<D> {
    /// Enables the `get_properties` callback.
    pub fn enable_get_properties(self) -> (r: Self)
        ensures
            r.spec_callbacks() == (ServiceCallbacks { get_properties: true, ..self.spec_callbacks() }),
            r.spec_id() == self.spec_id(),
    {
        let callbacks = ServiceCallbacks { get_properties: true, ..self.info.callbacks };
        ServiceInfoBuilder { __data: PhantomData, info: ServiceInfo { callbacks, ..self.info } }
    }
}

impl<D: Serviceable + GetUrlService> ServiceInfoBuilder<D> {
    /// Enables the `get_url` callback.
    pub fn enable_get_url(self) -> (r: Self)
        ensures
            r.spec_callbacks() == (ServiceCallbacks { get_url: true, ..self.spec_callbacks() }),
            r.spec_id() == self.spec_id(),
    {
        let callbacks = ServiceCallbacks { get_url: true, ..self.info.callbacks };
        ServiceInfoBuilder { __data: PhantomData, info: ServiceInfo { callbacks, ..self.info } }
    }
}

impl<D: Serviceable + GetKeyService> ServiceInfoBuilder<D> {
    /// Enables the `get_key` callback.
    pub fn enable_get_key(self) -> (r: Self)
        ensures
            r.spec_callbacks() == (ServiceCallbacks { get_key: true, ..self.spec_callbacks() }),
            r.spec_id() == self.spec_id(),
    {
        let callbacks = ServiceCallbacks { get_key: true, ..self.info.callbacks };
        ServiceInfoBuilder { __data: PhantomData, info: ServiceInfo { callbacks, ..self.info } }
    }
}

impl<D: Serviceable + GetUsernameService> ServiceInfoBuilder<D> {
    /// Enables the `get_username` callback.
    pub fn enable_get_username(self) -> (r: Self)
        ensures
            r.spec_callbacks() == (ServiceCallbacks { get_username: true, ..self.spec_callbacks() }),
            r.spec_id() == self.spec_id(),
    {
        let callbacks = ServiceCallbacks { get_username: true, ..self.info.callbacks };
        ServiceInfoBuilder { __data: PhantomData, info: ServiceInfo { callbacks, ..self.info } }
    }
}

impl<D: Serviceable + GetPasswordService> ServiceInfoBuilder<D> {
    /// Enables the `get_password` callback.
    pub fn enable_get_password(self) -> (r: Self)
        ensures
            r.spec_callbacks() == (ServiceCallbacks { get_password: true, ..self.spec_callbacks() }),
            r.spec_id() == self.spec_id(),
    {
        let callbacks = ServiceCallbacks { get_password: true, ..self.info.callbacks };
        ServiceInfoBuilder { __data: PhantomData, info: ServiceInfo { callbacks, ..self.info } }
    }
}

impl<D: Serviceable + GetOutputTypeService> ServiceInfoBuilder<D> {
    /// Enables the `get_output_type` callback.
    pub fn enable_get_output_type(self) -> (r: Self)
        ensures
            r.spec_callbacks() == (ServiceCallbacks { get_output_type: true, ..self.spec_callbacks() }),
            r.spec_id() == self.spec_id(),
    {
        let callbacks = ServiceCallbacks { get_output_type: true, ..self.info.callbacks };
        ServiceInfoBuilder { __data: PhantomData, info: ServiceInfo { callbacks, ..self.info } }
    }
}

impl<D: Serviceable + GetSupportedResolutionsService> ServiceInfoBuilder<D> {
    /// Enables the `get_supported_resolutions` callback.
    pub fn enable_get_supported_resolutions(self) -> (r: Self)
        ensures
            r.spec_callbacks() == (ServiceCallbacks { get_supported_resolutions: true, ..self.spec_callbacks() }),
            r.spec_id() == self.spec_id(),
    {
        let callbacks = ServiceCallbacks { get_supported_resolutions: true, ..self.info.callbacks };
        ServiceInfoBuilder { __data: PhantomData, info: ServiceInfo { callbacks, ..self.info } }
    }
}

impl<D: Serviceable + GetMaxFpsService> ServiceInfoBuilder<D> {
    /// Enables the `get_max_fps` callback.
    pub fn enable_get_max_fps(self) -> (r: Self)
        ensures
            r.spec_callbacks() == (ServiceCallbacks { get_max_fps: true, ..self.spec_callbacks() }),
            r.spec_id() == self.spec_id(),
    {
        let callbacks = ServiceCallbacks { get_max_fps: true, ..self.info.callbacks };
        ServiceInfoBuilder { __data: PhantomData, info: ServiceInfo { callbacks, ..self.info } }
    }
}

impl<D: Serviceable + GetMaxBitrateService> ServiceInfoBuilder<D> {
    /// Enables the `get_max_bitrate` callback.
    pub fn enable_get_max_bitrate(self) -> (r: Self)
        ensures
            r.spec_callbacks() == (ServiceCallbacks { get_max_bitrate: true, ..self.spec_callbacks() }),
            r.spec_id() == self.spec_id(),
    {
        let callbacks = ServiceCallbacks { get_max_bitrate: true, ..self.info.callbacks };
        ServiceInfoBuilder { __data: PhantomData, info: ServiceInfo { callbacks, ..self.info } }
    }
}

impl<D: Serviceable + GetSupportedVideoCodecsService> ServiceInfoBuilder<D> {
    /// Enables the `get_supported_video_codecs` callback.
    pub fn enable_get_supported_video_codecs(self) -> (r: Self)
        ensures
            r.spec_callbacks() == (ServiceCallbacks { get_supported_video_codecs: true, ..self.spec_callbacks() }),
            r.spec_id() == self.spec_id(),
    {
        let callbacks = ServiceCallbacks { get_supported_video_codecs: true, ..self.info.callbacks };
        ServiceInfoBuilder { __data: PhantomData, info: ServiceInfo { callbacks, ..self.info } }
    }
}

impl<D: Serviceable + GetProtocolService> ServiceInfoBuilder<D> {
    /// Enables the `get_protocol` callback.
    pub fn enable_get_protocol(self) -> (r: Self)
        ensures
            r.spec_callbacks() == (ServiceCallbacks { get_protocol: true, ..self.spec_callbacks() }),
            r.spec_id() == self.spec_id(),
    {
        let callbacks = ServiceCallbacks { get_protocol: true, ..self.info.callbacks };
        ServiceInfoBuilder { __data: PhantomData, info: ServiceInfo { callbacks, ..self.info } }
    }
}

impl<D: Serviceable + GetSupportedAudioCodecsService> ServiceInfoBuilder<D> {
    /// Enables the `get_supported_audio_codecs` callback.
    pub fn enable_get_supported_audio_codecs(self) -> (r: Self)
        ensures
            r.spec_callbacks() == (ServiceCallbacks { get_supported_audio_codecs: true, ..self.spec_callbacks() }),
            r.spec_id() == self.spec_id(),
    {
        let callbacks = ServiceCallbacks { get_supported_audio_codecs: true, ..self.info.callbacks };
        ServiceInfoBuilder { __data: PhantomData, info: ServiceInfo { callbacks, ..self.info } }
    }
}

impl<D: Serviceable + GetConnectInfoService> ServiceInfoBuilder<D> {
    /// Enables the `get_connect_info` callback.
    pub fn enable_get_connect_info(self) -> (r: Self)
        ensures
            r.spec_callbacks() == (ServiceCallbacks { get_connect_info: true, ..self.spec_callbacks() }),
            r.spec_id() == self.spec_id(),
    {
        let callbacks = ServiceCallbacks { get_connect_info: true, ..self.info.callbacks };
        ServiceInfoBuilder { __data: PhantomData, info: ServiceInfo { callbacks, ..self.info } }
    }
}

impl<D: Serviceable + CanTryToConnectService> ServiceInfoBuilder<D> {
    /// Enables the `can_try_to_connect` callback.
    pub fn enable_can_try_to_connect(self) -> (r: Self)
        ensures
            r.spec_callbacks() == (ServiceCallbacks { can_try_to_connect: true, ..self.spec_callbacks() }),
            r.spec_id() == self.spec_id(),
    {
        let callbacks = ServiceCallbacks { can_try_to_connect: true, ..self.info.callbacks };
        ServiceInfoBuilder { __data: PhantomData, info: ServiceInfo { callbacks, ..self.info } }
    }
}

/// The table handed to OBS for the resolutions a service reports: one raw
/// entry per resolution, in the same order.
pub fn raw_resolutions(resolutions: &Vec<Resolution>) -> (r: Vec<ServiceResolution>)
    ensures
        r.len() == resolutions.len(),
        forall|i: int|
            0 <= i < r.len() ==> #[trigger] r[i] == resolutions[i].spec_into_raw(),
{
    let mut out: Vec<ServiceResolution> = Vec::new();
    let mut i: usize = 0;
    while i < resolutions.len()
        invariant
            i <= resolutions.len(),
            out.len() == i,
            forall|j: int|
                0 <= j < i ==> #[trigger] out[j] == resolutions[j].spec_into_raw(),
        decreases resolutions.len() - i,
    {
        out.push(resolutions[i].into_raw());
        i = i + 1;
    }
    out
}

/// The resolutions a service reports in libobs's table, in the same order
/// (the part of reading a service's supported resolutions after libobs has
/// filled the table).
pub fn resolutions_from_raw(table: &[ServiceResolution]) -> (r: Vec<Resolution>)
    ensures
        r.len() == table@.len(),
        forall|i: int| 0 <= i < r.len() ==> #[trigger] r[i] == Resolution::spec_from_raw(table@[i]),
{
    let mut out: Vec<Resolution> = Vec::new();
    let mut i: usize = 0;
    while i < table.len()
        invariant
            i <= table@.len(),
            out.len() == i,
            forall|j: int|
                0 <= j < i ==> #[trigger] out[j] == Resolution::spec_from_raw(table@[j]),
        decreases table@.len() - i,
    {
        out.push(Resolution::from_raw(table[i]));
        i = i + 1;
    }
    out
}

/// Handing resolutions to libobs and reading libobs's table back gives the
/// same resolutions in the same order.
pub proof fn lemma_resolution_table_roundtrip(v: Seq<Resolution>)
    ensures
        v.map_values(|r: Resolution| r.spec_into_raw()).map_values(
            |raw: ServiceResolution| Resolution::spec_from_raw(raw),
        ) == v,
{
    assert(v.map_values(|r: Resolution| r.spec_into_raw()).map_values(
        |raw: ServiceResolution| Resolution::spec_from_raw(raw),
    ) =~= v);
}

/// A created service: the plugin's instance together with the tables the
/// service callbacks hand to libobs (codec lists and resolutions).
pub struct ServiceInstance<D> {
    /// The plugin's service instance.
    pub data: D,
    /// The video codec ids last reported.
    pub video_codecs: Vec<String>,
    /// The audio codec ids last reported.
    pub audio_codecs: Vec<String>,
    /// The resolutions last reported.
    pub resolutions: Vec<ServiceResolution>,
}

/// The instance a create hook's result gives: the value with empty tables
/// on success, and none on failure.
pub fn instance_from_result<D>(result: Result<D, CreateError>) -> (r: Option<ServiceInstance<D>>)
    ensures
        match result {
            Ok(d) => r matches Some(w) && w.data == d && w.video_codecs@.len() == 0
                && w.audio_codecs@.len() == 0 && w.resolutions@.len() == 0,
            Err(_) => r is None,
        },
{
    match result {
        Ok(data) => Some(
            ServiceInstance {
                data,
                video_codecs: Vec::new(),
                audio_codecs: Vec::new(),
                resolutions: Vec::new(),
            },
        ),
        Err(_) => None,
    }
}

/// What OBS's create call for a service comes to: with no settings or no
/// service handle nothing is created; otherwise `D`'s create hook runs
/// once, on a context carrying the settings, and its result decides as
/// [`instance_from_result`] says.
pub fn create_instance<D: Serviceable>(settings: Option<Settings>, handle: Option<ServiceRef>) -> (r:
    Option<ServiceInstance<D>>)
    ensures
        settings is None || handle is None ==> r is None,
        r matches Some(w) ==> w.video_codecs@.len() == 0 && w.audio_codecs@.len() == 0
            && w.resolutions@.len() == 0,
{
    let settings = match settings {
        Some(s) => s,
        None => {
            return None;
        },
    };
    let handle = match handle {
        Some(h) => h,
        None => {
            return None;
        },
    };
    let mut context = CreatableServiceContext::from_raw(settings);
    let result = D::create(&mut context, handle);
    instance_from_result(result)
}

} // verus!
