//! Building blocks for authoring custom OBS sources: source kinds, icons,
//! mouse buttons, and the registration record built from the callbacks a
//! source implements, with the `output_flags` derived from them.
//!
//! Asynchronous push-style sources (capture device workers, network
//! receivers) are described in [`push`].

pub mod context;
pub mod push;
pub mod traits;

use std::marker::PhantomData;

use vstd::prelude::*;

use crate::native::UnknownNativeValue;
use self::traits::{
    ActivateSource, AudioRenderSource, DeactivateSource, EnumActiveSource, EnumAllSource,
    FilterAudioSource, FilterVideoSource, FocusSource, GetDefaultsSource, GetHeightSource,
    GetNameSource, GetPropertiesSource, GetWidthSource, KeyClickSource, MediaGetDurationSource,
    MediaGetStateSource, MediaGetTimeSource, MediaNextSource, MediaPlayPauseSource,
    MediaPreviousSource, MediaRestartSource, MediaSetTimeSource, MediaStopSource, MouseClickSource,
    MouseMoveSource, MouseWheelSource, Sourceable, TransitionStartSource, TransitionStopSource,
    UpdateSource, VideoRenderSource,
};

verus! {

/// A handle to a live OBS source (libobs `obs_source_t`), by libobs's address of it.
#[derive(Debug, PartialEq, Eq, Structural)]
pub struct SourceRef {
    raw: usize,
}

impl SourceRef {
    /// libobs's address of the object.
    pub closed spec fn spec_raw(&self) -> usize {
        self.raw
    }

    /// The handle for libobs address `raw`; a null address gives none.
    pub fn from_raw(raw: usize) -> (r: Option<SourceRef>)
        ensures
            r is None <==> raw == 0,
            r matches Some(h) ==> h.spec_raw() == raw,
    {
        if raw == 0 {
            None
        } else {
            Some(SourceRef { raw })
        }
    }

    /// libobs's address of the object.
    pub fn as_raw(&self) -> (r: usize)
        ensures
            r == self.spec_raw(),
    {
        self.raw
    }

    /// Returns a process-stable identifier for this source, derived from
    /// libobs's address of it: identical for any two handles to the same
    /// OBS source.
    pub fn id(&self) -> (r: usize)
        ensures
            r == self.spec_raw(),
    {
        self.raw
    }
}

/// Two source handles have the same identifier exactly when they are
/// handles to the same OBS source (the same libobs address).
pub proof fn lemma_source_id_identifies(a: SourceRef, b: SourceRef)
    ensures
        (a.spec_raw() == b.spec_raw()) <==> a == b,
{
}

/// A mouse button, mirroring libobs's `obs_mouse_button_type`.
#[derive(Debug, Clone, Copy, PartialEq, Eq, Structural)]
pub enum MouseButton {
    Left,
    Middle,
    Right,
}

impl MouseButton {
    /// The libobs enumerant of this value.
    pub open spec fn spec_raw(self) -> u32 {
        match self {
            MouseButton::Left => 0,
            MouseButton::Middle => 1,
            MouseButton::Right => 2,
        }
    }

    /// The value whose enumerant is `raw`, if there is one.
    pub open spec fn spec_from_raw(raw: u32) -> Option<MouseButton> {
        if raw == 0 {
            Some(MouseButton::Left)
        } else if raw == 1 {
            Some(MouseButton::Middle)
        } else if raw == 2 {
            Some(MouseButton::Right)
        } else {
            None
        }
    }

    /// Converts to the underlying libobs enumerant.
    pub fn as_raw(self) -> (r: u32)
        ensures
            r == self.spec_raw(),
    {
        match self {
            MouseButton::Left => 0,
            MouseButton::Middle => 1,
            MouseButton::Right => 2,
        }
    }

    /// Maps a libobs enumerant to a value; unknown enumerants are returned
    /// in the error.
    pub fn from_raw(raw: u32) -> (r: Result<MouseButton, UnknownNativeValue>)
        ensures
            match r {
                Ok(v) => Self::spec_from_raw(raw) == Some(v),
                Err(e) => Self::spec_from_raw(raw) is None && e.raw == raw,
            },
    {
        match raw {
            0 => Ok(MouseButton::Left),
            1 => Ok(MouseButton::Middle),
            2 => Ok(MouseButton::Right),
            _ => Err(UnknownNativeValue { raw }),
        }
    }
}

/// Converting a value to its enumerant and back gives the same value, and
/// an enumerant that names a value is that value's enumerant.
pub proof fn lemma_mouse_button_raw_roundtrip(v: MouseButton, raw: u32)
    ensures
        MouseButton::spec_from_raw(v.spec_raw()) == Some(v),
        MouseButton::spec_from_raw(raw) matches Some(w) ==> w.spec_raw() == raw,
{
}
/// The icon shown for a source type in the OBS source picker.
#[derive(Debug, Clone, Copy, PartialEq, Eq, Structural)]
pub enum Icon {
    Unknown,
    Image,
    Color,
    Slideshow,
    AudioInput,
    AudioOutput,
    DesktopCapture,
    WindowCapture,
    GameCapture,
    Camera,
    Text,
    Media,
    Browser,
    Custom,
}

impl Icon {
    /// The libobs enumerant of this value.
    pub open spec fn spec_raw(self) -> u32 {
        match self {
            Icon::Unknown => 0,
            Icon::Image => 1,
            Icon::Color => 2,
            Icon::Slideshow => 3,
            Icon::AudioInput => 4,
            Icon::AudioOutput => 5,
            Icon::DesktopCapture => 6,
            Icon::WindowCapture => 7,
            Icon::GameCapture => 8,
            Icon::Camera => 9,
            Icon::Text => 10,
            Icon::Media => 11,
            Icon::Browser => 12,
            Icon::Custom => 13,
        }
    }

    /// The value whose enumerant is `raw`, if there is one.
    pub open spec fn spec_from_raw(raw: u32) -> Option<Icon> {
        if raw == 0 {
            Some(Icon::Unknown)
        } else if raw == 1 {
            Some(Icon::Image)
        } else if raw == 2 {
            Some(Icon::Color)
        } else if raw == 3 {
            Some(Icon::Slideshow)
        } else if raw == 4 {
            Some(Icon::AudioInput)
        } else if raw == 5 {
            Some(Icon::AudioOutput)
        } else if raw == 6 {
            Some(Icon::DesktopCapture)
        } else if raw == 7 {
            Some(Icon::WindowCapture)
        } else if raw == 8 {
            Some(Icon::GameCapture)
        } else if raw == 9 {
            Some(Icon::Camera)
        } else if raw == 10 {
            Some(Icon::Text)
        } else if raw == 11 {
            Some(Icon::Media)
        } else if raw == 12 {
            Some(Icon::Browser)
        } else if raw == 13 {
            Some(Icon::Custom)
        } else {
            None
        }
    }

    /// Converts to the underlying libobs enumerant.
    pub fn as_raw(self) -> (r: u32)
        ensures
            r == self.spec_raw(),
    {
        match self {
            Icon::Unknown => 0,
            Icon::Image => 1,
            Icon::Color => 2,
            Icon::Slideshow => 3,
            Icon::AudioInput => 4,
            Icon::AudioOutput => 5,
            Icon::DesktopCapture => 6,
            Icon::WindowCapture => 7,
            Icon::GameCapture => 8,
            Icon::Camera => 9,
            Icon::Text => 10,
            Icon::Media => 11,
            Icon::Browser => 12,
            Icon::Custom => 13,
        }
    }

    /// Maps a libobs enumerant to a value; unknown enumerants are returned
    /// in the error.
    pub fn from_raw(raw: u32) -> (r: Result<Icon, UnknownNativeValue>)
        ensures
            match r {
                Ok(v) => Self::spec_from_raw(raw) == Some(v),
                Err(e) => Self::spec_from_raw(raw) is None && e.raw == raw,
            },
    {
        match raw {
            0 => Ok(Icon::Unknown),
            1 => Ok(Icon::Image),
            2 => Ok(Icon::Color),
            3 => Ok(Icon::Slideshow),
            4 => Ok(Icon::AudioInput),
            5 => Ok(Icon::AudioOutput),
            6 => Ok(Icon::DesktopCapture),
            7 => Ok(Icon::WindowCapture),
            8 => Ok(Icon::GameCapture),
            9 => Ok(Icon::Camera),
            10 => Ok(Icon::Text),
            11 => Ok(Icon::Media),
            12 => Ok(Icon::Browser),
            13 => Ok(Icon::Custom),
            _ => Err(UnknownNativeValue { raw }),
        }
    }
}

/// Converting a value to its enumerant and back gives the same value, and
/// an enumerant that names a value is that value's enumerant.
pub proof fn lemma_icon_raw_roundtrip(v: Icon, raw: u32)
    ensures
        Icon::spec_from_raw(v.spec_raw()) == Some(v),
        Icon::spec_from_raw(raw) matches Some(w) ==> w.spec_raw() == raw,
{
}
/// The role a source plays in the OBS pipeline.
#[derive(Debug, Clone, Copy, PartialEq, Eq, Structural)]
pub enum SourceType {
    /// A standalone input that produces video and/or audio.
    Input,
    /// A scene composed of one or more sources.
    Scene,
    /// A filter that transforms another source's output.
    Filter,
    /// A transition between scenes.
    Transition,
}

impl SourceType {
    /// The libobs enumerant of this value.
    pub open spec fn spec_raw(self) -> u32 {
        match self {
            SourceType::Input => 0,
            SourceType::Scene => 3,
            SourceType::Filter => 1,
            SourceType::Transition => 2,
        }
    }

    /// The value whose enumerant is `raw`, if there is one.
    pub open spec fn spec_from_raw(raw: u32) -> Option<SourceType> {
        if raw == 0 {
            Some(SourceType::Input)
        } else if raw == 3 {
            Some(SourceType::Scene)
        } else if raw == 1 {
            Some(SourceType::Filter)
        } else if raw == 2 {
            Some(SourceType::Transition)
        } else {
            None
        }
    }

    /// Converts to the underlying libobs enumerant.
    pub fn as_raw(self) -> (r: u32)
        ensures
            r == self.spec_raw(),
    {
        match self {
            SourceType::Input => 0,
            SourceType::Scene => 3,
            SourceType::Filter => 1,
            SourceType::Transition => 2,
        }
    }

    /// Maps a libobs enumerant to a value; unknown enumerants are returned
    /// in the error.
    pub fn from_raw(raw: u32) -> (r: Result<SourceType, UnknownNativeValue>)
        ensures
            match r {
                Ok(v) => Self::spec_from_raw(raw) == Some(v),
                Err(e) => Self::spec_from_raw(raw) is None && e.raw == raw,
            },
    {
        match raw {
            0 => Ok(SourceType::Input),
            3 => Ok(SourceType::Scene),
            1 => Ok(SourceType::Filter),
            2 => Ok(SourceType::Transition),
            _ => Err(UnknownNativeValue { raw }),
        }
    }
}

/// Converting a value to its enumerant and back gives the same value, and
/// an enumerant that names a value is that value's enumerant.
pub proof fn lemma_source_type_raw_roundtrip(v: SourceType, raw: u32)
    ensures
        SourceType::spec_from_raw(v.spec_raw()) == Some(v),
        SourceType::spec_from_raw(raw) matches Some(w) ==> w.spec_raw() == raw,
{
}

/// Marker context passed to [`EnumActiveSource::enum_active_sources`].
#[derive(Debug, Clone, Copy, PartialEq, Eq, Structural)]
pub struct EnumActiveContext {}

/// Marker context passed to [`EnumAllSource::enum_all_sources`].
#[derive(Debug, Clone, Copy, PartialEq, Eq, Structural)]
pub struct EnumAllContext {}

/// libobs's `OBS_SOURCE_VIDEO`.
pub const OBS_SOURCE_VIDEO: u32 = 1;
/// libobs's `OBS_SOURCE_AUDIO`.
pub const OBS_SOURCE_AUDIO: u32 = 2;
/// libobs's `OBS_SOURCE_ASYNC`.
pub const OBS_SOURCE_ASYNC: u32 = 4;
/// libobs's `OBS_SOURCE_ASYNC_VIDEO` (`OBS_SOURCE_ASYNC | OBS_SOURCE_VIDEO`).
pub const OBS_SOURCE_ASYNC_VIDEO: u32 = 5;
/// libobs's `OBS_SOURCE_INTERACTION`.
pub const OBS_SOURCE_INTERACTION: u32 = 32;
/// libobs's `OBS_SOURCE_CONTROLLABLE_MEDIA`.
pub const OBS_SOURCE_CONTROLLABLE_MEDIA: u32 = 8192;

/// Which optional callbacks a source registration wires up.
#[derive(Debug, Clone, Copy, PartialEq, Eq, Structural)]
pub struct SourceCallbacks {
    pub get_name: bool,
    pub get_width: bool,
    pub get_height: bool,
    pub activate: bool,
    pub deactivate: bool,
    pub update: bool,
    pub video_render: bool,
    pub audio_render: bool,
    pub get_properties: bool,
    pub enum_active_sources: bool,
    pub enum_all_sources: bool,
    pub transition_start: bool,
    pub transition_stop: bool,
    pub video_tick: bool,
    pub filter_audio: bool,
    pub filter_video: bool,
    pub get_defaults: bool,
    pub media_play_pause: bool,
    pub media_restart: bool,
    pub media_stop: bool,
    pub media_next: bool,
    pub media_previous: bool,
    pub media_get_duration: bool,
    pub media_get_time: bool,
    pub media_set_time: bool,
    pub media_get_state: bool,
    pub mouse_wheel: bool,
    pub mouse_click: bool,
    pub mouse_move: bool,
    pub key_click: bool,
    pub focus: bool,
}

impl SourceCallbacks {
    /// No optional callback.
    pub fn none() -> (r: Self)
        ensures
            r == Self::spec_none(),
    {
        SourceCallbacks {
            get_name: false,
            get_width: false,
            get_height: false,
            activate: false,
            deactivate: false,
            update: false,
            video_render: false,
            audio_render: false,
            get_properties: false,
            enum_active_sources: false,
            enum_all_sources: false,
            transition_start: false,
            transition_stop: false,
            video_tick: false,
            filter_audio: false,
            filter_video: false,
            get_defaults: false,
            media_play_pause: false,
            media_restart: false,
            media_stop: false,
            media_next: false,
            media_previous: false,
            media_get_duration: false,
            media_get_time: false,
            media_set_time: false,
            media_get_state: false,
            mouse_wheel: false,
            mouse_click: false,
            mouse_move: false,
            key_click: false,
            focus: false,
        }
    }

    /// No optional callback.
    pub open spec fn spec_none() -> Self {
        SourceCallbacks {
            get_name: false,
            get_width: false,
            get_height: false,
            activate: false,
            deactivate: false,
            update: false,
            video_render: false,
            audio_render: false,
            get_properties: false,
            enum_active_sources: false,
            enum_all_sources: false,
            transition_start: false,
            transition_stop: false,
            video_tick: false,
            filter_audio: false,
            filter_video: false,
            get_defaults: false,
            media_play_pause: false,
            media_restart: false,
            media_stop: false,
            media_next: false,
            media_previous: false,
            media_get_duration: false,
            media_get_time: false,
            media_set_time: false,
            media_get_state: false,
            mouse_wheel: false,
            mouse_click: false,
            mouse_move: false,
            key_click: false,
            focus: false,
        }
    }
}

/// The `output_flags` that [`SourceInfoBuilder::build`] adds for the
/// enabled callbacks: video for a render callback, audio for audio
/// rendering or filtering, controllable media for media state or
/// play/pause, and interaction for any mouse, key or focus callback.
pub open spec fn derived_source_flags(c: SourceCallbacks) -> u32 {
    (if c.video_render {
        OBS_SOURCE_VIDEO
    } else {
        0u32
    }) | (if c.audio_render || c.filter_audio {
        OBS_SOURCE_AUDIO
    } else {
        0u32
    }) | (if c.media_get_state || c.media_play_pause {
        OBS_SOURCE_CONTROLLABLE_MEDIA
    } else {
        0u32
    }) | (if c.mouse_click || c.mouse_move || c.mouse_wheel || c.focus || c.key_click {
        OBS_SOURCE_INTERACTION
    } else {
        0u32
    })
}

/// A fully-configured source registration, ready to be handed to OBS.
///
/// Produced by [`SourceInfoBuilder::build`].
#[derive(Debug, Clone, Copy)]
pub struct SourceInfo {
    /// The source's identifier.
    pub id: &'static str,
    /// The role the source plays.
    pub source_type: SourceType,
    /// The icon shown in the source picker.
    pub icon: Icon,
    /// libobs's `OBS_SOURCE_*` flags.
    pub output_flags: u32,
    /// The optional callbacks it wires up.
    pub callbacks: SourceCallbacks,
}

impl SourceInfo {
    /// Sets the icon shown in the OBS source-picker UI.
    pub fn set_icon(&mut self, icon: Icon)
        ensures
            final(self).icon == icon,
            final(self).id == old(self).id,
            final(self).source_type == old(self).source_type,
            final(self).output_flags == old(self).output_flags,
            final(self).callbacks == old(self).callbacks,
    {
        self.icon = icon;
    }
}

/// Builder that wires up the OBS callbacks for a custom source `D`.
///
/// Call the matching `enable_*` method for each optional trait implemented
/// on `D`; each is bounded on that trait, so the compiler refuses to enable
/// a callback the source cannot service. Finalize with [`build`](Self::build).
pub struct SourceInfoBuilder<D: Sourceable> {
    __data: PhantomData<D>,
    info: SourceInfo,
}

impl<D: Sourceable> SourceInfoBuilder<D> {
    /// The icon chosen so far.
    pub closed spec fn spec_icon(&self) -> Icon {
        self.info.icon
    }

    /// The identifier the registration carries.
    pub closed spec fn spec_id(&self) -> &'static str {
        self.info.id
    }

    /// The role the registration declares.
    pub closed spec fn spec_source_type(&self) -> SourceType {
        self.info.source_type
    }

    /// The flags set so far (before those derived from callbacks).
    pub closed spec fn spec_flags(&self) -> u32 {
        self.info.output_flags
    }

    /// The callbacks enabled so far.
    pub closed spec fn spec_callbacks(&self) -> SourceCallbacks {
        self.info.callbacks
    }

    /// A builder for `D` with no flags and no optional callback.
    pub fn new() -> (r: Self)
        ensures
            r.spec_flags() == 0,
            r.spec_callbacks() == SourceCallbacks::spec_none(),
            r.spec_icon() == Icon::Unknown,
    {
        SourceInfoBuilder {
            __data: PhantomData,
            info: SourceInfo {
                id: D::get_id(),
                source_type: D::get_type(),
                icon: Icon::Unknown,
                output_flags: 0,
                callbacks: SourceCallbacks::none(),
            },
        }
    }

    /// Finalizes the builder into a [`SourceInfo`]. The flags set so far
    /// are kept and the flags derived from the enabled callbacks are added.
    pub fn build(self) -> (r: SourceInfo)
        ensures
            r.output_flags == self.spec_flags() | derived_source_flags(self.spec_callbacks()),
            r.callbacks == self.spec_callbacks(),
            r.icon == self.spec_icon(),
            r.id == self.spec_id(),
            r.source_type == self.spec_source_type(),
    {
        let c = self.info.callbacks;
        let video: u32 = if c.video_render {
            OBS_SOURCE_VIDEO
        } else {
            0
        };
        let audio: u32 = if c.audio_render || c.filter_audio {
            OBS_SOURCE_AUDIO
        } else {
            0
        };
        let media: u32 = if c.media_get_state || c.media_play_pause {
            OBS_SOURCE_CONTROLLABLE_MEDIA
        } else {
            0
        };
        let interaction: u32 = if c.mouse_click || c.mouse_move || c.mouse_wheel || c.focus
            || c.key_click {
            OBS_SOURCE_INTERACTION
        } else {
            0
        };
        let mut info = self.info;
        info.output_flags = info.output_flags | (video | audio | media | interaction);
        info
    }

    /// Sets the icon shown in the OBS source-picker UI.
    pub fn with_icon(self, icon: Icon) -> (r: Self)
        ensures
            r.spec_icon() == icon,
            r.spec_id() == self.spec_id(),
            r.spec_source_type() == self.spec_source_type(),
            r.spec_flags() == self.spec_flags(),
            r.spec_callbacks() == self.spec_callbacks(),
    {
        let mut this = self;
        this.info.icon = icon;
        this
    }

    /// Marks this source as an asynchronous video input (sets
    /// `OBS_SOURCE_ASYNC_VIDEO`). Async sources must not also implement
    /// [`VideoRenderSource`].
    pub fn enable_async_video(self) -> (r: Self)
        ensures
            r.spec_flags() == self.spec_flags() | OBS_SOURCE_ASYNC_VIDEO,
            r.spec_icon() == self.spec_icon(),
            r.spec_id() == self.spec_id(),
            r.spec_source_type() == self.spec_source_type(),
            r.spec_callbacks() == self.spec_callbacks(),
    {
        let mut this = self;
        this.info.output_flags = this.info.output_flags | OBS_SOURCE_ASYNC_VIDEO;
        this
    }

    /// Marks this source as an audio input (sets `OBS_SOURCE_AUDIO`).
    pub fn enable_async_audio(self) -> (r: Self)
        ensures
            r.spec_flags() == self.spec_flags() | OBS_SOURCE_AUDIO,
            r.spec_icon() == self.spec_icon(),
            r.spec_id() == self.spec_id(),
            r.spec_source_type() == self.spec_source_type(),
            r.spec_callbacks() == self.spec_callbacks(),
    {
        let mut this = self;
        this.info.output_flags = this.info.output_flags | OBS_SOURCE_AUDIO;
        this
    }
}

impl<D: Sourceable + GetNameSource> SourceInfoBuilder<D> {
    /// Enables the `get_name` callback.
    pub fn enable_get_name(self) -> (r: Self)
        ensures
            r.spec_callbacks() == (SourceCallbacks { get_name: true, ..self.spec_callbacks() }),
            r.spec_flags() == self.spec_flags(),
            r.spec_icon() == self.spec_icon(),
            r.spec_id() == self.spec_id(),
            r.spec_source_type() == self.spec_source_type(),
    {
        let callbacks = SourceCallbacks { get_name: true, ..self.info.callbacks };
        SourceInfoBuilder { __data: PhantomData, info: SourceInfo { callbacks, ..self.info } }
    }
}

impl<D: Sourceable + GetWidthSource> SourceInfoBuilder<D> {
    /// Enables the `get_width` callback.
    pub fn enable_get_width(self) -> (r: Self)
        ensures
            r.spec_callbacks() == (SourceCallbacks { get_width: true, ..self.spec_callbacks() }),
            r.spec_flags() == self.spec_flags(),
            r.spec_icon() == self.spec_icon(),
            r.spec_id() == self.spec_id(),
            r.spec_source_type() == self.spec_source_type(),
    {
        let callbacks = SourceCallbacks { get_width: true, ..self.info.callbacks };
        SourceInfoBuilder { __data: PhantomData, info: SourceInfo { callbacks, ..self.info } }
    }
}

impl<D: Sourceable + GetHeightSource> SourceInfoBuilder<D> {
    /// Enables the `get_height` callback.
    pub fn enable_get_height(self) -> (r: Self)
        ensures
            r.spec_callbacks() == (SourceCallbacks { get_height: true, ..self.spec_callbacks() }),
            r.spec_flags() == self.spec_flags(),
            r.spec_icon() == self.spec_icon(),
            r.spec_id() == self.spec_id(),
            r.spec_source_type() == self.spec_source_type(),
    {
        let callbacks = SourceCallbacks { get_height: true, ..self.info.callbacks };
        SourceInfoBuilder { __data: PhantomData, info: SourceInfo { callbacks, ..self.info } }
    }
}

impl<D: Sourceable + ActivateSource> SourceInfoBuilder<D> {
    /// Enables the `activate` callback.
    pub fn enable_activate(self) -> (r: Self)
        ensures
            r.spec_callbacks() == (SourceCallbacks { activate: true, ..self.spec_callbacks() }),
            r.spec_flags() == self.spec_flags(),
            r.spec_icon() == self.spec_icon(),
            r.spec_id() == self.spec_id(),
            r.spec_source_type() == self.spec_source_type(),
    {
        let callbacks = SourceCallbacks { activate: true, ..self.info.callbacks };
        SourceInfoBuilder { __data: PhantomData, info: SourceInfo { callbacks, ..self.info } }
    }
}

impl<D: Sourceable + DeactivateSource> SourceInfoBuilder<D> {
    /// Enables the `deactivate` callback.
    pub fn enable_deactivate(self) -> (r: Self)
        ensures
            r.spec_callbacks() == (SourceCallbacks { deactivate: true, ..self.spec_callbacks() }),
            r.spec_flags() == self.spec_flags(),
            r.spec_icon() == self.spec_icon(),
            r.spec_id() == self.spec_id(),
            r.spec_source_type() == self.spec_source_type(),
    {
        let callbacks = SourceCallbacks { deactivate: true, ..self.info.callbacks };
        SourceInfoBuilder { __data: PhantomData, info: SourceInfo { callbacks, ..self.info } }
    }
}

impl<D: Sourceable + VideoRenderSource> SourceInfoBuilder<D> {
    /// Enables the `video_render` callback.
    pub fn enable_video_render(self) -> (r: Self)
        ensures
            r.spec_callbacks() == (SourceCallbacks { video_render: true, ..self.spec_callbacks() }),
            r.spec_flags() == self.spec_flags(),
            r.spec_icon() == self.spec_icon(),
            r.spec_id() == self.spec_id(),
            r.spec_source_type() == self.spec_source_type(),
    {
        let callbacks = SourceCallbacks { video_render: true, ..self.info.callbacks };
        SourceInfoBuilder { __data: PhantomData, info: SourceInfo { callbacks, ..self.info } }
    }
}

impl<D: Sourceable + FilterAudioSource> SourceInfoBuilder<D> {
    /// Enables the `filter_audio` callback.
    pub fn enable_filter_audio(self) -> (r: Self)
        ensures
            r.spec_callbacks() == (SourceCallbacks { filter_audio: true, ..self.spec_callbacks() }),
            r.spec_flags() == self.spec_flags(),
            r.spec_icon() == self.spec_icon(),
            r.spec_id() == self.spec_id(),
            r.spec_source_type() == self.spec_source_type(),
    {
        let callbacks = SourceCallbacks { filter_audio: true, ..self.info.callbacks };
        SourceInfoBuilder { __data: PhantomData, info: SourceInfo { callbacks, ..self.info } }
    }
}

impl<D: Sourceable + FilterVideoSource> SourceInfoBuilder<D> {
    /// Enables the `filter_video` callback.
    pub fn enable_filter_video(self) -> (r: Self)
        ensures
            r.spec_callbacks() == (SourceCallbacks { filter_video: true, ..self.spec_callbacks() }),
            r.spec_flags() == self.spec_flags(),
            r.spec_icon() == self.spec_icon(),
            r.spec_id() == self.spec_id(),
            r.spec_source_type() == self.spec_source_type(),
    {
        let callbacks = SourceCallbacks { filter_video: true, ..self.info.callbacks };
        SourceInfoBuilder { __data: PhantomData, info: SourceInfo { callbacks, ..self.info } }
    }
}

impl<D: Sourceable + AudioRenderSource> SourceInfoBuilder<D> {
    /// Enables the `audio_render` callback.
    pub fn enable_audio_render(self) -> (r: Self)
        ensures
            r.spec_callbacks() == (SourceCallbacks { audio_render: true, ..self.spec_callbacks() }),
            r.spec_flags() == self.spec_flags(),
            r.spec_icon() == self.spec_icon(),
            r.spec_id() == self.spec_id(),
            r.spec_source_type() == self.spec_source_type(),
    {
        let callbacks = SourceCallbacks { audio_render: true, ..self.info.callbacks };
        SourceInfoBuilder { __data: PhantomData, info: SourceInfo { callbacks, ..self.info } }
    }
}

impl<D: Sourceable + GetPropertiesSource> SourceInfoBuilder<D> {
    /// Enables the `get_properties` callback.
    pub fn enable_get_properties(self) -> (r: Self)
        ensures
            r.spec_callbacks() == (SourceCallbacks { get_properties: true, ..self.spec_callbacks() }),
            r.spec_flags() == self.spec_flags(),
            r.spec_icon() == self.spec_icon(),
            r.spec_id() == self.spec_id(),
            r.spec_source_type() == self.spec_source_type(),
    {
        let callbacks = SourceCallbacks { get_properties: true, ..self.info.callbacks };
        SourceInfoBuilder { __data: PhantomData, info: SourceInfo { callbacks, ..self.info } }
    }
}

impl<D: Sourceable + EnumActiveSource> SourceInfoBuilder<D> {
    /// Enables the `enum_active_sources` callback.
    pub fn enable_enum_active_sources(self) -> (r: Self)
        ensures
            r.spec_callbacks() == (SourceCallbacks { enum_active_sources: true, ..self.spec_callbacks() }),
            r.spec_flags() == self.spec_flags(),
            r.spec_icon() == self.spec_icon(),
            r.spec_id() == self.spec_id(),
            r.spec_source_type() == self.spec_source_type(),
    {
        let callbacks = SourceCallbacks { enum_active_sources: true, ..self.info.callbacks };
        SourceInfoBuilder { __data: PhantomData, info: SourceInfo { callbacks, ..self.info } }
    }
}

impl<D: Sourceable + EnumAllSource> SourceInfoBuilder<D> {
    /// Enables the `enum_all_sources` callback.
    pub fn enable_enum_all_sources(self) -> (r: Self)
        ensures
            r.spec_callbacks() == (SourceCallbacks { enum_all_sources: true, ..self.spec_callbacks() }),
            r.spec_flags() == self.spec_flags(),
            r.spec_icon() == self.spec_icon(),
            r.spec_id() == self.spec_id(),
            r.spec_source_type() == self.spec_source_type(),
    {
        let callbacks = SourceCallbacks { enum_all_sources: true, ..self.info.callbacks };
        SourceInfoBuilder { __data: PhantomData, info: SourceInfo { callbacks, ..self.info } }
    }
}

impl<D: Sourceable + TransitionStartSource> SourceInfoBuilder<D> {
    /// Enables the `transition_start` callback.
    pub fn enable_transition_start(self) -> (r: Self)
        ensures
            r.spec_callbacks() == (SourceCallbacks { transition_start: true, ..self.spec_callbacks() }),
            r.spec_flags() == self.spec_flags(),
            r.spec_icon() == self.spec_icon(),
            r.spec_id() == self.spec_id(),
            r.spec_source_type() == self.spec_source_type(),
    {
        let callbacks = SourceCallbacks { transition_start: true, ..self.info.callbacks };
        SourceInfoBuilder { __data: PhantomData, info: SourceInfo { callbacks, ..self.info } }
    }
}

impl<D: Sourceable + TransitionStopSource> SourceInfoBuilder<D> {
    /// Enables the `transition_stop` callback.
    pub fn enable_transition_stop(self) -> (r: Self)
        ensures
            r.spec_callbacks() == (SourceCallbacks { transition_stop: true, ..self.spec_callbacks() }),
            r.spec_flags() == self.spec_flags(),
            r.spec_icon() == self.spec_icon(),
            r.spec_id() == self.spec_id(),
            r.spec_source_type() == self.spec_source_type(),
    {
        let callbacks = SourceCallbacks { transition_stop: true, ..self.info.callbacks };
        SourceInfoBuilder { __data: PhantomData, info: SourceInfo { callbacks, ..self.info } }
    }
}

impl<D: Sourceable + MediaPlayPauseSource> SourceInfoBuilder<D> {
    /// Enables the `media_play_pause` callback.
    pub fn enable_media_play_pause(self) -> (r: Self)
        ensures
            r.spec_callbacks() == (SourceCallbacks { media_play_pause: true, ..self.spec_callbacks() }),
            r.spec_flags() == self.spec_flags(),
            r.spec_icon() == self.spec_icon(),
            r.spec_id() == self.spec_id(),
            r.spec_source_type() == self.spec_source_type(),
    {
        let callbacks = SourceCallbacks { media_play_pause: true, ..self.info.callbacks };
        SourceInfoBuilder { __data: PhantomData, info: SourceInfo { callbacks, ..self.info } }
    }
}

impl<D: Sourceable + MediaRestartSource> SourceInfoBuilder<D> {
    /// Enables the `media_restart` callback.
    pub fn enable_media_restart(self) -> (r: Self)
        ensures
            r.spec_callbacks() == (SourceCallbacks { media_restart: true, ..self.spec_callbacks() }),
            r.spec_flags() == self.spec_flags(),
            r.spec_icon() == self.spec_icon(),
            r.spec_id() == self.spec_id(),
            r.spec_source_type() == self.spec_source_type(),
    {
        let callbacks = SourceCallbacks { media_restart: true, ..self.info.callbacks };
        SourceInfoBuilder { __data: PhantomData, info: SourceInfo { callbacks, ..self.info } }
    }
}

impl<D: Sourceable + MediaStopSource> SourceInfoBuilder<D> {
    /// Enables the `media_stop` callback.
    pub fn enable_media_stop(self) -> (r: Self)
        ensures
            r.spec_callbacks() == (SourceCallbacks { media_stop: true, ..self.spec_callbacks() }),
            r.spec_flags() == self.spec_flags(),
            r.spec_icon() == self.spec_icon(),
            r.spec_id() == self.spec_id(),
            r.spec_source_type() == self.spec_source_type(),
    {
        let callbacks = SourceCallbacks { media_stop: true, ..self.info.callbacks };
        SourceInfoBuilder { __data: PhantomData, info: SourceInfo { callbacks, ..self.info } }
    }
}

impl<D: Sourceable + MediaNextSource> SourceInfoBuilder<D> {
    /// Enables the `media_next` callback.
    pub fn enable_media_next(self) -> (r: Self)
        ensures
            r.spec_callbacks() == (SourceCallbacks { media_next: true, ..self.spec_callbacks() }),
            r.spec_flags() == self.spec_flags(),
            r.spec_icon() == self.spec_icon(),
            r.spec_id() == self.spec_id(),
            r.spec_source_type() == self.spec_source_type(),
    {
        let callbacks = SourceCallbacks { media_next: true, ..self.info.callbacks };
        SourceInfoBuilder { __data: PhantomData, info: SourceInfo { callbacks, ..self.info } }
    }
}

impl<D: Sourceable + MediaPreviousSource> SourceInfoBuilder<D> {
    /// Enables the `media_previous` callback.
    pub fn enable_media_previous(self) -> (r: Self)
        ensures
            r.spec_callbacks() == (SourceCallbacks { media_previous: true, ..self.spec_callbacks() }),
            r.spec_flags() == self.spec_flags(),
            r.spec_icon() == self.spec_icon(),
            r.spec_id() == self.spec_id(),
            r.spec_source_type() == self.spec_source_type(),
    {
        let callbacks = SourceCallbacks { media_previous: true, ..self.info.callbacks };
        SourceInfoBuilder { __data: PhantomData, info: SourceInfo { callbacks, ..self.info } }
    }
}

impl<D: Sourceable + MediaGetDurationSource> SourceInfoBuilder<D> {
    /// Enables the `media_get_duration` callback.
    pub fn enable_media_get_duration(self) -> (r: Self)
        ensures
            r.spec_callbacks() == (SourceCallbacks { media_get_duration: true, ..self.spec_callbacks() }),
            r.spec_flags() == self.spec_flags(),
            r.spec_icon() == self.spec_icon(),
            r.spec_id() == self.spec_id(),
            r.spec_source_type() == self.spec_source_type(),
    {
        let callbacks = SourceCallbacks { media_get_duration: true, ..self.info.callbacks };
        SourceInfoBuilder { __data: PhantomData, info: SourceInfo { callbacks, ..self.info } }
    }
}

impl<D: Sourceable + MediaGetTimeSource> SourceInfoBuilder<D> {
    /// Enables the `media_get_time` callback.
    pub fn enable_media_get_time(self) -> (r: Self)
        ensures
            r.spec_callbacks() == (SourceCallbacks { media_get_time: true, ..self.spec_callbacks() }),
            r.spec_flags() == self.spec_flags(),
            r.spec_icon() == self.spec_icon(),
            r.spec_id() == self.spec_id(),
            r.spec_source_type() == self.spec_source_type(),
    {
        let callbacks = SourceCallbacks { media_get_time: true, ..self.info.callbacks };
        SourceInfoBuilder { __data: PhantomData, info: SourceInfo { callbacks, ..self.info } }
    }
}

impl<D: Sourceable + MediaSetTimeSource> SourceInfoBuilder<D> {
    /// Enables the `media_set_time` callback.
    pub fn enable_media_set_time(self) -> (r: Self)
        ensures
            r.spec_callbacks() == (SourceCallbacks { media_set_time: true, ..self.spec_callbacks() }),
            r.spec_flags() == self.spec_flags(),
            r.spec_icon() == self.spec_icon(),
            r.spec_id() == self.spec_id(),
            r.spec_source_type() == self.spec_source_type(),
    {
        let callbacks = SourceCallbacks { media_set_time: true, ..self.info.callbacks };
        SourceInfoBuilder { __data: PhantomData, info: SourceInfo { callbacks, ..self.info } }
    }
}

impl<D: Sourceable + MediaGetStateSource> SourceInfoBuilder<D> {
    /// Enables the `media_get_state` callback.
    pub fn enable_media_get_state(self) -> (r: Self)
        ensures
            r.spec_callbacks() == (SourceCallbacks { media_get_state: true, ..self.spec_callbacks() }),
            r.spec_flags() == self.spec_flags(),
            r.spec_icon() == self.spec_icon(),
            r.spec_id() == self.spec_id(),
            r.spec_source_type() == self.spec_source_type(),
    {
        let callbacks = SourceCallbacks { media_get_state: true, ..self.info.callbacks };
        SourceInfoBuilder { __data: PhantomData, info: SourceInfo { callbacks, ..self.info } }
    }
}

impl<D: Sourceable + MouseWheelSource> SourceInfoBuilder<D> {
    /// Enables the `mouse_wheel` callback.
    pub fn enable_mouse_wheel(self) -> (r: Self)
        ensures
            r.spec_callbacks() == (SourceCallbacks { mouse_wheel: true, ..self.spec_callbacks() }),
            r.spec_flags() == self.spec_flags(),
            r.spec_icon() == self.spec_icon(),
            r.spec_id() == self.spec_id(),
            r.spec_source_type() == self.spec_source_type(),
    {
        let callbacks = SourceCallbacks { mouse_wheel: true, ..self.info.callbacks };
        SourceInfoBuilder { __data: PhantomData, info: SourceInfo { callbacks, ..self.info } }
    }
}

impl<D: Sourceable + MouseClickSource> SourceInfoBuilder<D> {
    /// Enables the `mouse_click` callback.
    pub fn enable_mouse_click(self) -> (r: Self)
        ensures
            r.spec_callbacks() == (SourceCallbacks { mouse_click: true, ..self.spec_callbacks() }),
            r.spec_flags() == self.spec_flags(),
            r.spec_icon() == self.spec_icon(),
            r.spec_id() == self.spec_id(),
            r.spec_source_type() == self.spec_source_type(),
    {
        let callbacks = SourceCallbacks { mouse_click: true, ..self.info.callbacks };
        SourceInfoBuilder { __data: PhantomData, info: SourceInfo { callbacks, ..self.info } }
    }
}

impl<D: Sourceable + MouseMoveSource> SourceInfoBuilder<D> {
    /// Enables the `mouse_move` callback.
    pub fn enable_mouse_move(self) -> (r: Self)
        ensures
            r.spec_callbacks() == (SourceCallbacks { mouse_move: true, ..self.spec_callbacks() }),
            r.spec_flags() == self.spec_flags(),
            r.spec_icon() == self.spec_icon(),
            r.spec_id() == self.spec_id(),
            r.spec_source_type() == self.spec_source_type(),
    {
        let callbacks = SourceCallbacks { mouse_move: true, ..self.info.callbacks };
        SourceInfoBuilder { __data: PhantomData, info: SourceInfo { callbacks, ..self.info } }
    }
}

impl<D: Sourceable + KeyClickSource> SourceInfoBuilder<D> {
    /// Enables the `key_click` callback.
    pub fn enable_key_click(self) -> (r: Self)
        ensures
            r.spec_callbacks() == (SourceCallbacks { key_click: true, ..self.spec_callbacks() }),
            r.spec_flags() == self.spec_flags(),
            r.spec_icon() == self.spec_icon(),
            r.spec_id() == self.spec_id(),
            r.spec_source_type() == self.spec_source_type(),
    {
        let callbacks = SourceCallbacks { key_click: true, ..self.info.callbacks };
        SourceInfoBuilder { __data: PhantomData, info: SourceInfo { callbacks, ..self.info } }
    }
}

impl<D: Sourceable + FocusSource> SourceInfoBuilder<D> {
    /// Enables the `focus` callback.
    pub fn enable_focus(self) -> (r: Self)
        ensures
            r.spec_callbacks() == (SourceCallbacks { focus: true, ..self.spec_callbacks() }),
            r.spec_flags() == self.spec_flags(),
            r.spec_icon() == self.spec_icon(),
            r.spec_id() == self.spec_id(),
            r.spec_source_type() == self.spec_source_type(),
    {
        let callbacks = SourceCallbacks { focus: true, ..self.info.callbacks };
        SourceInfoBuilder { __data: PhantomData, info: SourceInfo { callbacks, ..self.info } }
    }
}

impl<D: Sourceable + UpdateSource> SourceInfoBuilder<D> {
    /// Enables the `update` callback.
    pub fn enable_update(self) -> (r: Self)
        ensures
            r.spec_callbacks() == (SourceCallbacks { update: true, ..self.spec_callbacks() }),
            r.spec_flags() == self.spec_flags(),
            r.spec_icon() == self.spec_icon(),
            r.spec_id() == self.spec_id(),
            r.spec_source_type() == self.spec_source_type(),
    {
        let callbacks = SourceCallbacks { update: true, ..self.info.callbacks };
        SourceInfoBuilder { __data: PhantomData, info: SourceInfo { callbacks, ..self.info } }
    }
}

impl<D: Sourceable + GetDefaultsSource> SourceInfoBuilder<D> {
    /// Enables the `get_defaults` callback.
    pub fn enable_get_defaults(self) -> (r: Self)
        ensures
            r.spec_callbacks() == (SourceCallbacks { get_defaults: true, ..self.spec_callbacks() }),
            r.spec_flags() == self.spec_flags(),
            r.spec_icon() == self.spec_icon(),
            r.spec_id() == self.spec_id(),
            r.spec_source_type() == self.spec_source_type(),
    {
        let callbacks = SourceCallbacks { get_defaults: true, ..self.info.callbacks };
        SourceInfoBuilder { __data: PhantomData, info: SourceInfo { callbacks, ..self.info } }
    }
}

/// Whether a source whose `output_flags` are `flags` takes pushed video
/// frames: it was registered as an asynchronous video source (all bits of
/// [`OBS_SOURCE_ASYNC_VIDEO`] set).
pub fn accepts_async_video(flags: u32) -> (r: bool)
    ensures
        r == (flags & OBS_SOURCE_ASYNC_VIDEO == OBS_SOURCE_ASYNC_VIDEO),
{
    flags & OBS_SOURCE_ASYNC_VIDEO == OBS_SOURCE_ASYNC_VIDEO
}

/// Whether a source whose `output_flags` are `flags` takes pushed audio: it
/// was registered with [`OBS_SOURCE_AUDIO`].
pub fn accepts_async_audio(flags: u32) -> (r: bool)
    ensures
        r == (flags & OBS_SOURCE_AUDIO == OBS_SOURCE_AUDIO),
{
    flags & OBS_SOURCE_AUDIO == OBS_SOURCE_AUDIO
}

/// What [`SourceInfoBuilder::build`] does to the flags: the flags set
/// before are kept, a flag is set afterwards exactly when it was set
/// before or one of the callbacks that imply it is enabled, and no other
/// flag is touched.
pub proof fn lemma_source_build_flags(flags: u32, c: SourceCallbacks)
    ensures
        (flags | derived_source_flags(c)) & flags == flags,
        ((flags | derived_source_flags(c)) & OBS_SOURCE_VIDEO != 0) <==> (flags & OBS_SOURCE_VIDEO
            != 0 || c.video_render),
        ((flags | derived_source_flags(c)) & OBS_SOURCE_AUDIO != 0) <==> (flags & OBS_SOURCE_AUDIO
            != 0 || c.audio_render || c.filter_audio),
        ((flags | derived_source_flags(c)) & OBS_SOURCE_CONTROLLABLE_MEDIA != 0) <==> (flags
            & OBS_SOURCE_CONTROLLABLE_MEDIA != 0 || c.media_get_state || c.media_play_pause),
        ((flags | derived_source_flags(c)) & OBS_SOURCE_INTERACTION != 0) <==> (flags
            & OBS_SOURCE_INTERACTION != 0 || c.mouse_click || c.mouse_move || c.mouse_wheel
            || c.focus || c.key_click),
        (flags | derived_source_flags(c)) & !(OBS_SOURCE_VIDEO | OBS_SOURCE_AUDIO
            | OBS_SOURCE_CONTROLLABLE_MEDIA | OBS_SOURCE_INTERACTION) == flags & !(OBS_SOURCE_VIDEO
            | OBS_SOURCE_AUDIO | OBS_SOURCE_CONTROLLABLE_MEDIA | OBS_SOURCE_INTERACTION),
{
    let v: u32 = if c.video_render {
        1
    } else {
        0
    };
    let a: u32 = if c.audio_render || c.filter_audio {
        2
    } else {
        0
    };
    let m: u32 = if c.media_get_state || c.media_play_pause {
        8192
    } else {
        0
    };
    let i: u32 = if c.mouse_click || c.mouse_move || c.mouse_wheel || c.focus || c.key_click {
        32
    } else {
        0
    };
    assert(derived_source_flags(c) == v | a | m | i);
    assert(1u32 | 2u32 | 8192u32 | 32u32 == 8227u32) by (bit_vector);
    lemma_four_flags(flags, v, a, m, i);
}

proof fn lemma_four_flags(f: u32, v: u32, a: u32, m: u32, i: u32)
    requires
        v == 0 || v == 1,
        a == 0 || a == 2,
        m == 0 || m == 8192,
        i == 0 || i == 32,
    ensures
        (f | (v | a | m | i)) & f == f,
        ((f | (v | a | m | i)) & 1 != 0) <==> (f & 1 != 0 || v == 1),
        ((f | (v | a | m | i)) & 2 != 0) <==> (f & 2 != 0 || a == 2),
        ((f | (v | a | m | i)) & 8192 != 0) <==> (f & 8192 != 0 || m == 8192),
        ((f | (v | a | m | i)) & 32 != 0) <==> (f & 32 != 0 || i == 32),
        (f | (v | a | m | i)) & !8227u32 == f & !8227u32,
{
    assert((f | (v | a | m | i)) & f == f) by (bit_vector);
    assert(((f | (v | a | m | i)) & 1 != 0) <==> (f & 1 != 0 || v == 1)) by (bit_vector)
        requires
            v == 0 || v == 1,
            a == 0 || a == 2,
            m == 0 || m == 8192,
            i == 0 || i == 32,
    ;
    assert(((f | (v | a | m | i)) & 2 != 0) <==> (f & 2 != 0 || a == 2)) by (bit_vector)
        requires
            v == 0 || v == 1,
            a == 0 || a == 2,
            m == 0 || m == 8192,
            i == 0 || i == 32,
    ;
    assert(((f | (v | a | m | i)) & 8192 != 0) <==> (f & 8192 != 0 || m == 8192)) by (bit_vector)
        requires
            v == 0 || v == 1,
            a == 0 || a == 2,
            m == 0 || m == 8192,
            i == 0 || i == 32,
    ;
    assert(((f | (v | a | m | i)) & 32 != 0) <==> (f & 32 != 0 || i == 32)) by (bit_vector)
        requires
            v == 0 || v == 1,
            a == 0 || a == 2,
            m == 0 || m == 8192,
            i == 0 || i == 32,
    ;
    assert((f | (v | a | m | i)) & !8227u32 == f & !8227u32) by (bit_vector)
        requires
            v == 0 || v == 1,
            a == 0 || a == 2,
            m == 0 || m == 8192,
            i == 0 || i == 32,
    ;
}

/// Each value's libobs enumerant, as libobs numbers them, and the value each of those
/// enumerants stands for.
pub proof fn lemma_mouse_button_numbering()
    ensures
        MouseButton::Left.spec_raw() == 0,
        MouseButton::spec_from_raw(0) == Some(MouseButton::Left),
        MouseButton::Middle.spec_raw() == 1,
        MouseButton::spec_from_raw(1) == Some(MouseButton::Middle),
        MouseButton::Right.spec_raw() == 2,
        MouseButton::spec_from_raw(2) == Some(MouseButton::Right),
{
}

/// Each value's libobs enumerant, as libobs numbers them, and the value each of those
/// enumerants stands for.
pub proof fn lemma_icon_numbering()
    ensures
        Icon::Unknown.spec_raw() == 0,
        Icon::spec_from_raw(0) == Some(Icon::Unknown),
        Icon::Image.spec_raw() == 1,
        Icon::spec_from_raw(1) == Some(Icon::Image),
        Icon::Color.spec_raw() == 2,
        Icon::spec_from_raw(2) == Some(Icon::Color),
        Icon::Slideshow.spec_raw() == 3,
        Icon::spec_from_raw(3) == Some(Icon::Slideshow),
        Icon::AudioInput.spec_raw() == 4,
        Icon::spec_from_raw(4) == Some(Icon::AudioInput),
        Icon::AudioOutput.spec_raw() == 5,
        Icon::spec_from_raw(5) == Some(Icon::AudioOutput),
        Icon::DesktopCapture.spec_raw() == 6,
        Icon::spec_from_raw(6) == Some(Icon::DesktopCapture),
        Icon::WindowCapture.spec_raw() == 7,
        Icon::spec_from_raw(7) == Some(Icon::WindowCapture),
        Icon::GameCapture.spec_raw() == 8,
        Icon::spec_from_raw(8) == Some(Icon::GameCapture),
        Icon::Camera.spec_raw() == 9,
        Icon::spec_from_raw(9) == Some(Icon::Camera),
        Icon::Text.spec_raw() == 10,
        Icon::spec_from_raw(10) == Some(Icon::Text),
        Icon::Media.spec_raw() == 11,
        Icon::spec_from_raw(11) == Some(Icon::Media),
        Icon::Browser.spec_raw() == 12,
        Icon::spec_from_raw(12) == Some(Icon::Browser),
        Icon::Custom.spec_raw() == 13,
        Icon::spec_from_raw(13) == Some(Icon::Custom),
{
}

/// Each value's libobs enumerant, as libobs numbers them, and the value each of those
/// enumerants stands for.
pub proof fn lemma_source_type_numbering()
    ensures
        SourceType::Input.spec_raw() == 0,
        SourceType::spec_from_raw(0) == Some(SourceType::Input),
        SourceType::Scene.spec_raw() == 3,
        SourceType::spec_from_raw(3) == Some(SourceType::Scene),
        SourceType::Filter.spec_raw() == 1,
        SourceType::spec_from_raw(1) == Some(SourceType::Filter),
        SourceType::Transition.spec_raw() == 2,
        SourceType::spec_from_raw(2) == Some(SourceType::Transition),
{
}

/// libobs's `OBS_SOURCE_*` flag values.
pub proof fn lemma_source_flag_values()
    ensures
        OBS_SOURCE_VIDEO == 1,
        OBS_SOURCE_AUDIO == 2,
        OBS_SOURCE_ASYNC == 4,
        OBS_SOURCE_ASYNC_VIDEO == 5,
        OBS_SOURCE_INTERACTION == 32,
        OBS_SOURCE_CONTROLLABLE_MEDIA == 8192,
{
}

} // verus!
