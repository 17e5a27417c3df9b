//! The traits a source implements; each optional one is switched on with
//! the matching `enable_*` method of
//! [`SourceInfoBuilder`](super::SourceInfoBuilder).

use vstd::prelude::*;

use super::context::{CreatableSourceContext, GlobalContext, VideoRenderContext};
use super::{EnumActiveContext, EnumAllContext, MouseButton, SourceRef, SourceType};
use crate::media::audio::AudioDataContext;
use crate::media::state::MediaState;
use crate::media::video::VideoDataSourceContext;
use crate::properties::Properties;
use crate::settings::Settings;

verus! {

/// Why a plugin's create hook refused to create an instance.
#[derive(Debug)]
pub struct CreateError {
    /// What went wrong.
    pub message: String,
}

/// A mouse event over a source: keyboard modifiers and the cursor
/// position, as in libobs's `obs_mouse_event`.
#[derive(Debug, Clone, Copy, PartialEq, Eq, Structural)]
pub struct MouseEvent {
    pub modifiers: u32,
    pub x: i32,
    pub y: i32,
}

/// A key event for a focused source, as in libobs's `obs_key_event`.
#[derive(Debug)]
pub struct KeyEvent {
    pub modifiers: u32,
    pub text: String,
    pub native_modifiers: u32,
    pub native_scancode: u32,
    pub native_vkey: u32,
}

/// The mandatory trait every source implements: its identity, role and
/// constructor.
pub trait Sourceable: Sized {
    /// Returns the globally-unique identifier for this source type.
    fn get_id() -> &'static str;

    /// Returns the role this source plays in the OBS pipeline.
    fn get_type() -> SourceType;

    /// Constructs a new source instance, each time OBS creates a source of
    /// this type; hotkeys registered on `context` act on the instance.
    fn create(context: &mut CreatableSourceContext<'_, Self>, source: SourceRef) -> Result<
        Self,
        CreateError,
    >;
}

/// Provides a user-visible display name for the source.
pub trait GetNameSource {
    /// Returns the display name shown in OBS UIs.
    fn get_name() -> &'static str;
}

/// Reports the render width of the source, in pixels.
pub trait GetWidthSource: Sized {
    /// Returns the source's current render width.
    fn get_width(&self) -> u32;
}

/// Reports the render height of the source, in pixels.
pub trait GetHeightSource: Sized {
    /// Returns the source's current render height.
    fn get_height(&self) -> u32;
}

/// Notifies the source that it has become active in the program output.
pub trait ActivateSource: Sized {
    /// Called when the source begins rendering to the program output.
    fn activate(&mut self);
}

/// Notifies the source that it is no longer active in the program output.
pub trait DeactivateSource: Sized {
    /// Called when the source stops rendering to the program output.
    fn deactivate(&mut self);
}

/// Receives mouse-wheel events from OBS.
pub trait MouseWheelSource: Sized {
    /// Called when the user scrolls the mouse wheel over the source.
    fn mouse_wheel(&mut self, event: MouseEvent, xdelta: i32, ydelta: i32);
}

/// Receives mouse-button click events from OBS.
pub trait MouseClickSource: Sized {
    /// Called when the user presses or releases a mouse button.
    fn mouse_click(&mut self, event: MouseEvent, button: MouseButton, pressed: bool, click_count: u8);
}

/// Receives mouse-movement events from OBS.
pub trait MouseMoveSource: Sized {
    /// Called as the cursor moves over the source. `leave` is `true` when
    /// the cursor leaves the source's bounds.
    fn mouse_move(&mut self, event: MouseEvent, leave: bool);
}

/// Receives keyboard events from OBS.
pub trait KeyClickSource: Sized {
    /// Called for each key press or release while the source has focus.
    fn key_click(&mut self, event: KeyEvent, pressed: bool);
}

/// Receives focus-change notifications from OBS.
pub trait FocusSource: Sized {
    /// Called when the source gains or loses keyboard focus.
    fn focus(&mut self, focused: bool);
}

/// Renders the source to the active OBS render target.
pub trait VideoRenderSource: Sized {
    /// Called once per video frame for synchronous rendering.
    fn video_render(&mut self, context: &mut GlobalContext, render: &mut VideoRenderContext);
}

/// Renders the source's audio.
pub trait AudioRenderSource: Sized {
    /// Called when OBS asks the source to produce audio output.
    fn audio_render(&mut self, context: &mut GlobalContext);
}

/// Builds the user-facing [`Properties`] panel for the source.
pub trait GetPropertiesSource: Sized {
    /// Returns the property tree that OBS will render in the source's
    /// settings UI.
    fn get_properties(&self) -> Properties;
}

/// Enumerates the sources currently active beneath this source (for
/// scenes, transitions, etc.).
pub trait EnumActiveSource: Sized {
    /// Called by OBS to enumerate active child sources.
    fn enum_active_sources(&mut self, context: &EnumActiveContext);
}

/// Enumerates every source beneath this source, including inactive ones.
pub trait EnumAllSource: Sized {
    /// Called by OBS to enumerate all child sources.
    fn enum_all_sources(&mut self, context: &EnumAllContext);
}

/// Notifies a transition source that a transition has begun.
pub trait TransitionStartSource: Sized {
    /// Called when a transition starts.
    fn transition_start(&mut self);
}

/// Notifies a transition source that a transition has completed.
pub trait TransitionStopSource: Sized {
    /// Called when a transition stops.
    fn transition_stop(&mut self);
}

/// Handles play/pause requests on a media source.
pub trait MediaPlayPauseSource: Sized {
    /// Called to pause or resume playback.
    fn play_pause(&mut self, pause: bool);
}

/// Reports the playback state of a media source.
pub trait MediaGetStateSource: Sized {
    /// Returns the current [`MediaState`].
    fn get_state(&self) -> MediaState;
}

/// Handles seek requests on a media source.
pub trait MediaSetTimeSource: Sized {
    /// Seeks to `milliseconds` into the current media.
    fn set_time(&mut self, milliseconds: i64);
}

/// Restarts media playback from the beginning.
pub trait MediaRestartSource: Sized {
    /// Called to restart playback.
    fn restart(&mut self);
}

/// Stops media playback.
pub trait MediaStopSource: Sized {
    /// Called to stop playback.
    fn stop(&mut self);
}

/// Advances to the next item in a media playlist.
pub trait MediaNextSource: Sized {
    /// Called to advance to the next item.
    fn next(&mut self);
}

/// Returns to the previous item in a media playlist.
pub trait MediaPreviousSource: Sized {
    /// Called to return to the previous item.
    fn previous(&mut self);
}

/// Reports the total duration of the current media, in milliseconds.
pub trait MediaGetDurationSource: Sized {
    /// Returns the total duration of the current media.
    fn get_duration(&self) -> i64;
}

/// Reports the current playback position, in milliseconds.
pub trait MediaGetTimeSource: Sized {
    /// Returns the current playback position.
    fn get_time(&self) -> i64;
}

/// Audio-filter callback: mutates an upstream audio buffer in place.
pub trait FilterAudioSource: Sized {
    /// Called for each audio buffer flowing through the filter chain.
    fn filter_audio(&mut self, audio: &mut AudioDataContext<'_>);
}

/// Video-filter callback: mutates an upstream video frame in place (for
/// CPU-side filters that don't render through the graphics pipeline).
pub trait FilterVideoSource: Sized {
    /// Called for each video frame flowing through the filter chain.
    fn filter_video(&mut self, video: &mut VideoDataSourceContext<'_>);
}

/// Applies a new settings object to a source instance.
pub trait UpdateSource: Sized {
    /// Applies updated settings.
    fn update(&mut self, settings: &mut Settings, context: &mut GlobalContext);
}

/// Populates the default settings written into a freshly-created source.
pub trait GetDefaultsSource {
    /// Writes default values into `settings`.
    fn get_defaults(settings: &mut Settings);
}

} // verus!
