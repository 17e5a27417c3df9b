//! Context values handed to source callbacks.

use vstd::prelude::*;
use vstd::string::StringExecFns;

use crate::hotkey::{hotkey_labels, push_registration, HotkeyCallback, HotkeyRegistration};
use crate::settings::Settings;

verus! {

/// Process-global context provided to source callbacks.
///
/// Acts as a capability token: holding a `GlobalContext` indicates the
/// caller is running inside an OBS callback and can safely access
/// process-wide resources such as the global audio output.
#[derive(Debug, Clone, Copy, PartialEq, Eq, Structural)]
pub struct GlobalContext;

/// Per-call context for [`VideoRenderSource::video_render`](super::traits::VideoRenderSource::video_render).
///
/// Reserved for future use; instances carry no state today.
#[derive(Debug, Clone, Copy, PartialEq, Eq, Structural)]
pub struct VideoRenderContext;

impl Default for VideoRenderContext {
    fn default() -> (r: Self)
        ensures
            r == VideoRenderContext,
    {
        VideoRenderContext
    }
}

impl Default for GlobalContext {
    fn default() -> (r: Self)
        ensures
            r == GlobalContext,
    {
        GlobalContext
    }
}

/// What a source's create hook receives besides the source's handle: the
/// initial settings, the global context, and a place to register hotkeys
/// that act on the instance while it is alive.
#[verifier::reject_recursive_types(D)]
pub struct CreatableSourceContext<'a, D> {
    hotkeys: Vec<HotkeyRegistration<D>>,
    settings: Settings,
    global: &'a mut GlobalContext,
}

impl<'a, D> CreatableSourceContext<'a, D> {
    /// The initial settings.
    pub closed spec fn spec_settings(&self) -> Settings {
        self.settings
    }

    /// The hotkeys registered so far, in order.
    pub closed spec fn spec_hotkeys(&self) -> Seq<HotkeyRegistration<D>> {
        self.hotkeys@
    }

    /// A context carrying `settings` and `global`, with no hotkey
    /// registered.
    pub fn from_raw(settings: Settings, global: &'a mut GlobalContext) -> (r: Self)
        ensures
            r.spec_settings() == settings,
            r.spec_hotkeys() == Seq::<HotkeyRegistration<D>>::empty(),
    {
        CreatableSourceContext { hotkeys: Vec::new(), settings, global }
    }

    /// The initial settings.
    pub fn settings(&self) -> (r: &Settings)
        ensures
            *r == self.spec_settings(),
    {
        &self.settings
    }

    /// The global context the hook runs in.
    pub closed spec fn spec_global(&self) -> GlobalContext {
        *self.global
    }

    /// The global context, borrowed for the hook's use: what is done
    /// through the returned reference is what the context holds afterwards.
    pub fn global(&mut self) -> (r: &mut GlobalContext)
        ensures
            *r == old(self).spec_global(),
            final(self).spec_global() == *final(r),
            final(self).spec_settings() == old(self).spec_settings(),
            final(self).spec_hotkeys() == old(self).spec_hotkeys(),
    {
        &mut *self.global
    }

    /// Registers a hotkey that invokes `callback` while the source instance
    /// is alive. `name` is the persistent identifier and `description` is
    /// the localized label shown in the hotkey configuration UI.
    pub fn register_hotkey<H: HotkeyCallback<D> + 'static>(
        &mut self,
        name: &str,
        description: &str,
        callback: H,
    )
        ensures
            hotkey_labels(final(self).spec_hotkeys()) == hotkey_labels(old(self).spec_hotkeys()).push(
                (name@, description@),
            ),
            final(self).spec_settings() == old(self).spec_settings(),
    {
        let callback: Box<dyn HotkeyCallback<D>> = Box::new(callback);
        let registration = HotkeyRegistration {
            name: String::from_str(name),
            description: String::from_str(description),
            callback,
        };
        push_registration(&mut self.hotkeys, registration);
    }

    /// The hotkeys registered, in order.
    pub fn into_hotkeys(self) -> (r: Vec<HotkeyRegistration<D>>)
        ensures
            r@ == self.spec_hotkeys(),
    {
        self.hotkeys
    }
}

} // verus!
