//! What an output's create hook receives.

use vstd::prelude::*;
use vstd::string::StringExecFns;

use crate::hotkey::{hotkey_labels, push_registration, HotkeyCallback, HotkeyRegistration};
use crate::settings::Settings;

verus! {

/// What an output's create hook receives besides the output's handle: the
/// initial settings, and a place to register hotkeys that act on the
/// instance while it is alive.
#[verifier::reject_recursive_types(D)]
pub struct CreatableOutputContext<D> {
    hotkeys: Vec<HotkeyRegistration<D>>,
    settings: Settings,
}

impl<D> CreatableOutputContext<D> {
    /// The initial settings.
    pub closed spec fn spec_settings(&self) -> Settings {
        self.settings
    }

    /// The hotkeys registered so far, in order.
    pub closed spec fn spec_hotkeys(&self) -> Seq<HotkeyRegistration<D>> {
        self.hotkeys@
    }

    /// A context carrying `settings`, with no hotkey registered.
    pub fn from_raw(settings: Settings) -> (r: Self)
        ensures
            r.spec_settings() == settings,
            r.spec_hotkeys() == Seq::<HotkeyRegistration<D>>::empty(),
    {
        CreatableOutputContext { hotkeys: Vec::new(), settings }
    }

    /// The initial settings.
    pub fn settings(&self) -> (r: &Settings)
        ensures
            *r == self.spec_settings(),
    {
        &self.settings
    }

    /// Registers a hotkey that invokes `callback` while the output instance
    /// is alive. `name` is the persistent identifier and `description` is
    /// the localized label shown in the hotkey configuration UI.
    pub fn register_hotkey<H: HotkeyCallback<D> + 'static>(
        &mut self,
        name: &str,
        description: &str,
        callback: H,
    )
        ensures
            hotkey_labels(final(self).spec_hotkeys()) == hotkey_labels(old(self).spec_hotkeys()).push(
                (name@, description@),
            ),
            final(self).spec_settings() == old(self).spec_settings(),
    {
        let callback: Box<dyn HotkeyCallback<D>> = Box::new(callback);
        let registration = HotkeyRegistration {
            name: String::from_str(name),
            description: String::from_str(description),
            callback,
        };
        push_registration(&mut self.hotkeys, registration);
    }

    /// The hotkeys registered, in order.
    pub fn into_hotkeys(self) -> (r: Vec<HotkeyRegistration<D>>)
        ensures
            r@ == self.spec_hotkeys(),
    {
        self.hotkeys
    }
}

} // verus!
