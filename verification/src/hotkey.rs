//! Hotkeys: the state a hotkey callback receives, and the registrations
//! an instance makes while it is created.

use vstd::prelude::*;

verus! {

/// A live OBS hotkey passed to a registered callback: libobs's identifier
/// of the hotkey and whether the event was a press or a release.
#[derive(Debug, Clone, Copy, PartialEq, Eq, Structural)]
pub struct Hotkey {
    id: usize,
    /// `true` if the event was a key press, `false` for a release.
    pub pressed: bool,
}

impl Hotkey {
    /// libobs's identifier of the hotkey.
    pub closed spec fn spec_id(&self) -> usize {
        self.id
    }

    /// Whether the event was a key press.
    pub closed spec fn spec_pressed(&self) -> bool {
        self.pressed
    }

    /// The hotkey with libobs identifier `id`, for a press (`pressed`) or a
    /// release.
    pub fn from_parts(id: usize, pressed: bool) -> (r: Self)
        ensures
            r.spec_id() == id,
            r.spec_pressed() == pressed,
    {
        Hotkey { id, pressed }
    }

    /// Returns the hotkey's libobs identifier, to tell apart hotkeys that
    /// share one callback.
    pub fn id(&self) -> (r: usize)
        ensures
            r == self.spec_id(),
    {
        self.id
    }
}

/// What a registered hotkey does when it fires: it receives the hotkey's
/// state and the instance that registered it.
pub trait HotkeyCallback<D> {
    /// Called when the hotkey is pressed or released.
    fn call(&mut self, hotkey: &mut Hotkey, data: &mut D);
}

/// A hotkey an instance asked for while it was created: its persistent
/// identifier, its localized description, and what it does.
#[verifier::reject_recursive_types(D)]
pub struct HotkeyRegistration<D> {
    /// The persistent identifier.
    pub name: String,
    /// The label shown in the hotkey configuration UI.
    pub description: String,
    /// What the hotkey does.
    pub callback: Box<dyn HotkeyCallback<D>>,
}

/// The identifier and description of each hotkey registration, in order.
pub open spec fn hotkey_labels<D>(hotkeys: Seq<HotkeyRegistration<D>>) -> Seq<(Seq<char>, Seq<char>)> {
    hotkeys.map_values(|h: HotkeyRegistration<D>| (h.name@, h.description@))
}

/// Appends a registration.
pub(crate) fn push_registration<D>(hotkeys: &mut Vec<HotkeyRegistration<D>>, registration: HotkeyRegistration<D>)
    ensures
        hotkey_labels(final(hotkeys)@) == hotkey_labels(old(hotkeys)@).push(
            (registration.name@, registration.description@),
        ),
{
    let ghost before = hotkeys@;
    hotkeys.push(registration);
    assert(hotkey_labels(hotkeys@) =~= hotkey_labels(before).push(
        (registration.name@, registration.description@),
    ));
}

} // verus!
