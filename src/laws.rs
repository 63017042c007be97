use vstd::prelude::*;
use crate::action::Action;
use crate::config::SettingsView;
use crate::device::MouseDevice;
use crate::state::{device_ids, replace_settings, resolve_spec};

verus! {

/// With no device selected, every button resolves to `Default`.
pub proof fn lemma_unselected_is_default(s: SettingsView, present: Set<Seq<char>>, button: int)
    requires
        s.selected_device is None,
    ensures
        resolve_spec(s, present, button) == Action::Default,
{
}

/// A button number of five or more resolves to `Default`, whatever is configured.
pub proof fn lemma_unslotted_is_default(s: SettingsView, present: Set<Seq<char>>, button: int)
    requires
        button >= 5,
    ensures
        resolve_spec(s, present, button) == Action::Default,
{
}

/// A selected device that is not attached has every button resolve to `Default`, whatever
/// its configuration says.
pub proof fn lemma_absent_is_default(
    s: SettingsView,
    present: Set<Seq<char>>,
    id: Seq<char>,
    button: int,
)
    requires
        s.selected_device == Some(id),
        !present.contains(id),
    ensures
        resolve_spec(s, present, button) == Action::Default,
{
}

/// Once the device list is replaced by one without the selected device, every button of
/// it resolves to `Default`, with the configuration left as it was.
pub proof fn lemma_unplugged_reverts(
    s: SettingsView,
    devices: Seq<MouseDevice>,
    id: Seq<char>,
    button: int,
)
    requires
        s.selected_device == Some(id),
        forall|i: int| 0 <= i < devices.len() ==> devices[i].id@ != id,
    ensures
        resolve_spec(s, device_ids(devices), button) == Action::Default,
{
    assert(!device_ids(devices).contains(id));
}

/// Replacing the configuration by a value a second time changes no resolver output.
pub proof fn lemma_replace_idempotent(
    before: SettingsView,
    s: SettingsView,
    present: Set<Seq<char>>,
    button: int,
)
    ensures
        replace_settings(replace_settings(before, s), s) == replace_settings(before, s),
        resolve_spec(replace_settings(replace_settings(before, s), s), present, button)
            == resolve_spec(replace_settings(before, s), present, button),
{
}

} // verus!
