use vstd::prelude::*;
use crate::action::{Action, action_of};
use crate::config::{
    Settings, SettingsView, Slot, entries_view, find_key, lookup, slot_key, slot_of,
};
use crate::device::MouseDevice;
use crate::text::text_eq;

verus! {

/// The identifiers of the devices attached at the last enumeration.
pub struct DeviceRegistry {
    pub ids: Vec<String>,
}

/// The set of identifiers held in a list of strings.
pub open spec fn id_set(ids: Seq<String>) -> Set<Seq<char>> {
    Set::new(|s: Seq<char>| exists|i: int| 0 <= i < ids.len() && ids[i]@ == s)
}

impl View for DeviceRegistry {
    type V = Set<Seq<char>>;

    open spec fn view(&self) -> Set<Seq<char>> {
        id_set(self.ids@)
    }
}

impl DeviceRegistry {
    /// A registry with no device attached.
    pub fn new() -> (r: DeviceRegistry)
        ensures
            r@ == Set::<Seq<char>>::empty(),
    {
        let r = DeviceRegistry { ids: Vec::new() };
        assert(r@ =~= Set::<Seq<char>>::empty());
        r
    }

    /// Swaps in a new set of attached device identifiers.
    pub fn replace(&mut self, ids: Vec<String>)
        ensures
            final(self)@ == id_set(ids@),
    {
        self.ids = ids;
    }

    /// Whether `id` is among the attached devices.
    pub fn contains(&self, id: &str) -> (r: bool)
        ensures
            r == self@.contains(id@),
    {
        let mut i: usize = 0;
        while i < self.ids.len()
            invariant
                i <= self.ids@.len(),
                forall|j: int| 0 <= j < i ==> self.ids@[j]@ != id@,
            decreases self.ids@.len() - i,
        {
            if text_eq(self.ids[i].as_str(), id) {
                return true;
            }
            i = i + 1;
        }
        false
    }
}

/// What a press of `button` does under the configuration `s`, when `present` holds the
/// attached devices.
pub open spec fn resolve_spec(s: SettingsView, present: Set<Seq<char>>, button: int) -> Action {
    match s.selected_device {
        None => Action::Default,
        Some(id) => if !present.contains(id) {
            Action::Default
        } else {
            match lookup(s.devices, id) {
                None => Action::Default,
                Some(cfg) => match slot_of(button) {
                    None => Action::Default,
                    Some(slot) => match lookup(cfg.buttons, slot_key(slot)) {
                        None => Action::Default,
                        Some(name) => action_of(name),
                    },
                },
            }
        },
    }
}

/// Resolves the action for a press of `button` from a configuration snapshot and the
/// attached devices.
pub fn resolve(settings: &Settings, registry: &DeviceRegistry, button: i64) -> (r: Action)
    ensures
        r == resolve_spec(settings@, registry@, button as int),
{
    let selected = match &settings.selected_device {
        Some(s) => s,
        None => {
            return Action::Default;
        },
    };
    if !registry.contains(selected.as_str()) {
        return Action::Default;
    }
    let di = match find_key(&settings.devices, selected.as_str()) {
        Some(i) => i,
        None => {
            return Action::Default;
        },
    };
    let device = &settings.devices[di].1;
    assert(entries_view(settings.devices@)[di as int].1 == device@);
    let slot = match Slot::for_button(button) {
        Some(s) => s,
        None => {
            return Action::Default;
        },
    };
    match find_key(&device.buttons, slot.key()) {
        Some(bi) => {
            assert(entries_view(device.buttons@)[bi as int].1 == device.buttons@[bi as int].1@);
            Action::from(device.buttons[bi].1.as_str())
        },
        None => Action::Default,
    }
}

/// The configuration and the attached devices, as the interception hook reads them.
pub struct AppState {
    pub settings: Settings,
    pub devices: DeviceRegistry,
}

/// The identifiers of a list of devices.
pub open spec fn device_ids(devices: Seq<MouseDevice>) -> Set<Seq<char>> {
    Set::new(|s: Seq<char>| exists|i: int| 0 <= i < devices.len() && devices[i].id@ == s)
}

/// The configuration held after replacing `before` by `new`: stores are replaced
/// wholesale, never merged.
pub open spec fn replace_settings(before: SettingsView, new: SettingsView) -> SettingsView {
    new
}

impl AppState {
    /// Nothing configured and no device attached.
    pub fn new() -> (r: AppState)
        ensures
            r.settings@.selected_device is None,
            r.settings@.devices.len() == 0,
            r.devices@ == Set::<Seq<char>>::empty(),
    {
        AppState { settings: Settings::new(), devices: DeviceRegistry::new() }
    }

    /// Replaces the configuration wholesale.
    pub fn update_settings(&mut self, settings: Settings)
        ensures
            final(self).settings@ == replace_settings(old(self).settings@, settings@),
            final(self).settings@ == settings@,
            final(self).devices@ == old(self).devices@,
    {
        self.settings = settings;
    }

    /// Replaces the attached devices by the identifiers of `devices`.
    pub fn update_devices(&mut self, devices: &[MouseDevice])
        ensures
            final(self).devices@ == device_ids(devices@),
            final(self).settings@ == old(self).settings@,
    {
        let mut ids: Vec<String> = Vec::new();
        let mut i: usize = 0;
        while i < devices.len()
            invariant
                i <= devices@.len(),
                ids@.len() == i,
                forall|j: int| 0 <= j < i ==> ids@[j]@ == devices@[j].id@,
            decreases devices@.len() - i,
        {
            ids.push(devices[i].id.clone());
            i = i + 1;
        }
        assert forall|s: Seq<char>| #[trigger]
            id_set(ids@).contains(s) == device_ids(devices@).contains(s) by {
            if id_set(ids@).contains(s) {
                let k = choose|k: int| 0 <= k < ids@.len() && ids@[k]@ == s;
                assert(devices@[k].id@ == s);
            }
            if device_ids(devices@).contains(s) {
                let k = choose|k: int| 0 <= k < devices@.len() && devices@[k].id@ == s;
                assert(ids@[k]@ == s);
            }
        }
        assert(id_set(ids@) =~= device_ids(devices@));
        self.devices.replace(ids);
    }

    /// An independent copy of the current configuration.
    pub fn snapshot_settings(&self) -> (r: Settings)
        ensures
            r@ == self.settings@,
    {
        self.settings.duplicate()
    }

    /// Whether the device `device_id` is attached.
    pub fn is_selected_device_available(&self, device_id: &str) -> (r: bool)
        ensures
            r == self.devices@.contains(device_id@),
    {
        self.devices.contains(device_id)
    }

    /// The action for a press of `button` under the current state.
    pub fn resolve_action(&self, button: i64) -> (r: Action)
        ensures
            r == resolve_spec(self.settings@, self.devices@, button as int),
    {
        resolve(&self.settings, &self.devices, button)
    }
}

} // verus!
