use vstd::prelude::*;
use crate::text::text_eq;

verus! {

/// One of the five addressable button positions.
#[derive(Clone, Copy, Debug, PartialEq, Eq, Structural)]
pub enum Slot {
    Left,
    Right,
    Middle,
    Button4,
    Button5,
}

/// The slot of a physical button number; numbers outside `0..=4` have none.
pub open spec fn slot_of(button: int) -> Option<Slot> {
    if button == 0 {
        Some(Slot::Left)
    } else if button == 1 {
        Some(Slot::Right)
    } else if button == 2 {
        Some(Slot::Middle)
    } else if button == 3 {
        Some(Slot::Button4)
    } else if button == 4 {
        Some(Slot::Button5)
    } else {
        None
    }
}

/// The configuration key of each slot.
pub open spec fn slot_key(s: Slot) -> Seq<char> {
    match s {
        Slot::Left => "left"@,
        Slot::Right => "right"@,
        Slot::Middle => "middle"@,
        Slot::Button4 => "button4"@,
        Slot::Button5 => "button5"@,
    }
}

impl Slot {
    /// The slot that a physical button number addresses, if any.
    pub fn for_button(button: i64) -> (r: Option<Slot>)
        ensures
            r == slot_of(button as int),
    {
        match button {
            0 => Some(Slot::Left),
            1 => Some(Slot::Right),
            2 => Some(Slot::Middle),
            3 => Some(Slot::Button4),
            4 => Some(Slot::Button5),
            _ => None,
        }
    }

    /// The configuration key of this slot.
    pub fn key(&self) -> (r: &'static str)
        ensures
            r@ == slot_key(*self),
    {
        match self {
            Slot::Left => "left",
            Slot::Right => "right",
            Slot::Middle => "middle",
            Slot::Button4 => "button4",
            Slot::Button5 => "button5",
        }
    }
}

/// The keyed entries of a table, keys and values seen through their views.
pub open spec fn entries_view<T: View>(v: Seq<(String, T)>) -> Seq<(Seq<char>, T::V)> {
    v.map_values(|p: (String, T)| (p.0@, p.1@))
}

/// `i` is the first position of `entries` whose key is `key`.
pub open spec fn is_first_key<V>(entries: Seq<(Seq<char>, V)>, key: Seq<char>, i: int) -> bool {
    0 <= i < entries.len() && entries[i].0 == key && forall|j: int|
        0 <= j < i ==> entries[j].0 != key
}

/// The value of the first entry keyed `key`, as a map lookup would give it.
pub open spec fn lookup<V>(entries: Seq<(Seq<char>, V)>, key: Seq<char>) -> Option<V> {
    if exists|i: int| is_first_key(entries, key, i) {
        Some(entries[choose|i: int| is_first_key(entries, key, i)].1)
    } else {
        None
    }
}

/// A key has at most one first position, so `lookup` returns the value found there.
pub proof fn lemma_lookup_at<V>(entries: Seq<(Seq<char>, V)>, key: Seq<char>, i: int)
    requires
        is_first_key(entries, key, i),
    ensures
        lookup(entries, key) == Some(entries[i].1),
{
    let c = choose|j: int| is_first_key(entries, key, j);
    assert(is_first_key(entries, key, c));
    if c < i {
        assert(entries[c].0 != key);
    } else if i < c {
        assert(entries[i].0 != key);
    }
}

/// Finds the first entry of `entries` whose key equals `key`.
pub fn find_key<T: View>(entries: &Vec<(String, T)>, key: &str) -> (r: Option<usize>)
    ensures
        match r {
            Some(i) => is_first_key(entries_view(entries@), key@, i as int),
            None => lookup(entries_view(entries@), key@) is None,
        },
        r is Some ==> lookup(entries_view(entries@), key@) == Some(
            entries_view(entries@)[r->0 as int].1,
        ),
{
    let ghost ev = entries_view(entries@);
    let mut i: usize = 0;
    while i < entries.len()
        invariant
            ev == entries_view(entries@),
            i <= entries@.len(),
            forall|j: int| 0 <= j < i ==> ev[j].0 != key@,
        decreases entries@.len() - i,
    {
        if text_eq(entries[i].0.as_str(), key) {
            proof {
                lemma_lookup_at(ev, key@, i as int);
            }
            return Some(i);
        }
        i = i + 1;
    }
    proof {
        if exists|k: int| is_first_key(ev, key@, k) {
            let k = choose|k: int| is_first_key(ev, key@, k);
            assert(ev[k].0 != key@);
        }
    }
    None
}

/// The per-device button table.
pub struct DeviceConfig {
    pub name: String,
    /// Slot key to configured action string; a missing slot means `"Default"`.
    pub buttons: Vec<(String, String)>,
}

pub struct DeviceConfigView {
    pub name: Seq<char>,
    pub buttons: Seq<(Seq<char>, Seq<char>)>,
}

impl View for DeviceConfig {
    type V = DeviceConfigView;

    open spec fn view(&self) -> DeviceConfigView {
        DeviceConfigView { name: self.name@, buttons: entries_view(self.buttons@) }
    }
}

/// The button table with every slot set to `"Default"`, in slot order.
pub open spec fn default_buttons_view() -> Seq<(Seq<char>, Seq<char>)> {
    seq![
        ("left"@, "Default"@),
        ("right"@, "Default"@),
        ("middle"@, "Default"@),
        ("button4"@, "Default"@),
        ("button5"@, "Default"@),
    ]
}

/// Builds the button table with every slot set to `"Default"`.
pub fn default_buttons() -> (r: Vec<(String, String)>)
    ensures
        entries_view(r@) == default_buttons_view(),
{
    let mut r: Vec<(String, String)> = Vec::new();
    r.push(("left".to_owned(), "Default".to_owned()));
    r.push(("right".to_owned(), "Default".to_owned()));
    r.push(("middle".to_owned(), "Default".to_owned()));
    r.push(("button4".to_owned(), "Default".to_owned()));
    r.push(("button5".to_owned(), "Default".to_owned()));
    assert(entries_view(r@) =~= default_buttons_view());
    r
}

/// Copies a table of string pairs.
fn copy_pairs(v: &Vec<(String, String)>) -> (r: Vec<(String, String)>)
    ensures
        entries_view(r@) == entries_view(v@),
{
    let mut r: Vec<(String, String)> = Vec::new();
    let mut i: usize = 0;
    while i < v.len()
        invariant
            i <= v@.len(),
            r@.len() == i,
            forall|j: int| 0 <= j < i ==> r@[j].0@ == v@[j].0@ && r@[j].1@ == v@[j].1@,
        decreases v@.len() - i,
    {
        let k = v[i].0.clone();
        let a = v[i].1.clone();
        r.push((k, a));
        i = i + 1;
    }
    assert(entries_view(r@) =~= entries_view(v@));
    r
}

impl DeviceConfig {
    /// A device entry with no name and every slot set to `"Default"`.
    pub fn new() -> (r: DeviceConfig)
        ensures
            r@.name.len() == 0,
            r@.buttons == default_buttons_view(),
    {
        DeviceConfig { name: String::new(), buttons: default_buttons() }
    }

    /// An independent copy of this entry.
    pub fn duplicate(&self) -> (r: DeviceConfig)
        ensures
            r@ == self@,
    {
        DeviceConfig { name: self.name.clone(), buttons: copy_pairs(&self.buttons) }
    }
}

impl Default for DeviceConfig {
    fn default() -> (r: DeviceConfig)
        ensures
            r@.name.len() == 0,
            r@.buttons == default_buttons_view(),
    {
        DeviceConfig::new()
    }
}

/// The whole user configuration, replaced wholesale on save.
pub struct Settings {
    pub theme: String,
    pub startup: bool,
    pub selected_device: Option<String>,
    /// Device id to its button table.
    pub devices: Vec<(String, DeviceConfig)>,
}

pub struct SettingsView {
    pub theme: Seq<char>,
    pub startup: bool,
    pub selected_device: Option<Seq<char>>,
    pub devices: Seq<(Seq<char>, DeviceConfigView)>,
}

pub open spec fn opt_text_view(o: Option<String>) -> Option<Seq<char>> {
    match o {
        Some(s) => Some(s@),
        None => None,
    }
}

impl View for Settings {
    type V = SettingsView;

    open spec fn view(&self) -> SettingsView {
        SettingsView {
            theme: self.theme@,
            startup: self.startup,
            selected_device: opt_text_view(self.selected_device),
            devices: entries_view(self.devices@),
        }
    }
}

impl Settings {
    /// The configuration used when nothing was stored: system theme, no device.
    pub fn new() -> (r: Settings)
        ensures
            r@.theme == "system"@,
            !r@.startup,
            r@.selected_device is None,
            r@.devices.len() == 0,
    {
        let devices: Vec<(String, DeviceConfig)> = Vec::new();
        let r = Settings {
            theme: "system".to_owned(),
            startup: false,
            selected_device: None,
            devices,
        };
        assert(r@.devices =~= Seq::<(Seq<char>, DeviceConfigView)>::empty());
        r
    }

    /// An independent copy of this configuration.
    pub fn duplicate(&self) -> (r: Settings)
        ensures
            r@ == self@,
    {
        let selected_device = match &self.selected_device {
            Some(s) => Some(s.clone()),
            None => None,
        };
        let mut devices: Vec<(String, DeviceConfig)> = Vec::new();
        let mut i: usize = 0;
        while i < self.devices.len()
            invariant
                i <= self.devices@.len(),
                devices@.len() == i,
                forall|j: int|
                    0 <= j < i ==> devices@[j].0@ == self.devices@[j].0@ && devices@[j].1@
                        == self.devices@[j].1@,
            decreases self.devices@.len() - i,
        {
            let id = self.devices[i].0.clone();
            let cfg = self.devices[i].1.duplicate();
            devices.push((id, cfg));
            i = i + 1;
        }
        let r = Settings {
            theme: self.theme.clone(),
            startup: self.startup,
            selected_device,
            devices,
        };
        assert(r@.devices =~= self@.devices);
        r
    }
}

impl Default for Settings {
    fn default() -> (r: Settings)
        ensures
            r@.theme == "system"@,
            !r@.startup,
            r@.selected_device is None,
            r@.devices.len() == 0,
    {
        Settings::new()
    }
}

} // verus!
