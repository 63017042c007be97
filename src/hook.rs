use vstd::prelude::*;
use crate::action::Action;
use crate::state::{AppState, resolve_spec};
use crate::synth::{
    KEYCODE_LEFT_BRACKET, KEYCODE_RIGHT_BRACKET, LEFT_BUTTON, MIDDLE_BUTTON, SyntheticEvent,
    chord_plan, click_plan, key_combo, mouse_click,
};

verus! {

/// Life cycle of the interception hook.
#[derive(Clone, Copy, Debug, PartialEq, Eq, Structural)]
pub enum HookPhase {
    Uninstalled,
    Installing,
    Running,
    Failed,
    Stopped,
}

/// What the hook context reports while installing and running.
#[derive(Clone, Copy, Debug, PartialEq, Eq, Structural)]
pub enum HookSignal {
    /// No synthetic event source could be had.
    SourceUnavailable,
    /// The system refused the event tap, mostly for want of input-monitoring permission.
    TapRefused,
    /// The tap is registered and its loop runs.
    TapInstalled,
    /// The event loop returned.
    LoopExited,
}

/// A physical button transition.
#[derive(Clone, Copy, Debug, PartialEq, Eq, Structural)]
pub enum Transition {
    Down,
    Up,
}

/// The phase after `signal` arrives in phase `p`; signals that do not apply are ignored.
pub open spec fn next_phase(p: HookPhase, signal: HookSignal) -> HookPhase {
    match (p, signal) {
        (HookPhase::Installing, HookSignal::SourceUnavailable) => HookPhase::Failed,
        (HookPhase::Installing, HookSignal::TapRefused) => HookPhase::Failed,
        (HookPhase::Installing, HookSignal::TapInstalled) => HookPhase::Running,
        (HookPhase::Running, HookSignal::LoopExited) => HookPhase::Stopped,
        _ => p,
    }
}

/// The replacement events for a press resolved to `action`, posted on the down
/// transition only.
pub open spec fn planned_events(action: Action, transition: Transition) -> Seq<SyntheticEvent> {
    match transition {
        Transition::Up => Seq::empty(),
        Transition::Down => match action {
            Action::Back => chord_plan(KEYCODE_LEFT_BRACKET),
            Action::Forward => chord_plan(KEYCODE_RIGHT_BRACKET),
            Action::MiddleClick => click_plan(MIDDLE_BUTTON, 1),
            Action::DoubleClick => click_plan(LEFT_BUTTON, 2),
            _ => Seq::empty(),
        },
    }
}

/// What to do with one intercepted event: forward it unchanged or suppress it, and the
/// events to post in its place.
pub struct Verdict {
    pub forward: bool,
    pub emit: Vec<SyntheticEvent>,
}

/// Decides the fate of an event whose button resolved to `action`: a default action is
/// forwarded untouched; any other suppresses both transitions and acts on the down one.
pub fn decide(action: Action, transition: Transition) -> (r: Verdict)
    ensures
        r.forward == (action == Action::Default),
        r.emit@ == planned_events(action, transition),
{
    if action.is_default() {
        return Verdict { forward: true, emit: Vec::new() };
    }
    let emit = match transition {
        Transition::Up => Vec::new(),
        Transition::Down => match action {
            Action::Back => key_combo(KEYCODE_LEFT_BRACKET),
            Action::Forward => key_combo(KEYCODE_RIGHT_BRACKET),
            Action::MiddleClick => mouse_click(MIDDLE_BUTTON, false),
            Action::DoubleClick => mouse_click(LEFT_BUTTON, true),
            _ => Vec::new(),
        },
    };
    proof {
        if emit@.len() == 0 {
            assert(emit@ =~= planned_events(action, transition));
        }
    }
    Verdict { forward: false, emit }
}

/// The interception hook's state.
pub struct EventHook {
    pub phase: HookPhase,
}

/// Begins installing the hook. Installation is attempted once: only an uninstalled hook
/// moves on, and the result says whether the caller should now install it.
pub fn start_mouse_remap(hook: &mut EventHook) -> (r: bool)
    ensures
        r == (old(hook).phase == HookPhase::Uninstalled),
        final(hook).phase == (if r {
            HookPhase::Installing
        } else {
            old(hook).phase
        }),
{
    match hook.phase {
        HookPhase::Uninstalled => {
            hook.phase = HookPhase::Installing;
            true
        },
        _ => false,
    }
}

impl EventHook {
    /// A hook that has not been installed.
    pub fn new() -> (r: EventHook)
        ensures
            r.phase == HookPhase::Uninstalled,
    {
        EventHook { phase: HookPhase::Uninstalled }
    }

    /// Takes the report `signal` of the hook context into account.
    pub fn signal(&mut self, signal: HookSignal)
        ensures
            final(self).phase == next_phase(old(self).phase, signal),
    {
        let next = match (self.phase, signal) {
            (HookPhase::Installing, HookSignal::SourceUnavailable) => HookPhase::Failed,
            (HookPhase::Installing, HookSignal::TapRefused) => HookPhase::Failed,
            (HookPhase::Installing, HookSignal::TapInstalled) => HookPhase::Running,
            (HookPhase::Running, HookSignal::LoopExited) => HookPhase::Stopped,
            (p, _) => p,
        };
        self.phase = next;
    }

    /// Handles one intercepted transition of `button`. Events the hook posted itself
    /// (`self_posted`, recognised by `SYNTHETIC_EVENT_TAG`) pass through, so replacement
    /// input is never remapped again; a hook that is not running forwards every event.
    pub fn on_button_event(
        &self,
        state: &AppState,
        transition: Transition,
        button: i64,
        self_posted: bool,
    ) -> (r: Verdict)
        ensures
            (self_posted || self.phase != HookPhase::Running) ==> r.forward && r.emit@.len() == 0,
            (!self_posted && self.phase == HookPhase::Running) ==> {
                let a = resolve_spec(state.settings@, state.devices@, button as int);
                &&& r.forward == (a == Action::Default)
                &&& r.emit@ == planned_events(a, transition)
            },
    {
        if self_posted {
            return Verdict { forward: true, emit: Vec::new() };
        }
        match self.phase {
            HookPhase::Running => {
                let action = state.resolve_action(button);
                decide(action, transition)
            },
            _ => Verdict { forward: true, emit: Vec::new() },
        }
    }
}

} // verus!
