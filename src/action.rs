use vstd::prelude::*;
use crate::text::text_eq;

verus! {

/// The logical outcome assigned to a physical button press.
#[derive(Clone, Copy, Debug, PartialEq, Eq, Structural)]
pub enum Action {
    Default,
    Disabled,
    Back,
    Forward,
    MiddleClick,
    DoubleClick,
}

/// The canonical configuration string of each action.
pub open spec fn action_name(a: Action) -> Seq<char> {
    match a {
        Action::Default => "Default"@,
        Action::Disabled => "Disabled"@,
        Action::Back => "Back"@,
        Action::Forward => "Forward"@,
        Action::MiddleClick => "Middle Click"@,
        Action::DoubleClick => "Double Click"@,
    }
}

/// The action a configured string stands for; anything unrecognized is `Default`.
pub open spec fn action_of(s: Seq<char>) -> Action {
    if s == "Disabled"@ {
        Action::Disabled
    } else if s == "Back"@ {
        Action::Back
    } else if s == "Forward"@ {
        Action::Forward
    } else if s == "Middle Click"@ {
        Action::MiddleClick
    } else if s == "Double Click"@ {
        Action::DoubleClick
    } else {
        Action::Default
    }
}

impl Action {
    /// Parses a configured action string, folding unknown strings to `Default`.
    pub fn from(value: &str) -> (r: Action)
        ensures
            r == action_of(value@),
    {
        if text_eq(value, "Disabled") {
            Action::Disabled
        } else if text_eq(value, "Back") {
            Action::Back
        } else if text_eq(value, "Forward") {
            Action::Forward
        } else if text_eq(value, "Middle Click") {
            Action::MiddleClick
        } else if text_eq(value, "Double Click") {
            Action::DoubleClick
        } else {
            Action::Default
        }
    }

    /// The canonical configuration string of this action.
    pub fn name(&self) -> (r: &'static str)
        ensures
            r@ == action_name(*self),
    {
        match self {
            Action::Default => "Default",
            Action::Disabled => "Disabled",
            Action::Back => "Back",
            Action::Forward => "Forward",
            Action::MiddleClick => "Middle Click",
            Action::DoubleClick => "Double Click",
        }
    }

    /// Whether the press passes through untouched.
    pub fn is_default(&self) -> (r: bool)
        ensures
            r == (*self is Default),
    {
        match self {
            Action::Default => true,
            _ => false,
        }
    }
}

/// Each canonical string parses back to its own action.
pub proof fn lemma_name_round_trip(a: Action)
    ensures
        action_of(action_name(a)) == a,
{
    reveal_strlit("Default");
    reveal_strlit("Disabled");
    reveal_strlit("Back");
    reveal_strlit("Forward");
    reveal_strlit("Middle Click");
    reveal_strlit("Double Click");
    assert("Default"@.len() == 7 && "Default"@[0] == 'D');
    assert("Disabled"@.len() == 8 && "Disabled"@[0] == 'D');
    assert("Back"@.len() == 4 && "Back"@[0] == 'B');
    assert("Forward"@.len() == 7 && "Forward"@[0] == 'F');
    assert("Middle Click"@.len() == 12 && "Middle Click"@[0] == 'M');
    assert("Double Click"@.len() == 12 && "Double Click"@[0] == 'D');
}

/// A string that is none of the canonical names of the non-default actions parses to
/// `Default`, and parsing the name of a parsed action gives that action again.
pub proof fn lemma_parse_idempotent(s: Seq<char>)
    ensures
        (s != "Disabled"@ && s != "Back"@ && s != "Forward"@ && s != "Middle Click"@ && s
            != "Double Click"@) ==> action_of(s) == Action::Default,
        action_of(action_name(action_of(s))) == action_of(s),
{
    lemma_name_round_trip(action_of(s));
}

} // verus!
