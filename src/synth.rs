use vstd::prelude::*;

verus! {

/// Key code of the "navigate back" key (left bracket).
pub const KEYCODE_LEFT_BRACKET: u16 = 0x21;

/// Key code of the "navigate forward" key (right bracket).
pub const KEYCODE_RIGHT_BRACKET: u16 = 0x1E;

/// Logical button number of the left button.
pub const LEFT_BUTTON: i64 = 0;

/// Logical button number of the middle button.
pub const MIDDLE_BUTTON: i64 = 2;

/// Marker stored in the user-data field of every posted event, so that the hook can
/// tell its own replacement input from physical input.
pub const SYNTHETIC_EVENT_TAG: i64 = 0x45444d53;

/// Whether an event whose user-data field holds `user_data` was posted by the hook.
pub fn is_self_posted(user_data: i64) -> (r: bool)
    ensures
        r == (user_data == SYNTHETIC_EVENT_TAG),
{
    user_data == SYNTHETIC_EVENT_TAG
}

/// One replacement input event to post. Key events carry the command modifier; mouse
/// events are posted at the cursor location of the event they replace and are tagged
/// with `button`.
#[derive(Clone, Copy, Debug, PartialEq, Eq, Structural)]
pub enum SyntheticEvent {
    KeyDown { keycode: u16 },
    KeyUp { keycode: u16 },
    MouseDown { button: i64 },
    MouseUp { button: i64 },
}

/// A key press and release of `keycode`.
pub open spec fn chord_plan(keycode: u16) -> Seq<SyntheticEvent> {
    seq![SyntheticEvent::KeyDown { keycode }, SyntheticEvent::KeyUp { keycode }]
}

/// `count` successive down/up pairs of `button`.
pub open spec fn click_plan(button: i64, count: nat) -> Seq<SyntheticEvent>
    decreases count,
{
    if count == 0 {
        Seq::empty()
    } else {
        click_plan(button, (count - 1) as nat) + seq![
            SyntheticEvent::MouseDown { button },
            SyntheticEvent::MouseUp { button },
        ]
    }
}

/// The events of one chord: key down then key up, both with the command modifier.
pub fn key_combo(keycode: u16) -> (r: Vec<SyntheticEvent>)
    ensures
        r@ == chord_plan(keycode),
{
    let mut r: Vec<SyntheticEvent> = Vec::new();
    r.push(SyntheticEvent::KeyDown { keycode });
    r.push(SyntheticEvent::KeyUp { keycode });
    assert(r@ =~= chord_plan(keycode));
    r
}

/// The events of one click of `button`, or of two when `double` is set.
pub fn mouse_click(button: i64, double: bool) -> (r: Vec<SyntheticEvent>)
    ensures
        r@ == click_plan(button, if double { 2 } else { 1 }),
{
    let clicks: usize = if double { 2 } else { 1 };
    let mut r: Vec<SyntheticEvent> = Vec::new();
    let mut k: usize = 0;
    while k < clicks
        invariant
            k <= clicks,
            clicks == (if double { 2usize } else { 1usize }),
            r@ == click_plan(button, k as nat),
        decreases clicks - k,
    {
        r.push(SyntheticEvent::MouseDown { button });
        r.push(SyntheticEvent::MouseUp { button });
        proof {
            assert(r@ =~= click_plan(button, (k + 1) as nat));
        }
        k = k + 1;
    }
    r
}

} // verus!
