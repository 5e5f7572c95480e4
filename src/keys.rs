//! Keyboard dispatch: escape quits, 'g' / 'c' / 'o' pick the display base,
//! space halts playback, every other key is ignored.
use vstd::prelude::*;
use crate::session::{State, VisualOutputBase};

verus! {

/// The key code of escape.
pub const KEY_ESCAPE: i32 = 27;

/// The key code of space.
pub const KEY_SPACE: i32 = 32;

/// The key code of 'g', which selects the grayscale base.
pub const SELECT_GRAY_OUTPUT: i32 = 103;

/// The key code of 'c', which selects the edge-map base.
pub const SELECT_CANNY_OUTPUT: i32 = 99;

/// The key code of 'o', which selects the raw frame as base.
pub const SELECT_ORIGINAL_OUTPUT: i32 = 111;

/// What the caller does after a key was dispatched.
#[derive(Clone, Copy, Debug, PartialEq, Eq, Structural)]
pub enum KeyAction {
    /// End the process successfully.
    Exit,
    /// Go on with the session.
    Continue,
}

/// The session after `key` was pressed in `s`.
pub open spec fn key_effect<I>(s: State<I>, key: i32) -> State<I> {
    if key == SELECT_GRAY_OUTPUT {
        State { visual_output_base: VisualOutputBase::Gray, ..s }
    } else if key == SELECT_CANNY_OUTPUT {
        State { visual_output_base: VisualOutputBase::Canny, ..s }
    } else if key == SELECT_ORIGINAL_OUTPUT {
        State { visual_output_base: VisualOutputBase::Original, ..s }
    } else if key == KEY_SPACE {
        State { halted: true, ..s }
    } else {
        s
    }
}

/// What the caller is asked to do after `key`.
pub open spec fn key_action(key: i32) -> KeyAction {
    if key == KEY_ESCAPE {
        KeyAction::Exit
    } else {
        KeyAction::Continue
    }
}

/// Applies the key `key_pressed` to the session.
pub fn match_key<I>(state: &mut State<I>, key_pressed: i32) -> (r: KeyAction)
    ensures
        *final(state) == key_effect(*old(state), key_pressed),
        r == key_action(key_pressed),
{
    if key_pressed == KEY_ESCAPE {
        KeyAction::Exit
    } else {
        if key_pressed == SELECT_GRAY_OUTPUT {
            state.select_visual_output_base(VisualOutputBase::Gray);
        } else if key_pressed == SELECT_CANNY_OUTPUT {
            state.select_visual_output_base(VisualOutputBase::Canny);
        } else if key_pressed == SELECT_ORIGINAL_OUTPUT {
            state.select_visual_output_base(VisualOutputBase::Original);
        } else if key_pressed == KEY_SPACE {
            state.halted = true;
        }
        KeyAction::Continue
    }
}

/// Pressing a key a second time changes nothing more: the display base does
/// not drift, and 'g' leaves the grayscale base selected.
pub proof fn lemma_key_repeat_is_idempotent<I>(s: State<I>, key: i32)
    ensures
        key_effect(key_effect(s, key), key) == key_effect(s, key),
        key == SELECT_GRAY_OUTPUT ==> key_effect(s, key).visual_output_base
            == VisualOutputBase::Gray,
        key == SELECT_GRAY_OUTPUT ==> key_effect(key_effect(s, key), key).visual_output_base
            == VisualOutputBase::Gray,
{
}

/// Space sets the halted flag, and no key clears it.
pub proof fn lemma_halted_is_sticky<I>(s: State<I>, key: i32)
    ensures
        key_effect(s, KEY_SPACE).halted,
        s.halted ==> key_effect(s, key).halted,
        key != KEY_SPACE ==> key_effect(s, key).halted == s.halted,
{
}

/// A key changes only the display base and the halted flag: the frames and
/// the matches stay as they were.
pub proof fn lemma_key_keeps_frames<I>(s: State<I>, key: i32)
    ensures
        key_effect(s, key).previous_frame_state == s.previous_frame_state,
        key_effect(s, key).current_frame_state == s.current_frame_state,
        key_effect(s, key).matches == s.matches,
{
}

} // verus!
