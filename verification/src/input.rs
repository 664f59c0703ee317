//! Keystroke classification: a logical input unit is either a command
//! character or a numeric selection built from a run of digits.

use vstd::prelude::*;

verus! {

/// One classified input event, independent of which screen is active.
#[derive(Clone, Copy, PartialEq, Eq, Structural, Debug)]
pub enum InputEvent {
    /// A command character: any non-digit keystroke.
    Command(char),
    /// A numeric selection accumulated from consecutive digit keystrokes.
    Number(usize),
}

/// A decimal digit character.
pub open spec fn is_digit(c: char) -> bool {
    '0' <= c && c <= '9'
}

/// The numeric value of a digit character.
pub open spec fn digit_value(c: char) -> int {
    c as int - '0' as int
}

/// Clamps a mathematical integer into the machine word: selection numbers
/// larger than `usize::MAX` saturate instead of wrapping.
pub open spec fn sat_usize(x: int) -> int {
    if x > usize::MAX as int {
        usize::MAX as int
    } else {
        x
    }
}

/// Classification of the keys from position `i` on, with the digits seen so
/// far accumulated into `acc`: digits extend the number; the first non-digit
/// makes the whole unit that command character; a unit of digits alone is
/// the accumulated number.
pub open spec fn spec_classify_at(keys: Seq<char>, i: int, acc: int) -> InputEvent
    decreases keys.len() - i,
{
    if i < 0 || i >= keys.len() {
        InputEvent::Number(sat_usize(acc) as usize)
    } else if is_digit(keys[i]) {
        spec_classify_at(keys, i + 1, sat_usize(acc * 10 + digit_value(keys[i])))
    } else {
        InputEvent::Command(keys[i])
    }
}

/// What one logical keystroke unit means: a run of digits is a numeric
/// selection (saturating at `usize::MAX`); a unit holding a non-digit is the
/// command named by its first non-digit. The empty unit reads as the
/// selection 0.
pub open spec fn spec_classify(keys: Seq<char>) -> InputEvent {
    spec_classify_at(keys, 0, 0)
}

/// Classifies one logical keystroke unit. Digit accumulation across
/// separate key presses belongs to the caller's input loop; this function
/// sees the finished unit.
pub fn classify(keys: &Vec<char>) -> (e: InputEvent)
    ensures
        e == spec_classify(keys@),
{
    let mut i: usize = 0;
    let mut acc: usize = 0;
    loop
        invariant
            0 <= i <= keys@.len(),
            spec_classify(keys@) == spec_classify_at(keys@, i as int, acc as int),
        decreases keys@.len() - i,
    {
        if i >= keys.len() {
            return InputEvent::Number(acc);
        }
        let c = keys[i];
        if '0' <= c && c <= '9' {
            let d = (c as u32 - '0' as u32) as usize;
            let wide: u128 = acc as u128 * 10 + d as u128;
            acc = if wide > usize::MAX as u128 {
                usize::MAX
            } else {
                wide as usize
            };
            i = i + 1;
        } else {
            return InputEvent::Command(c);
        }
    }
}

} // verus!
