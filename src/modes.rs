//! The normal-mode state machine and the commands it produces.
use vstd::prelude::*;

use crate::grammar::{
    digit_from_char, digit_value, direction_token, lemma_motion_has_direction, motion_token,
    object_token, operator_token, range_token, Direction, Motion, ObjMotion, ObjRange, Operator,
    TextObject,
};

verus! {

/// A completed command: a bare cursor motion, or an operator over a range.
#[derive(Debug, Clone, Copy, PartialEq, Eq, Structural)]
pub enum Command {
    Motion(usize, Motion, Direction),
    Operation(Operation),
}

/// An operator applied over the range of a motion or of a text object.
#[derive(Debug, Clone, Copy, PartialEq, Eq, Structural)]
pub enum Operation {
    Motion(usize, Operator, Motion, Direction),
    TextObject(usize, Operator, TextObject),
}

/// Progress through one normal-mode command: a repeat count, then possibly an
/// operator, then possibly a text-object range qualifier.
#[derive(Debug, Clone, PartialEq, Eq, Structural)]
pub enum NormalMinor {
    /// The repeat count typed so far; `None` when no digit has been typed.
    Initial(Option<usize>),
    OperatorPending(usize, Operator),
    TextObjectPending(usize, Operator, ObjRange),
}

/// The state in which every command starts.
pub open spec fn initial_minor() -> NormalMinor {
    NormalMinor::Initial(None)
}

/// The count a command carries: the digits typed, or one where they were
/// none or spelled zero.
pub open spec fn effective_count(repeat: Option<usize>) -> usize {
    match repeat {
        Some(n) => if n == 0 { 1 } else { n },
        None => 1,
    }
}

/// The repeat count after one more digit, held at `usize::MAX` once it no
/// longer fits.
pub open spec fn push_digit(repeat: Option<usize>, digit: usize) -> usize {
    let v = repeat.unwrap_or(0) * 10 + digit;
    if v > usize::MAX { usize::MAX } else { v as usize }
}

/// One transition of the normal-mode grammar: the next state, and the
/// command that the character completes, if any.
pub open spec fn step(s: NormalMinor, ch: char) -> (NormalMinor, Option<Command>) {
    match s {
        NormalMinor::Initial(repeat) => {
            if digit_value(ch) is Some {
                (NormalMinor::Initial(Some(push_digit(repeat, digit_value(ch).unwrap()))), None)
            } else if operator_token(ch) is Some {
                (
                    NormalMinor::OperatorPending(effective_count(repeat), operator_token(ch).unwrap()),
                    None,
                )
            } else if motion_token(ch) is Some {
                (
                    initial_minor(),
                    Some(
                        Command::Motion(
                            effective_count(repeat),
                            motion_token(ch).unwrap(),
                            direction_token(ch).unwrap(),
                        ),
                    ),
                )
            } else {
                (initial_minor(), None)
            }
        },
        NormalMinor::OperatorPending(repeat, op) => {
            if motion_token(ch) is Some {
                (
                    initial_minor(),
                    Some(
                        Command::Operation(
                            Operation::Motion(
                                repeat,
                                op,
                                motion_token(ch).unwrap(),
                                direction_token(ch).unwrap(),
                            ),
                        ),
                    ),
                )
            } else if range_token(ch) is Some {
                (NormalMinor::TextObjectPending(repeat, op, range_token(ch).unwrap()), None)
            } else {
                (initial_minor(), None)
            }
        },
        NormalMinor::TextObjectPending(repeat, op, range) => {
            if object_token(ch) is Some {
                (
                    initial_minor(),
                    Some(
                        Command::Operation(
                            Operation::TextObject(
                                repeat,
                                op,
                                TextObject(range, object_token(ch).unwrap()),
                            ),
                        ),
                    ),
                )
            } else {
                (initial_minor(), None)
            }
        },
    }
}

impl NormalMinor {
    /// A pending command never carries a count below one.
    pub open spec fn wf(&self) -> bool {
        match *self {
            NormalMinor::Initial(_) => true,
            NormalMinor::OperatorPending(repeat, _) => repeat >= 1,
            NormalMinor::TextObjectPending(repeat, _, _) => repeat >= 1,
        }
    }

    /// Feeds one character; returns the command it completes, if any.
    pub fn consume_char(&mut self, ch: char) -> (r: Option<Command>)
        ensures
            (*final(self), r) == step(*old(self), ch),
    {
        proof {
            lemma_motion_has_direction(ch);
        }
        match *self {
            NormalMinor::Initial(repeat) => {
                if let Some(digit) = digit_from_char(ch) {
                    let base: usize = match repeat {
                        Some(n) => n,
                        None => 0,
                    };
                    let next: usize = match base.checked_mul(10) {
                        Some(t) => t.saturating_add(digit),
                        None => usize::MAX,
                    };
                    *self = NormalMinor::Initial(Some(next));
                    return None;
                }
                let count: usize = match repeat {
                    Some(n) => if n == 0 { 1 } else { n },
                    None => 1,
                };
                if let Some(operator) = Operator::from_char(ch) {
                    *self = NormalMinor::OperatorPending(count, operator);
                    return None;
                }
                if let Some(motion) = Motion::from_char(ch) {
                    let cmd = Some(Command::Motion(count, motion, Direction::from_char(ch).unwrap()));
                    *self = NormalMinor::default();
                    return cmd;
                }
                // Not a continuation: drop the sequence and the character.
                *self = NormalMinor::default();
                None
            },
            NormalMinor::OperatorPending(repeat, operator) => {
                if let Some(motion) = Motion::from_char(ch) {
                    let cmd = Some(
                        Command::Operation(
                            Operation::Motion(
                                repeat,
                                operator,
                                motion,
                                Direction::from_char(ch).unwrap(),
                            ),
                        ),
                    );
                    *self = NormalMinor::default();
                    return cmd;
                }
                if let Some(obj_range) = ObjRange::from_char(ch) {
                    *self = NormalMinor::TextObjectPending(repeat, operator, obj_range);
                    return None;
                }
                *self = NormalMinor::default();
                None
            },
            NormalMinor::TextObjectPending(repeat, operator, range) => {
                if let Some(obj_motion) = ObjMotion::from_char(ch) {
                    let cmd = Some(
                        Command::Operation(
                            Operation::TextObject(repeat, operator, TextObject(range, obj_motion)),
                        ),
                    );
                    *self = NormalMinor::default();
                    return cmd;
                }
                *self = NormalMinor::default();
                None
            },
        }
    }
}

impl Default for NormalMinor {
    fn default() -> (r: Self)
        ensures
            r == initial_minor(),
    {
        NormalMinor::Initial(None)
    }
}

/// Normal-mode state: the command being assembled.
#[derive(Debug, Clone)]
pub struct Normal {
    pub minor: NormalMinor,
}

impl Normal {
    /// Feeds one character; returns the command it completes, if any.
    pub fn consume_char(&mut self, ch: char) -> (r: Option<Command>)
        ensures
            (final(self).minor, r) == step(old(self).minor, ch),
    {
        self.minor.consume_char(ch)
    }
}

impl Default for Normal {
    fn default() -> (r: Self)
        ensures
            r.minor == initial_minor(),
    {
        Normal { minor: NormalMinor::default() }
    }
}

/// The editing mode that keystrokes are interpreted in.
#[derive(Debug, Clone)]
pub enum Mode {
    Normal(Normal),
}

impl Mode {
    /// The progress of the command being assembled in the active mode.
    pub open spec fn minor_state(&self) -> NormalMinor {
        match self {
            Mode::Normal(normal) => normal.minor,
        }
    }

    /// Feeds one character to the active mode; returns the command it
    /// completes, if any.
    pub fn consume_char(&mut self, ch: char) -> (r: Option<Command>)
        ensures
            (final(self).minor_state(), r) == step(old(self).minor_state(), ch),
    {
        match self {
            Mode::Normal(normal) => normal.consume_char(ch),
        }
    }
}

impl Default for Mode {
    fn default() -> (r: Self)
        ensures
            r.minor_state() == initial_minor(),
    {
        Mode::Normal(Normal::default())
    }
}

} // verus!
