//! Classifiers that map one character to one token of the normal-mode grammar.
use vstd::prelude::*;

verus! {

/// An action applied over the range that a following motion or text object covers.
#[derive(Debug, Clone, Copy, PartialEq, Eq, Structural)]
pub enum Operator {
    Change,
    Delete,
    Yank,
    Visual,
}

/// The operator that a character names, if any.
pub open spec fn operator_token(ch: char) -> Option<Operator> {
    match ch {
        'c' => Some(Operator::Change),
        'd' => Some(Operator::Delete),
        'y' => Some(Operator::Yank),
        'v' => Some(Operator::Visual),
        _ => None,
    }
}

impl Operator {
    pub fn from_char(ch: char) -> (r: Option<Operator>)
        ensures
            r == operator_token(ch),
    {
        match ch {
            'c' => Some(Operator::Change),
            'd' => Some(Operator::Delete),
            'y' => Some(Operator::Yank),
            'v' => Some(Operator::Visual),
            _ => None,
        }
    }
}

/// Whether a text object includes its surroundings (`a`) or not (`i`).
#[derive(Debug, Clone, Copy, PartialEq, Eq, Structural)]
pub enum ObjRange {
    Inner,
    Outer,
}

/// The range qualifier that a character names, if any.
pub open spec fn range_token(ch: char) -> Option<ObjRange> {
    match ch {
        'i' => Some(ObjRange::Inner),
        'a' => Some(ObjRange::Outer),
        _ => None,
    }
}

impl ObjRange {
    pub fn from_char(ch: char) -> (r: Option<ObjRange>)
        ensures
            r == range_token(ch),
    {
        match ch {
            'i' => Some(ObjRange::Inner),
            'a' => Some(ObjRange::Outer),
            _ => None,
        }
    }
}

/// The kind of span a text object covers.
#[derive(Debug, Clone, Copy, PartialEq, Eq, Structural)]
pub enum ObjMotion {
    Word,
}

/// The text-object kind that a character names, if any.
pub open spec fn object_token(ch: char) -> Option<ObjMotion> {
    match ch {
        'w' => Some(ObjMotion::Word),
        _ => None,
    }
}

impl ObjMotion {
    pub fn from_char(ch: char) -> (r: Option<ObjMotion>)
        ensures
            r == object_token(ch),
    {
        match ch {
            'w' => Some(ObjMotion::Word),
            _ => None,
        }
    }
}

/// A range qualifier together with the kind of span it qualifies.
#[derive(Debug, Clone, Copy, PartialEq, Eq, Structural)]
pub struct TextObject(pub ObjRange, pub ObjMotion);

/// The unit a cursor motion moves by. `Subword` stops at punctuation,
/// `Word` only at whitespace.
#[derive(Debug, Clone, Copy, PartialEq, Eq, Structural)]
pub enum Motion {
    Char,
    Subword,
    SubwordEnd,
    Word,
    WordEnd,
    Line,
}

/// The motion kind that a character names, if any.
pub open spec fn motion_token(ch: char) -> Option<Motion> {
    match ch {
        'h' | 'l' => Some(Motion::Char),
        'j' | 'k' => Some(Motion::Line),
        'w' | 'b' => Some(Motion::Subword),
        'W' | 'B' => Some(Motion::Word),
        'e' => Some(Motion::SubwordEnd),
        'E' => Some(Motion::WordEnd),
        _ => None,
    }
}

impl Motion {
    pub fn from_char(ch: char) -> (r: Option<Motion>)
        ensures
            r == motion_token(ch),
    {
        match ch {
            'h' => Some(Motion::Char),
            'l' => Some(Motion::Char),
            'j' => Some(Motion::Line),
            'k' => Some(Motion::Line),
            'w' => Some(Motion::Subword),
            'W' => Some(Motion::Word),
            'e' => Some(Motion::SubwordEnd),
            'E' => Some(Motion::WordEnd),
            'b' => Some(Motion::Subword),
            'B' => Some(Motion::Word),
            _ => None,
        }
    }
}

/// Which way a motion moves the cursor.
#[derive(Debug, Clone, Copy, PartialEq, Eq, Structural)]
pub enum Direction {
    Forward,
    Backward,
}

/// The direction that a motion character moves in, if any.
pub open spec fn direction_token(ch: char) -> Option<Direction> {
    match ch {
        'l' | 'j' | 'w' | 'W' | 'e' | 'E' => Some(Direction::Forward),
        'h' | 'k' | 'b' | 'B' => Some(Direction::Backward),
        _ => None,
    }
}

impl Direction {
    pub fn from_char(ch: char) -> (r: Option<Direction>)
        ensures
            r == direction_token(ch),
    {
        match ch {
            'h' => Some(Direction::Backward),
            'j' => Some(Direction::Forward),
            'k' => Some(Direction::Backward),
            'l' => Some(Direction::Forward),
            'w' => Some(Direction::Forward),
            'W' => Some(Direction::Forward),
            'e' => Some(Direction::Forward),
            'E' => Some(Direction::Forward),
            'b' => Some(Direction::Backward),
            'B' => Some(Direction::Backward),
            _ => None,
        }
    }
}

/// Every character that names a motion also names a direction.
pub proof fn lemma_motion_has_direction(ch: char)
    ensures
        motion_token(ch) is Some <==> direction_token(ch) is Some,
{
}

/// The value of a decimal digit character, if it is one.
pub open spec fn digit_value(ch: char) -> Option<usize> {
    if '0' <= ch && ch <= '9' {
        Some((ch as u32 - '0' as u32) as usize)
    } else {
        None
    }
}

pub fn digit_from_char(ch: char) -> (r: Option<usize>)
    ensures
        r == digit_value(ch),
{
    match ch {
        '0' => Some(0),
        '1' => Some(1),
        '2' => Some(2),
        '3' => Some(3),
        '4' => Some(4),
        '5' => Some(5),
        '6' => Some(6),
        '7' => Some(7),
        '8' => Some(8),
        '9' => Some(9),
        _ => None,
    }
}

} // verus!
