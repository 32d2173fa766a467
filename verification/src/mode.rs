//! Where an iterator starts and which way it goes.
//!
//! The host writes a mode as the atom `start`, as the atom `end`, or as the
//! tuple of the atom `from`, a key and one of the atoms `forward` and
//! `reverse`.

use vstd::prelude::*;
use vstd::string::*;
use crate::term::{Term, Value, BadArgument, atom, text_of, values, copy_bytes, view_of_items};

verus! {

/// The way in which an iterator goes through the keys.
#[derive(Clone, Copy, Debug, PartialEq, Eq, Structural)]
pub enum Direction {
    /// Towards greater keys.
    Forward,
    /// Towards lesser keys.
    Reverse,
}

/// What an [`IterMode`] stands for.
pub enum Position {
    Start,
    End,
    From(Seq<u8>, Direction),
}

/// The place at which an iterator is put, and the way it goes from there.
#[derive(Clone, Debug, PartialEq, Eq)]
pub enum IterMode {
    /// At the least key, going forward.
    Start,
    /// At the greatest key, going in reverse.
    End,
    /// At the first key that is not less than the given one, going in the
    /// given direction.
    From(Vec<u8>, Direction),
}

impl View for IterMode {
    type V = Position;

    open spec fn view(&self) -> Position {
        match self {
            IterMode::Start => Position::Start,
            IterMode::End => Position::End,
            IterMode::From(key, direction) => Position::From(key@, *direction),
        }
    }
}

/// The direction that a value names.
pub open spec fn direction_of(value: Value) -> Option<Direction> {
    if value == atom("forward") {
        Some(Direction::Forward)
    } else if value == atom("reverse") {
        Some(Direction::Reverse)
    } else {
        None
    }
}

/// The mode that a value of the host stands for, if it has the shape of one.
/// The key of a `from` tuple is a binary that holds UTF-8 text.
pub open spec fn position_of(value: Value) -> Option<Position> {
    if value == atom("start") {
        Some(Position::Start)
    } else if value == atom("end") {
        Some(Position::End)
    } else {
        match value {
            Value::Tuple(items) => if items.len() == 3 && items[0] == atom("from") {
                match (text_of(items[1]), direction_of(items[2])) {
                    (Some(key), Some(direction)) => Some(Position::From(key, direction)),
                    _ => None,
                }
            } else {
                None
            },
            _ => None,
        }
    }
}

/// Reads a direction.
pub fn decode_direction(term: &Term) -> (decoded: Result<Direction, BadArgument>)
    ensures
        match direction_of(term@) {
            Some(direction) => decoded == Ok::<Direction, BadArgument>(direction),
            None => decoded is Err,
        },
{
    if term.is_atom("forward") {
        Ok(Direction::Forward)
    } else if term.is_atom("reverse") {
        Ok(Direction::Reverse)
    } else {
        Err(BadArgument)
    }
}

/// Reads an iterator's mode.  A value of any other shape is refused.
pub fn decode_iterator_mode(term: &Term) -> (decoded: Result<IterMode, BadArgument>)
    ensures
        match position_of(term@) {
            Some(position) => decoded is Ok && decoded.unwrap()@ == position,
            None => decoded is Err,
        },
{
    if term.is_atom("start") {
        Ok(IterMode::Start)
    } else if term.is_atom("end") {
        Ok(IterMode::End)
    } else {
        match term {
            Term::Tuple(items) => {
                proof {
                    view_of_items(*items);
                }
                if items.len() != 3 {
                    return Err(BadArgument);
                }
                if !items[0].is_atom("from") {
                    return Err(BadArgument);
                }
                match items[1].text() {
                    Some(key) => match decode_direction(&items[2]) {
                        Ok(direction) => Ok(IterMode::From(copy_bytes(key.as_slice()), direction)),
                        Err(refusal) => Err(refusal),
                    },
                    None => Err(BadArgument),
                }
            },
            _ => Err(BadArgument),
        }
    }
}

} // verus!
