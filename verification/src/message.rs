//! Error messages as sequences of parts.
//!
//! A message is assembled here and rendered by whoever prints it: the parts fix the
//! wording and the order of the values, not how a number is written.

use vstd::prelude::*;

use crate::binary64::Binary64;
use crate::meshless_2d::Vector2;

verus! {

/// One part of a message.
#[derive(Clone, Copy, Debug, PartialEq)]
pub enum MessagePart {
    /// Literal text, or the name of a field.
    Text(&'static str),
    /// A count or an index.
    Count(usize),
    /// An index that may be absent.
    OptionalCount(Option<usize>),
    /// A number.
    Value(Binary64),
    /// A number that may be absent.
    OptionalValue(Option<Binary64>),
    /// A planar vector.
    Vector(Vector2),
}

} // verus!
