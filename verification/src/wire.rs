//! Wire-level vocabulary: the closed set of option kinds the platform
//! defines, numeric bounds, and the tagged values an invocation carries.

use vstd::prelude::*;

verus! {

/// The kind tag of a command option, as the platform defines it.
#[derive(Clone, Copy, Debug, PartialEq, Eq, Structural)]
pub enum OptionType {
    String,
    Integer,
    Number,
    User,
    Role,
    Channel,
    Mentionable,
}

/// A numeric bound attached to a numeric option: either a signed integer or
/// the bit pattern of a 64-bit wire float.  The engine never computes with a
/// float; it only carries the bits through to the descriptor.
#[derive(Clone, Copy, Debug, PartialEq, Eq, Structural)]
pub enum Bound {
    Int(i64),
    NumberBits(u64),
}

/// A tagged value as delivered on the wire with an invocation.  The `Number`
/// payload is the bit pattern of the 64-bit wire float; reference kinds carry
/// the referenced entity's numeric identifier.
#[derive(Debug, PartialEq, Eq)]
pub enum WireValue {
    String(String),
    Integer(i64),
    Number(u64),
    User(u64),
    Role(u64),
    Channel(u64),
    Mentionable(u64),
}

/// The mathematical model of a [`WireValue`].
pub enum WireValueView {
    String(Seq<char>),
    Integer(i64),
    Number(u64),
    User(u64),
    Role(u64),
    Channel(u64),
    Mentionable(u64),
}

impl View for WireValue {
    type V = WireValueView;

    open spec fn view(&self) -> WireValueView {
        match self {
            WireValue::String(s) => WireValueView::String(s@),
            WireValue::Integer(i) => WireValueView::Integer(*i),
            WireValue::Number(b) => WireValueView::Number(*b),
            WireValue::User(u) => WireValueView::User(*u),
            WireValue::Role(r) => WireValueView::Role(*r),
            WireValue::Channel(c) => WireValueView::Channel(*c),
            WireValue::Mentionable(m) => WireValueView::Mentionable(*m),
        }
    }
}

impl WireValueView {
    /// The kind tag this value carries.
    pub open spec fn kind(self) -> OptionType {
        match self {
            WireValueView::String(_) => OptionType::String,
            WireValueView::Integer(_) => OptionType::Integer,
            WireValueView::Number(_) => OptionType::Number,
            WireValueView::User(_) => OptionType::User,
            WireValueView::Role(_) => OptionType::Role,
            WireValueView::Channel(_) => OptionType::Channel,
            WireValueView::Mentionable(_) => OptionType::Mentionable,
        }
    }
}

impl WireValue {
    /// The kind tag this value carries.
    pub fn kind(&self) -> (k: OptionType)
        ensures
            k == self@.kind(),
    {
        match self {
            WireValue::String(_) => OptionType::String,
            WireValue::Integer(_) => OptionType::Integer,
            WireValue::Number(_) => OptionType::Number,
            WireValue::User(_) => OptionType::User,
            WireValue::Role(_) => OptionType::Role,
            WireValue::Channel(_) => OptionType::Channel,
            WireValue::Mentionable(_) => OptionType::Mentionable,
        }
    }
}

impl Clone for WireValue {
    fn clone(&self) -> (res: Self)
        ensures
            res == *self,
    {
        match self {
            WireValue::String(s) => WireValue::String(s.clone()),
            WireValue::Integer(i) => WireValue::Integer(*i),
            WireValue::Number(b) => WireValue::Number(*b),
            WireValue::User(u) => WireValue::User(*u),
            WireValue::Role(r) => WireValue::Role(*r),
            WireValue::Channel(c) => WireValue::Channel(*c),
            WireValue::Mentionable(m) => WireValue::Mentionable(*m),
        }
    }
}

} // verus!
