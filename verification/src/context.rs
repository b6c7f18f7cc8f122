//! The invocation context and the implicit-field extractors that read it.

use vstd::prelude::*;

use crate::errors::OptionError;
use crate::wire::WireValueView;

verus! {

/// What the surrounding invocation exposes to extractors: the invoking
/// identity, as the platform delivers it.  The identity may arrive inside a
/// member sub-object or as a top-level user field; either may be absent.
#[derive(Clone, Copy, Debug)]
pub struct Context {
    /// The user identifier of the member sub-object's user, if present.
    pub member_user: Option<u64>,
    /// The top-level user identifier, if present.
    pub user: Option<u64>,
}

/// The fixed menu of implicit extractors a field can be bound to.
#[derive(Clone, Copy, Debug, PartialEq, Eq, Structural)]
pub enum Extractor {
    /// Derives the invoking user's identity from the context.
    InvokingUser,
}

/// The invoking identity: the member sub-object's user if present, else the
/// top-level user; the absence of both is a `Missing` failure.
pub open spec fn spec_parse_user(ctx: Context) -> Result<u64, OptionError> {
    match ctx.member_user {
        Some(u) => Ok(u),
        None => match ctx.user {
            Some(u) => Ok(u),
            None => Err(OptionError::Missing),
        },
    }
}

/// Extract the invoking user's identity from the context, preferring the
/// member sub-object's user over the top-level user.
pub fn parse_user(ctx: &Context) -> (r: Result<u64, OptionError>)
    ensures
        r == spec_parse_user(*ctx),
{
    match ctx.member_user {
        Some(u) => Ok(u),
        None => match ctx.user {
            Some(u) => Ok(u),
            None => Err(OptionError::Missing),
        },
    }
}

/// What an extractor derives from the context.
pub open spec fn spec_extract(e: Extractor, ctx: Context) -> Result<WireValueView, OptionError> {
    match e {
        Extractor::InvokingUser => match spec_parse_user(ctx) {
            Ok(u) => Ok(WireValueView::User(u)),
            Err(err) => Err(err),
        },
    }
}

/// Run an extractor against the context.
pub fn run_extractor(e: Extractor, ctx: &Context) -> (r: Result<crate::wire::WireValue, OptionError>)
    ensures
        match r {
            Ok(v) => spec_extract(e, *ctx) == Ok::<WireValueView, OptionError>(v@),
            Err(err) => spec_extract(e, *ctx) == Err::<WireValueView, OptionError>(err),
        },
{
    match e {
        Extractor::InvokingUser => match parse_user(ctx) {
            Ok(u) => Ok(crate::wire::WireValue::User(u)),
            Err(err) => Err(err),
        },
    }
}

} // verus!
