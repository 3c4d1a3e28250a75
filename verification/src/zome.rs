//! The endpoints that every zome of the family offers alike: reading and
//! setting the expressions of a path, and stepping a value. Each endpoint is
//! one call of the sensemaker cell; the function gives the session that waits
//! for the reply, and the call to make.

use crate::hash::EntryHash;
use crate::host::{HostCall, HostCallView};
use crate::response::{Effect, EffectView};
use crate::sensemaker::{RequestView, SensemakerRequest, SmTag};
use crate::session::{Awaited, Session, SessionView};
use vstd::prelude::*;

verus! {

/// An endpoint that makes the one call `request` and turns the reply into
/// `awaited`.
pub open spec fn single_call(awaited: Awaited, request: RequestView) -> (SessionView, EffectView) {
    (SessionView::Awaiting(awaited), EffectView::Call(HostCallView::Sensemaker(request)))
}

/// Starts an endpoint that makes one call of the sensemaker cell.
fn ask(awaited: Awaited, request: SensemakerRequest) -> (start: (Session, Effect))
    ensures
        (start.0@, start.1@) == single_call(awaited, request@),
{
    (Session::Awaiting(awaited), Effect::Call(HostCall::Sensemaker(request)))
}

/// Reads the latest entry under `path_string` and the tag, with its address.
/// Returns `Response::Entry`: `None` where nothing is kept there yet.
pub fn get_sm_generic(path_string: String, tag: SmTag) -> (start: (Session, Effect))
    ensures
        (start.0@, start.1@) == single_call(
            Awaited::Entry,
            RequestView::GetEntryByPath { path: path_string@, tag },
        ),
{
    ask(Awaited::Entry, SensemakerRequest::GetEntryByPath { path: path_string, tag })
}

/// Reads the latest entry under `path_string` and the tag, with its address
/// and the address of its record. Returns `Response::Record`.
pub fn get_sm_generic_with_hh(path_string: String, tag: SmTag) -> (start: (Session, Effect))
    ensures
        (start.0@, start.1@) == single_call(
            Awaited::Record,
            RequestView::GetEntryByPathWithHh { path: path_string@, tag },
        ),
{
    ask(Awaited::Record, SensemakerRequest::GetEntryByPathWithHh { path: path_string, tag })
}

/// Reads the initial expression of `path_string`.
pub fn get_sm_init(path_string: String) -> (start: (Session, Effect))
    ensures
        (start.0@, start.1@) == single_call(
            Awaited::Entry,
            RequestView::GetEntryByPath { path: path_string@, tag: SmTag::Init },
        ),
{
    get_sm_generic(path_string, SmTag::Init)
}

/// Reads the transition expression of `path_string`.
pub fn get_sm_comp(path_string: String) -> (start: (Session, Effect))
    ensures
        (start.0@, start.1@) == single_call(
            Awaited::Entry,
            RequestView::GetEntryByPath { path: path_string@, tag: SmTag::Comp },
        ),
{
    get_sm_generic(path_string, SmTag::Comp)
}

/// Has the sensemaker cell parse `expr_str` and keep it under `path_string`
/// and the tag. Returns `Response::Flag(true)` once the cell has taken it.
pub fn set_sensemaker_entry(path_string: String, tag: SmTag, expr_str: String) -> (start: (
    Session,
    Effect,
))
    ensures
        (start.0@, start.1@) == single_call(
            Awaited::Flag,
            RequestView::SetEntryParseRlExpr { path: path_string@, tag, expr: expr_str@ },
        ),
{
    ask(
        Awaited::Flag,
        SensemakerRequest::SetEntryParseRlExpr { path: path_string, tag, expr: expr_str },
    )
}

/// Sets the initial expression of `path_string` to `expr_str`.
pub fn set_sm_init(path_string: String, expr_str: String) -> (start: (Session, Effect))
    ensures
        (start.0@, start.1@) == single_call(
            Awaited::Flag,
            RequestView::SetEntryParseRlExpr {
                path: path_string@,
                tag: SmTag::Init,
                expr: expr_str@,
            },
        ),
{
    set_sensemaker_entry(path_string, SmTag::Init, expr_str)
}

/// Sets the transition expression of `path_string` to `expr_str`.
pub fn set_sm_comp(path_string: String, expr_str: String) -> (start: (Session, Effect))
    ensures
        (start.0@, start.1@) == single_call(
            Awaited::Flag,
            RequestView::SetEntryParseRlExpr {
                path: path_string@,
                tag: SmTag::Comp,
                expr: expr_str@,
            },
        ),
{
    set_sensemaker_entry(path_string, SmTag::Comp, expr_str)
}

/// Applies the action `act` to the value kept for `entry_hash` under the
/// namespace `path_string`. Returns `Response::Unit`.
pub fn step_sm_remote(path_string: String, entry_hash: EntryHash, act: String) -> (start: (
    Session,
    Effect,
))
    ensures
        (start.0@, start.1@) == single_call(
            Awaited::Unit,
            RequestView::StepSm { path: path_string@, target: entry_hash@, action: act@ },
        ),
{
    ask(
        Awaited::Unit,
        SensemakerRequest::StepSm { path: path_string, target: entry_hash, action: act },
    )
}

/// Applies the action `act` to the value kept for the address `address`,
/// which is text already, under the namespace `path_string`. Returns
/// `Response::Unit`.
pub fn step_sm_path_remote(path_string: String, address: String, act: String) -> (start: (
    Session,
    Effect,
))
    ensures
        (start.0@, start.1@) == single_call(
            Awaited::Unit,
            RequestView::StepSmPath { path: path_string@, address: address@, action: act@ },
        ),
{
    ask(Awaited::Unit, SensemakerRequest::StepSmPath { path: path_string, address, action: act })
}

} // verus!
