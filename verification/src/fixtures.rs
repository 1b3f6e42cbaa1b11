//! **The argument sets a caller starts from**: each verb's arguments with
//! only what identifies the call filled in, and every optional argument
//! left off — the shape a test or a client builds on.

use vstd::prelude::*;
use crate::capture::CaptureArgs;
use crate::entities::{AddEntityArgs, UpdateFactArgs};
use crate::recall::RecallArgs;
use crate::search::SearchArgs;
use crate::text::text;

verus! {

/// The session a prepared call speaks for.
pub const TEST_SID: &'static str = "sid-test";

/// A `capture` of `content` about `subject`, for the prepared session.
pub fn capture_args(subject: &str, content: &str) -> (a: CaptureArgs)
    ensures
        a.subject@ == subject@,
        a.content@ == content@,
        a.details is None,
        a.provenance is None,
        a.standing is None,
        a.recorded_at is None,
        a.happened_at is None,
        a.shape is None,
        a.object is None,
        a.derived_from is None,
        a.fields is None,
        a.refs is None,
        a.check_in is None,
        a.stale_after is None,
        a.sid matches Some(s) && s@ == TEST_SID@,
{
    CaptureArgs {
        subject: text(subject),
        content: text(content),
        details: None,
        provenance: None,
        standing: None,
        recorded_at: None,
        happened_at: None,
        shape: None,
        object: None,
        derived_from: None,
        fields: None,
        refs: None,
        check_in: None,
        stale_after: None,
        sid: Some(text(TEST_SID)),
    }
}

/// A `recall` of one subject that asks for its records.
pub fn recall_args(subject: &str) -> (a: RecallArgs)
    ensures
        a.subject matches Some(s) && s@ == subject@,
        a.facts == Some(true),
        a.kind is None,
        a.answers_type is None,
        a.fields is None,
        a.prose is None,
        a.charter is None,
        a.history is None,
        a.history_most is None,
        a.backing is None,
        a.built_on is None,
        a.values is None,
        a.values_most is None,
        a.overdue is None,
        a.near is None,
        a.follow is None,
        a.view is None,
        a.sid is None,
{
    RecallArgs {
        subject: Some(text(subject)),
        kind: None,
        answers_type: None,
        fields: None,
        facts: Some(true),
        prose: None,
        charter: None,
        history: None,
        history_most: None,
        backing: None,
        built_on: None,
        values: None,
        values_most: None,
        overdue: None,
        near: None,
        follow: None,
        view: None,
        sid: None,
    }
}

/// An `update_fact` of the record at `address` that changes nothing yet, for
/// the prepared session.
pub fn update_args(address: &str) -> (a: UpdateFactArgs)
    ensures
        a.address@ == address@,
        a.fields is None,
        a.clear_fields is None,
        a.content is None,
        a.details is None,
        a.status is None,
        a.standing is None,
        a.provenance is None,
        a.confirmed_by_user is None,
        a.shape is None,
        a.object is None,
        a.recorded_at is None,
        a.happened_at is None,
        a.stale_after is None,
        a.clear_stale_after is None,
        a.derived_from is None,
        a.clear_derived_from is None,
        a.sid matches Some(s) && s@ == TEST_SID@,
{
    UpdateFactArgs {
        address: text(address),
        fields: None,
        clear_fields: None,
        content: None,
        details: None,
        status: None,
        standing: None,
        provenance: None,
        confirmed_by_user: None,
        shape: None,
        object: None,
        recorded_at: None,
        happened_at: None,
        stale_after: None,
        clear_stale_after: None,
        derived_from: None,
        clear_derived_from: None,
        sid: Some(text(TEST_SID)),
    }
}

/// An `add_entity` of `kind:handle` called `name`, sourced to the user.
pub fn add_args(kind: &str, handle: &str, name: &str) -> (a: AddEntityArgs)
    ensures
        a.kind@ == kind@,
        a.handle@ == handle@,
        a.name@ == name@,
        a.aliases is None,
        a.source@ == "user-named"@,
        a.crm is None,
        a.boot is None,
        a.override_token is None,
        a.sid matches Some(s) && s@ == TEST_SID@,
{
    AddEntityArgs {
        kind: text(kind),
        handle: text(handle),
        name: text(name),
        aliases: None,
        source: text("user-named"),
        crm: None,
        boot: None,
        override_token: None,
        sid: Some(text(TEST_SID)),
    }
}

/// A `search` that narrows nothing and asks nothing.
pub fn search_args() -> (a: SearchArgs)
    ensures
        a.query is None,
        a.kind is None,
        a.status is None,
        a.provenance is None,
        a.standing is None,
        a.subject is None,
        a.edge is None,
        a.answers_type is None,
        a.fits_type is None,
        a.include_mail is None,
        a.limit is None,
        a.sid is None,
{
    SearchArgs {
        query: None,
        kind: None,
        status: None,
        provenance: None,
        standing: None,
        subject: None,
        edge: None,
        answers_type: None,
        fits_type: None,
        include_mail: None,
        limit: None,
        sid: None,
    }
}

} // verus!
