//! **Memory's refusals** — the guard's answers, and the line between a refusal
//! and a failure.
//!
//! A blocked answer is a SUCCESS whose body says `status: "blocked"`,
//! `wrote: false`: the caller named something that resembles what exists, or
//! named something that is not there, and nothing was written. A plain error is
//! a malformed call or the store itself failing. Callers branch on `status`;
//! they should never have to parse a failure.

use vstd::prelude::*;
use crate::text::{join, push_str, text};
use crate::vocab::{join_strings, EntityId, EntityMatch, ErrorCode, MatchReason, McpError};

verus! {

/// What the store answered a write or a read with, when it did not do it.
#[derive(Debug)]
#[allow(inconsistent_fields)]
pub enum MemoryError {
    /// A handle that names no entity, with the nearest ones.
    UnknownEntity { attempted: String, nearest: Vec<EntityMatch> },
    /// An address that names no fact, with the live addresses beside it.
    UnknownFact { attempted: String, nearest: Vec<String> },
    /// A record that is archived already.
    AlreadyRetracted { attempted: String },
    /// An observation that does not say where it was read.
    UnsourcedObservation,
    /// A record this verb will not take back, and why.
    NotRetractable { attempted: String, why: String },
    /// A kind token read by a process that loaded no kinds.
    KindsNeverLoaded { attempted: String },
    /// A fact the validators refuse.
    InvalidFact(String),
    /// A subject the validators refuse.
    InvalidSubject(String),
    /// An address the validators refuse.
    InvalidAddress(String),
    /// An entity the validators refuse.
    InvalidEntity(String),
    /// An edge the validators refuse.
    InvalidEdge(String),
    /// A query the validators refuse.
    InvalidQuery(String),
    /// A type declaration the validators refuse.
    InvalidType(String),
    /// A read of something that is another bot's.
    NotYours { attempted: String },
    /// A write repeating text the software supplies.
    RepeatsShipped,
    /// A declaration over a type the software owns.
    ShippedType { name: String },
    /// A write that would take keys a type requires off a thing.
    BreaksFit { name: String, keys: Vec<String> },
    /// A write whose value a declared key does not hold.
    BreaksType { name: String, key: String, wanted: String },
    /// A promotion to testimony without the operator's word.
    UnconfirmedPromotion,
    /// A hedged claim settled without the operator's word.
    UnconfirmedSettling,
    /// A rename whose two sides are one handle.
    NothingToRename { attempted: String },
    /// A handle an earlier rename moved.
    HandleMoved { attempted: String, now: String },
    /// A handle the software supplies, with nothing stored under it.
    SuppliedHandle { attempted: String },
    /// A merge whose two sides are one handle.
    NothingToMerge { attempted: String },
    /// A handle already merged away.
    AlreadyMerged { attempted: String, into: String },
    /// The store itself failed; the detail is its own account.
    Store(String),
    /// A build-supplied record colliding with a stored row.
    SuppliedRecordCollidesWithStoredRow { handle: String },
}

/// The sentence a [`MemoryError`] states about itself.
pub open spec fn said(e: MemoryError) -> Seq<char> {
    match e {
        MemoryError::UnknownEntity { attempted, nearest: _ } => "'"@ + attempted@ + "' is not an entity jojobot knows"@,
        MemoryError::UnknownFact { attempted, nearest: _ } => "'"@ + attempted@ + "' addresses no fact jojobot holds"@,
        MemoryError::AlreadyRetracted { attempted } => "'"@ + attempted@ + "' is already archived"@,
        MemoryError::UnsourcedObservation => "an observation has to say where it was read, and this one names no read_from"@,
        MemoryError::NotRetractable { attempted, why } => "'"@ + attempted@ + "' cannot be retracted: "@ + why@,
        MemoryError::KindsNeverLoaded { attempted } => "no kinds were loaded when this process started, so '"@ + attempted@ + "' cannot be read as one"@,
        MemoryError::InvalidFact(detail) => "this is no fact jojobot can keep: "@ + detail@,
        MemoryError::InvalidSubject(detail) => "this is no subject a fact can have: "@ + detail@,
        MemoryError::InvalidAddress(detail) => "this is no fact address: "@ + detail@,
        MemoryError::InvalidEntity(detail) => "this is no entity jojobot can keep: "@ + detail@,
        MemoryError::InvalidEdge(detail) => "this is no edge jojobot can draw: "@ + detail@,
        MemoryError::InvalidQuery(detail) => "this is no query jojobot can run: "@ + detail@,
        MemoryError::InvalidType(detail) => "this is no type jojobot can declare: "@ + detail@,
        MemoryError::NotYours { attempted } => "'"@ + attempted@ + "' belongs to another bot"@,
        MemoryError::RepeatsShipped => "what was sent repeats text the software already supplies"@,
        MemoryError::ShippedType { name } => "'"@ + name@ + "' is a type the software ships"@,
        MemoryError::BreaksFit { name, keys: _ } => "the write would leave this thing short of keys '"@ + name@ + "' requires"@,
        MemoryError::BreaksType { name, key, wanted } => "'"@ + key@ + "' on a '"@ + name@ + "' holds "@ + wanted@ + ", and the value written does not"@,
        MemoryError::UnconfirmedPromotion => "only the operator's own word makes a claim testimony, and this call carries no confirmation of it"@,
        MemoryError::UnconfirmedSettling => "only the operator settles a claim they hedged, and this call carries no confirmation of it"@,
        MemoryError::NothingToRename { attempted } => "'"@ + attempted@ + "' already answers to the handle this rename names"@,
        MemoryError::HandleMoved { attempted, now } => "'"@ + attempted@ + "' was renamed, and answers to '"@ + now@ + "' now"@,
        MemoryError::SuppliedHandle { attempted } => "'"@ + attempted@ + "' is supplied by the software, and nothing of it is stored"@,
        MemoryError::NothingToMerge { attempted } => "'"@ + attempted@ + "' cannot be merged into itself"@,
        MemoryError::AlreadyMerged { attempted, into } => "'"@ + attempted@ + "' was already merged into '"@ + into@ + "'"@,
        MemoryError::Store(detail) => "the store failed: "@ + detail@,
        MemoryError::SuppliedRecordCollidesWithStoredRow { handle } => "the record '"@ + handle@ + "' the software supplies collides with a row already stored"@,
    }
}

impl MemoryError {
    /// The sentence this error states about itself.
    pub fn describe(&self) -> (s: String)
        ensures
            s@ == said(*self),
    {
        match self {
            MemoryError::UnknownEntity { attempted, nearest: _ } => {
                let mut m = text("'");
                push_str(&mut m, attempted.as_str());
                push_str(&mut m, "' is not an entity jojobot knows");
                m
            },
            MemoryError::UnknownFact { attempted, nearest: _ } => {
                let mut m = text("'");
                push_str(&mut m, attempted.as_str());
                push_str(&mut m, "' addresses no fact jojobot holds");
                m
            },
            MemoryError::AlreadyRetracted { attempted } => {
                let mut m = text("'");
                push_str(&mut m, attempted.as_str());
                push_str(&mut m, "' is already archived");
                m
            },
            MemoryError::UnsourcedObservation => {
                let m = text("an observation has to say where it was read, and this one names no read_from");
                m
            },
            MemoryError::NotRetractable { attempted, why } => {
                let mut m = text("'");
                push_str(&mut m, attempted.as_str());
                push_str(&mut m, "' cannot be retracted: ");
                push_str(&mut m, why.as_str());
                m
            },
            MemoryError::KindsNeverLoaded { attempted } => {
                let mut m = text("no kinds were loaded when this process started, so '");
                push_str(&mut m, attempted.as_str());
                push_str(&mut m, "' cannot be read as one");
                m
            },
            MemoryError::InvalidFact(detail) => {
                let mut m = text("this is no fact jojobot can keep: ");
                push_str(&mut m, detail.as_str());
                m
            },
            MemoryError::InvalidSubject(detail) => {
                let mut m = text("this is no subject a fact can have: ");
                push_str(&mut m, detail.as_str());
                m
            },
            MemoryError::InvalidAddress(detail) => {
                let mut m = text("this is no fact address: ");
                push_str(&mut m, detail.as_str());
                m
            },
            MemoryError::InvalidEntity(detail) => {
                let mut m = text("this is no entity jojobot can keep: ");
                push_str(&mut m, detail.as_str());
                m
            },
            MemoryError::InvalidEdge(detail) => {
                let mut m = text("this is no edge jojobot can draw: ");
                push_str(&mut m, detail.as_str());
                m
            },
            MemoryError::InvalidQuery(detail) => {
                let mut m = text("this is no query jojobot can run: ");
                push_str(&mut m, detail.as_str());
                m
            },
            MemoryError::InvalidType(detail) => {
                let mut m = text("this is no type jojobot can declare: ");
                push_str(&mut m, detail.as_str());
                m
            },
            MemoryError::NotYours { attempted } => {
                let mut m = text("'");
                push_str(&mut m, attempted.as_str());
                push_str(&mut m, "' belongs to another bot");
                m
            },
            MemoryError::RepeatsShipped => {
                let m = text("what was sent repeats text the software already supplies");
                m
            },
            MemoryError::ShippedType { name } => {
                let mut m = text("'");
                push_str(&mut m, name.as_str());
                push_str(&mut m, "' is a type the software ships");
                m
            },
            MemoryError::BreaksFit { name, keys: _ } => {
                let mut m = text("the write would leave this thing short of keys '");
                push_str(&mut m, name.as_str());
                push_str(&mut m, "' requires");
                m
            },
            MemoryError::BreaksType { name, key, wanted } => {
                let mut m = text("'");
                push_str(&mut m, key.as_str());
                push_str(&mut m, "' on a '");
                push_str(&mut m, name.as_str());
                push_str(&mut m, "' holds ");
                push_str(&mut m, wanted.as_str());
                push_str(&mut m, ", and the value written does not");
                m
            },
            MemoryError::UnconfirmedPromotion => {
                let m = text("only the operator's own word makes a claim testimony, and this call carries no confirmation of it");
                m
            },
            MemoryError::UnconfirmedSettling => {
                let m = text("only the operator settles a claim they hedged, and this call carries no confirmation of it");
                m
            },
            MemoryError::NothingToRename { attempted } => {
                let mut m = text("'");
                push_str(&mut m, attempted.as_str());
                push_str(&mut m, "' already answers to the handle this rename names");
                m
            },
            MemoryError::HandleMoved { attempted, now } => {
                let mut m = text("'");
                push_str(&mut m, attempted.as_str());
                push_str(&mut m, "' was renamed, and answers to '");
                push_str(&mut m, now.as_str());
                push_str(&mut m, "' now");
                m
            },
            MemoryError::SuppliedHandle { attempted } => {
                let mut m = text("'");
                push_str(&mut m, attempted.as_str());
                push_str(&mut m, "' is supplied by the software, and nothing of it is stored");
                m
            },
            MemoryError::NothingToMerge { attempted } => {
                let mut m = text("'");
                push_str(&mut m, attempted.as_str());
                push_str(&mut m, "' cannot be merged into itself");
                m
            },
            MemoryError::AlreadyMerged { attempted, into } => {
                let mut m = text("'");
                push_str(&mut m, attempted.as_str());
                push_str(&mut m, "' was already merged into '");
                push_str(&mut m, into.as_str());
                push_str(&mut m, "'");
                m
            },
            MemoryError::Store(detail) => {
                let mut m = text("the store failed: ");
                push_str(&mut m, detail.as_str());
                m
            },
            MemoryError::SuppliedRecordCollidesWithStoredRow { handle } => {
                let mut m = text("the record '");
                push_str(&mut m, handle.as_str());
                push_str(&mut m, "' the software supplies collides with a row already stored");
                m
            },
        }
    }
}

/// The way forward: creating exact.
pub open spec fn creating_exact_advice(attempted: Seq<char>) -> Seq<char> {
    "Nothing was written. The handle '"@ + attempted + "' is already taken, and that cannot be forced — a handle has exactly one owner. Either this IS the entity above (use its handle and carry on), or it is a different one and needs a more qualified slug."@
}

/// The way forward: creating.
pub open spec fn creating_advice(attempted: Seq<char>, token: Seq<char>) -> Seq<char> {
    "Nothing was written. If '"@ + attempted + "' IS one of the entities above, use that handle instead. If it is genuinely a different one that happens to share a name, re-call add_entity with override_token: \""@ + token + "\". That token belongs to THIS refusal and lifts no other. Display names are not unique and never have to be; the handle is what has to be."@
}

/// The way forward: relabelling.
pub open spec fn relabelling_advice(attempted: Seq<char>, token: Seq<char>) -> Seq<char> {
    "Nothing was written, and the handle '"@ + attempted + "' is unaffected either way — this only moves the names it answers to. Either pick a name or alias that isn't already worn, or re-call update_entity with override_token: \""@ + token + "\" if this entity really does share a name with one above: names are not unique, handles are."@
}

/// The way forward: must exist none.
pub open spec fn must_exist_none_advice(attempted: Seq<char>, verb: Seq<char>) -> Seq<char> {
    "Nothing was written. '"@ + attempted + "' is not an entity jojobot knows, and nothing resembles it. "@ + verb + " cannot create an entity: call add_entity to create '"@ + attempted + "' first, then re-call "@ + verb + "."@
}

/// The way forward: must exist some.
pub open spec fn must_exist_some_advice(attempted: Seq<char>, verb: Seq<char>) -> Seq<char> {
    "Nothing was written. '"@ + attempted + "' is not an entity jojobot knows. If one of the handles above is what you meant, use that. Otherwise "@ + verb + " cannot create it for you — call add_entity to create '"@ + attempted + "' first, then re-call "@ + verb + "."@
}

/// The way forward: renaming exact.
pub open spec fn renaming_exact_advice(attempted: Seq<char>) -> Seq<char> {
    "Nothing was renamed. The handle '"@ + attempted + "' is already taken, and that cannot be forced — a handle has exactly one owner. Either this IS the entity above (nothing to do — it already has this name), or it is a different thing and the destination needs a more qualified slug."@
}

/// The way forward: renaming.
pub open spec fn renaming_advice(attempted: Seq<char>, token: Seq<char>) -> Seq<char> {
    "Nothing was renamed. If '"@ + attempted + "' IS one of the entities above, renaming onto it would collide with a thing that already exists there. If it is genuinely a different thing that happens to share a name, re-call rename_entity with override_token: \""@ + token + "\". That token belongs to THIS refusal and lifts no other. Display names are not unique and never have to be; the handle is what has to be."@
}

/// The way forward: no live.
pub open spec fn no_live_advice() -> Seq<char> {
    "That entity holds no facts at all yet, so there is nothing here to edit — capture one first."@
}

/// The way forward: live.
pub open spec fn live_advice(addresses: Seq<char>) -> Seq<char> {
    "The addresses that do exist here are: "@ + addresses + "."@
}

/// The way forward: unknown fact.
pub open spec fn unknown_fact_advice(attempted: Seq<char>, live: Seq<char>) -> Seq<char> {
    "Nothing was written. '"@ + attempted + "' addresses no fact jojobot holds, and this verb never creates one. "@ + live + " Recall the entity if none of them is what you meant — every fact comes back carrying the address that edits it."@
}

/// The way forward: already retracted.
pub open spec fn already_retracted_advice(attempted: Seq<char>) -> Seq<char> {
    "'"@ + attempted + "' is already archived — the record jojobot holds is the one you asked for. This call wrote nothing because there was nothing left to write, and a further attempt would say the same. Archiving is one-way: nothing takes a record back out of it. If that was itself a mistake, capture what is so now as a new record."@
}

/// The way forward: unsourced.
pub open spec fn unsourced_advice(e: Seq<char>) -> Seq<char> {
    "Nothing was written: "@ + e + ". The claim itself is fine — send it again with read_from naming the system, or with provenance inference."@
}

/// The way forward: not retractable.
pub open spec fn not_retractable_advice(attempted: Seq<char>, why: Seq<char>) -> Seq<char> {
    "Nothing was written. '"@ + attempted + "' cannot be retracted: "@ + why + "."@
}

/// The way forward: kinds never loaded.
pub open spec fn kinds_never_loaded_advice(e: Seq<char>) -> Seq<char> {
    "Nothing was written: "@ + e + ". The call is not what is wrong, and sending it                  again will not help: jojobot loaded no kinds when it started, and nothing                  a caller does re-reads them. This one needs the operator."@
}

/// The way forward: invalid.
pub open spec fn invalid_advice(e: Seq<char>, verb: Seq<char>) -> Seq<char> {
    "Nothing was written: "@ + e + ". Nothing is missing from the store and nothing here needs the operator — the call itself is what jojobot cannot carry out. Send the same "@ + verb + " call again with that fixed."@
}

/// The way forward: not yours.
pub open spec fn not_yours_advice(e: Seq<char>) -> Seq<char> {
    "Nothing was read: "@ + e + ". It is there, and it is not yours — sending this again will not change the answer. A session's chronology is its own bot's, and yours is what your own handle reaches."@
}

/// The way forward: repeats shipped.
pub open spec fn repeats_shipped_advice(e: Seq<char>) -> Seq<char> {
    "Nothing was written: "@ + e + ". Sending this again will not change the answer. Send only the part you are adding — what you write is kept beside what is already there, and a read hands back both."@
}

/// The way forward: shipped type.
pub open spec fn shipped_type_advice(e: Seq<char>, verb: Seq<char>) -> Seq<char> {
    "Nothing was written: "@ + e + ". A shipped type cannot be extended, shrunk or replaced from here, so sending this call again will not change the answer — changing one is a change to the software. Declare a type of your own instead: call "@ + verb + " with a different name, and that type is yours to declare and redeclare as you like."@
}

/// The way forward: breaks fit.
pub open spec fn breaks_fit_advice(e: Seq<char>, name: Seq<char>, verb: Seq<char>, keys: Seq<char>) -> Seq<char> {
    "Nothing was written: "@ + e + ". This thing answers '"@ + name + "' now, and "@ + verb + " would take "@ + keys + " off it, so sending this call again will not change the answer. Leave the key where it is, or write what you meant under a key of your own — adding keys is never refused, and a thing may carry anything beyond what a type asks for."@
}

/// The way forward: breaks type.
pub open spec fn breaks_type_advice(e: Seq<char>, name: Seq<char>, key: Seq<char>, wanted: Seq<char>) -> Seq<char> {
    "Nothing was written: "@ + e + ". This thing is a '"@ + name + "' now, so '"@ + key + "' has to go on holding "@ + wanted + " — sending the same value again will not change the answer. Write a value that holds "@ + wanted + ", or say what you meant under a key of your own: adding keys is never refused, and only the keys a type names are held to what it declared."@
}

/// The way forward: unconfirmed.
pub open spec fn unconfirmed_advice(e: Seq<char>, verb: Seq<char>) -> Seq<char> {
    "Nothing was written: "@ + e + ". This is not a malformed call and re-sending it will not change the answer — what is missing is the operator's word. Ask, and re-call "@ + verb + " with confirmed_by_user only once they have actually said so."@
}

/// The way forward: nothing to rename.
pub open spec fn nothing_to_rename_advice(e: Seq<char>, attempted: Seq<char>) -> Seq<char> {
    "Nothing was renamed: "@ + e + ". Sending this again with the same handle on both sides will not change the answer — name a destination that differs from '"@ + attempted + "'."@
}

/// The way forward: handle moved.
pub open spec fn handle_moved_advice(e: Seq<char>, verb: Seq<char>, now: Seq<char>, attempted: Seq<char>) -> Seq<char> {
    "Nothing was renamed: "@ + e + ". Re-call "@ + verb + " with handle: \""@ + now + "\" — that is what '"@ + attempted + "' answers to now."@
}

/// The way forward: supplied handle.
pub open spec fn supplied_handle_advice(e: Seq<char>, attempted: Seq<char>, verb: Seq<char>) -> Seq<char> {
    "Nothing changed: "@ + e + ". Sending this again will not change the answer — '"@ + attempted + "' is part of the software rather than something stored that "@ + verb + " could move."@
}

/// The way forward: nothing to merge.
pub open spec fn nothing_to_merge_advice(e: Seq<char>, attempted: Seq<char>) -> Seq<char> {
    "Nothing was merged: "@ + e + ". Sending this again with the same handle on both sides will not change the answer — name a survivor that differs from '"@ + attempted + "'."@
}

/// The way forward: already merged.
pub open spec fn already_merged_advice(e: Seq<char>, verb: Seq<char>, into: Seq<char>, attempted: Seq<char>) -> Seq<char> {
    "Nothing was merged: "@ + e + ". Re-call "@ + verb + " naming '"@ + into + "' instead of '"@ + attempted + "' — that is where it resolves now."@
}

fn creating_exact_text(attempted: &str) -> (m: String)
    ensures
        m@ == creating_exact_advice(attempted@),
        m@.len() > 0,
{
    let mut m = text("Nothing was written. The handle '");
    push_str(&mut m, attempted);
    push_str(&mut m, "' is already taken, and that cannot be forced — a handle has exactly one owner. Either this IS the entity above (use its handle and carry on), or it is a different one and needs a more qualified slug.");
    proof {
        reveal_strlit("Nothing was written. The handle '");
    }
    m
}

fn creating_text(attempted: &str, token: &str) -> (m: String)
    ensures
        m@ == creating_advice(attempted@, token@),
        m@.len() > 0,
{
    let mut m = text("Nothing was written. If '");
    push_str(&mut m, attempted);
    push_str(&mut m, "' IS one of the entities above, use that handle instead. If it is genuinely a different one that happens to share a name, re-call add_entity with override_token: \"");
    push_str(&mut m, token);
    push_str(&mut m, "\". That token belongs to THIS refusal and lifts no other. Display names are not unique and never have to be; the handle is what has to be.");
    proof {
        reveal_strlit("Nothing was written. If '");
    }
    m
}

fn relabelling_text(attempted: &str, token: &str) -> (m: String)
    ensures
        m@ == relabelling_advice(attempted@, token@),
        m@.len() > 0,
{
    let mut m = text("Nothing was written, and the handle '");
    push_str(&mut m, attempted);
    push_str(&mut m, "' is unaffected either way — this only moves the names it answers to. Either pick a name or alias that isn't already worn, or re-call update_entity with override_token: \"");
    push_str(&mut m, token);
    push_str(&mut m, "\" if this entity really does share a name with one above: names are not unique, handles are.");
    proof {
        reveal_strlit("Nothing was written, and the handle '");
    }
    m
}

fn must_exist_none_text(attempted: &str, verb: &str) -> (m: String)
    ensures
        m@ == must_exist_none_advice(attempted@, verb@),
        m@.len() > 0,
{
    let mut m = text("Nothing was written. '");
    push_str(&mut m, attempted);
    push_str(&mut m, "' is not an entity jojobot knows, and nothing resembles it. ");
    push_str(&mut m, verb);
    push_str(&mut m, " cannot create an entity: call add_entity to create '");
    push_str(&mut m, attempted);
    push_str(&mut m, "' first, then re-call ");
    push_str(&mut m, verb);
    push_str(&mut m, ".");
    proof {
        reveal_strlit("Nothing was written. '");
    }
    m
}

fn must_exist_some_text(attempted: &str, verb: &str) -> (m: String)
    ensures
        m@ == must_exist_some_advice(attempted@, verb@),
        m@.len() > 0,
{
    let mut m = text("Nothing was written. '");
    push_str(&mut m, attempted);
    push_str(&mut m, "' is not an entity jojobot knows. If one of the handles above is what you meant, use that. Otherwise ");
    push_str(&mut m, verb);
    push_str(&mut m, " cannot create it for you — call add_entity to create '");
    push_str(&mut m, attempted);
    push_str(&mut m, "' first, then re-call ");
    push_str(&mut m, verb);
    push_str(&mut m, ".");
    proof {
        reveal_strlit("Nothing was written. '");
    }
    m
}

fn renaming_exact_text(attempted: &str) -> (m: String)
    ensures
        m@ == renaming_exact_advice(attempted@),
        m@.len() > 0,
{
    let mut m = text("Nothing was renamed. The handle '");
    push_str(&mut m, attempted);
    push_str(&mut m, "' is already taken, and that cannot be forced — a handle has exactly one owner. Either this IS the entity above (nothing to do — it already has this name), or it is a different thing and the destination needs a more qualified slug.");
    proof {
        reveal_strlit("Nothing was renamed. The handle '");
    }
    m
}

fn renaming_text(attempted: &str, token: &str) -> (m: String)
    ensures
        m@ == renaming_advice(attempted@, token@),
        m@.len() > 0,
{
    let mut m = text("Nothing was renamed. If '");
    push_str(&mut m, attempted);
    push_str(&mut m, "' IS one of the entities above, renaming onto it would collide with a thing that already exists there. If it is genuinely a different thing that happens to share a name, re-call rename_entity with override_token: \"");
    push_str(&mut m, token);
    push_str(&mut m, "\". That token belongs to THIS refusal and lifts no other. Display names are not unique and never have to be; the handle is what has to be.");
    proof {
        reveal_strlit("Nothing was renamed. If '");
    }
    m
}

fn no_live_text() -> (m: String)
    ensures
        m@ == no_live_advice(),
        m@.len() > 0,
{
    let m = text("That entity holds no facts at all yet, so there is nothing here to edit — capture one first.");
    proof {
        reveal_strlit("That entity holds no facts at all yet, so there is nothing here to edit — capture one first.");
    }
    m
}

fn live_text(addresses: &str) -> (m: String)
    ensures
        m@ == live_advice(addresses@),
        m@.len() > 0,
{
    let mut m = text("The addresses that do exist here are: ");
    push_str(&mut m, addresses);
    push_str(&mut m, ".");
    proof {
        reveal_strlit("The addresses that do exist here are: ");
    }
    m
}

fn unknown_fact_text(attempted: &str, live: &str) -> (m: String)
    ensures
        m@ == unknown_fact_advice(attempted@, live@),
        m@.len() > 0,
{
    let mut m = text("Nothing was written. '");
    push_str(&mut m, attempted);
    push_str(&mut m, "' addresses no fact jojobot holds, and this verb never creates one. ");
    push_str(&mut m, live);
    push_str(&mut m, " Recall the entity if none of them is what you meant — every fact comes back carrying the address that edits it.");
    proof {
        reveal_strlit("Nothing was written. '");
    }
    m
}

fn already_retracted_text(attempted: &str) -> (m: String)
    ensures
        m@ == already_retracted_advice(attempted@),
        m@.len() > 0,
{
    let mut m = text("'");
    push_str(&mut m, attempted);
    push_str(&mut m, "' is already archived — the record jojobot holds is the one you asked for. This call wrote nothing because there was nothing left to write, and a further attempt would say the same. Archiving is one-way: nothing takes a record back out of it. If that was itself a mistake, capture what is so now as a new record.");
    proof {
        reveal_strlit("'");
    }
    m
}

fn unsourced_text(e: &str) -> (m: String)
    ensures
        m@ == unsourced_advice(e@),
        m@.len() > 0,
{
    let mut m = text("Nothing was written: ");
    push_str(&mut m, e);
    push_str(&mut m, ". The claim itself is fine — send it again with read_from naming the system, or with provenance inference.");
    proof {
        reveal_strlit("Nothing was written: ");
    }
    m
}

fn not_retractable_text(attempted: &str, why: &str) -> (m: String)
    ensures
        m@ == not_retractable_advice(attempted@, why@),
        m@.len() > 0,
{
    let mut m = text("Nothing was written. '");
    push_str(&mut m, attempted);
    push_str(&mut m, "' cannot be retracted: ");
    push_str(&mut m, why);
    push_str(&mut m, ".");
    proof {
        reveal_strlit("Nothing was written. '");
    }
    m
}

fn kinds_never_loaded_text(e: &str) -> (m: String)
    ensures
        m@ == kinds_never_loaded_advice(e@),
        m@.len() > 0,
{
    let mut m = text("Nothing was written: ");
    push_str(&mut m, e);
    push_str(&mut m, ". The call is not what is wrong, and sending it                  again will not help: jojobot loaded no kinds when it started, and nothing                  a caller does re-reads them. This one needs the operator.");
    proof {
        reveal_strlit("Nothing was written: ");
    }
    m
}

fn invalid_text(e: &str, verb: &str) -> (m: String)
    ensures
        m@ == invalid_advice(e@, verb@),
        m@.len() > 0,
{
    let mut m = text("Nothing was written: ");
    push_str(&mut m, e);
    push_str(&mut m, ". Nothing is missing from the store and nothing here needs the operator — the call itself is what jojobot cannot carry out. Send the same ");
    push_str(&mut m, verb);
    push_str(&mut m, " call again with that fixed.");
    proof {
        reveal_strlit("Nothing was written: ");
    }
    m
}

fn not_yours_text(e: &str) -> (m: String)
    ensures
        m@ == not_yours_advice(e@),
        m@.len() > 0,
{
    let mut m = text("Nothing was read: ");
    push_str(&mut m, e);
    push_str(&mut m, ". It is there, and it is not yours — sending this again will not change the answer. A session's chronology is its own bot's, and yours is what your own handle reaches.");
    proof {
        reveal_strlit("Nothing was read: ");
    }
    m
}

fn repeats_shipped_text(e: &str) -> (m: String)
    ensures
        m@ == repeats_shipped_advice(e@),
        m@.len() > 0,
{
    let mut m = text("Nothing was written: ");
    push_str(&mut m, e);
    push_str(&mut m, ". Sending this again will not change the answer. Send only the part you are adding — what you write is kept beside what is already there, and a read hands back both.");
    proof {
        reveal_strlit("Nothing was written: ");
    }
    m
}

fn shipped_type_text(e: &str, verb: &str) -> (m: String)
    ensures
        m@ == shipped_type_advice(e@, verb@),
        m@.len() > 0,
{
    let mut m = text("Nothing was written: ");
    push_str(&mut m, e);
    push_str(&mut m, ". A shipped type cannot be extended, shrunk or replaced from here, so sending this call again will not change the answer — changing one is a change to the software. Declare a type of your own instead: call ");
    push_str(&mut m, verb);
    push_str(&mut m, " with a different name, and that type is yours to declare and redeclare as you like.");
    proof {
        reveal_strlit("Nothing was written: ");
    }
    m
}

fn breaks_fit_text(e: &str, name: &str, verb: &str, keys: &str) -> (m: String)
    ensures
        m@ == breaks_fit_advice(e@, name@, verb@, keys@),
        m@.len() > 0,
{
    let mut m = text("Nothing was written: ");
    push_str(&mut m, e);
    push_str(&mut m, ". This thing answers '");
    push_str(&mut m, name);
    push_str(&mut m, "' now, and ");
    push_str(&mut m, verb);
    push_str(&mut m, " would take ");
    push_str(&mut m, keys);
    push_str(&mut m, " off it, so sending this call again will not change the answer. Leave the key where it is, or write what you meant under a key of your own — adding keys is never refused, and a thing may carry anything beyond what a type asks for.");
    proof {
        reveal_strlit("Nothing was written: ");
    }
    m
}

fn breaks_type_text(e: &str, name: &str, key: &str, wanted: &str) -> (m: String)
    ensures
        m@ == breaks_type_advice(e@, name@, key@, wanted@),
        m@.len() > 0,
{
    let mut m = text("Nothing was written: ");
    push_str(&mut m, e);
    push_str(&mut m, ". This thing is a '");
    push_str(&mut m, name);
    push_str(&mut m, "' now, so '");
    push_str(&mut m, key);
    push_str(&mut m, "' has to go on holding ");
    push_str(&mut m, wanted);
    push_str(&mut m, " — sending the same value again will not change the answer. Write a value that holds ");
    push_str(&mut m, wanted);
    push_str(&mut m, ", or say what you meant under a key of your own: adding keys is never refused, and only the keys a type names are held to what it declared.");
    proof {
        reveal_strlit("Nothing was written: ");
    }
    m
}

fn unconfirmed_text(e: &str, verb: &str) -> (m: String)
    ensures
        m@ == unconfirmed_advice(e@, verb@),
        m@.len() > 0,
{
    let mut m = text("Nothing was written: ");
    push_str(&mut m, e);
    push_str(&mut m, ". This is not a malformed call and re-sending it will not change the answer — what is missing is the operator's word. Ask, and re-call ");
    push_str(&mut m, verb);
    push_str(&mut m, " with confirmed_by_user only once they have actually said so.");
    proof {
        reveal_strlit("Nothing was written: ");
    }
    m
}

fn nothing_to_rename_text(e: &str, attempted: &str) -> (m: String)
    ensures
        m@ == nothing_to_rename_advice(e@, attempted@),
        m@.len() > 0,
{
    let mut m = text("Nothing was renamed: ");
    push_str(&mut m, e);
    push_str(&mut m, ". Sending this again with the same handle on both sides will not change the answer — name a destination that differs from '");
    push_str(&mut m, attempted);
    push_str(&mut m, "'.");
    proof {
        reveal_strlit("Nothing was renamed: ");
    }
    m
}

fn handle_moved_text(e: &str, verb: &str, now: &str, attempted: &str) -> (m: String)
    ensures
        m@ == handle_moved_advice(e@, verb@, now@, attempted@),
        m@.len() > 0,
{
    let mut m = text("Nothing was renamed: ");
    push_str(&mut m, e);
    push_str(&mut m, ". Re-call ");
    push_str(&mut m, verb);
    push_str(&mut m, " with handle: \"");
    push_str(&mut m, now);
    push_str(&mut m, "\" — that is what '");
    push_str(&mut m, attempted);
    push_str(&mut m, "' answers to now.");
    proof {
        reveal_strlit("Nothing was renamed: ");
    }
    m
}

fn supplied_handle_text(e: &str, attempted: &str, verb: &str) -> (m: String)
    ensures
        m@ == supplied_handle_advice(e@, attempted@, verb@),
        m@.len() > 0,
{
    let mut m = text("Nothing changed: ");
    push_str(&mut m, e);
    push_str(&mut m, ". Sending this again will not change the answer — '");
    push_str(&mut m, attempted);
    push_str(&mut m, "' is part of the software rather than something stored that ");
    push_str(&mut m, verb);
    push_str(&mut m, " could move.");
    proof {
        reveal_strlit("Nothing changed: ");
    }
    m
}

fn nothing_to_merge_text(e: &str, attempted: &str) -> (m: String)
    ensures
        m@ == nothing_to_merge_advice(e@, attempted@),
        m@.len() > 0,
{
    let mut m = text("Nothing was merged: ");
    push_str(&mut m, e);
    push_str(&mut m, ". Sending this again with the same handle on both sides will not change the answer — name a survivor that differs from '");
    push_str(&mut m, attempted);
    push_str(&mut m, "'.");
    proof {
        reveal_strlit("Nothing was merged: ");
    }
    m
}

fn already_merged_text(e: &str, verb: &str, into: &str, attempted: &str) -> (m: String)
    ensures
        m@ == already_merged_advice(e@, verb@, into@, attempted@),
        m@.len() > 0,
{
    let mut m = text("Nothing was merged: ");
    push_str(&mut m, e);
    push_str(&mut m, ". Re-call ");
    push_str(&mut m, verb);
    push_str(&mut m, " naming '");
    push_str(&mut m, into);
    push_str(&mut m, "' instead of '");
    push_str(&mut m, attempted);
    push_str(&mut m, "' — that is where it resolves now.");
    proof {
        reveal_strlit("Nothing was merged: ");
    }
    m
}

/// Which gate stopped a write — because the way out of each one is different.
/// A gate that can be lifted carries the token the guard minted for this
/// refusal, which the advice hands to the caller.
pub enum Blocked {
    /// A creation: the handle is being minted here, so an exact collision is
    /// unforgivable and the token covers only a shared *name*.
    Creating { token: String },
    /// A relabel — a change to a name or an alias. No handle is moving.
    Relabelling { token: String },
    /// A rename's destination handle: a handle IS moving, and the thing is not
    /// new.
    Renaming { token: String },
    /// A write that only **names** an entity. It cannot create one, so there
    /// is no token to hand back.
    MustExist(&'static str),
}

/// Whether any candidate is an exact handle collision.
pub open spec fn has_exact(candidates: Seq<EntityMatch>) -> bool {
    exists|i: int| 0 <= i < candidates.len() && candidates[i].reason == MatchReason::ExactHandle
}

/// The way forward a gate gives, for the handle attempted.
pub open spec fn gate_advice(gate: Blocked, attempted: Seq<char>, exact: bool, none: bool) -> Seq<char> {
    match gate {
        Blocked::Creating { token } => if exact {
            creating_exact_advice(attempted)
        } else {
            creating_advice(attempted, token@)
        },
        Blocked::Relabelling { token } => relabelling_advice(attempted, token@),
        Blocked::MustExist(verb) => must_exist_advice(attempted, verb@, none),
        Blocked::Renaming { token } => if exact {
            renaming_exact_advice(attempted)
        } else {
            renaming_advice(attempted, token@)
        },
    }
}

/// The existence gate's advice: it points at the candidates only when there
/// are some.
pub open spec fn must_exist_advice(attempted: Seq<char>, verb: Seq<char>, none: bool) -> Seq<char> {
    if none {
        must_exist_none_advice(attempted, verb)
    } else {
        must_exist_some_advice(attempted, verb)
    }
}

/// **Nothing was written**, and here is what jojobot suspects the caller
/// meant: the blocked envelope, one shape for every gate.
#[derive(Debug)]
pub struct BlockedAnswer {
    pub attempted: EntityId,
    pub candidates: Vec<EntityMatch>,
    pub how_to_proceed: String,
}

impl View for BlockedAnswer {
    type V = (Seq<char>, Seq<<EntityMatch as View>::V>, Seq<char>);

    open spec fn view(&self) -> Self::V {
        (self.attempted@, matches_view(self.candidates@), self.how_to_proceed@)
    }
}

/// The candidates, as values.
pub open spec fn matches_view(candidates: Seq<EntityMatch>) -> Seq<<EntityMatch as View>::V> {
    candidates.map_values(|m: EntityMatch| m@)
}

impl BlockedAnswer {
    /// A blocked answer always names a way forward.
    pub open spec fn wf(self) -> bool {
        self.how_to_proceed@.len() > 0
    }
}

/// The blocked envelope itself, once — so every gate's advice arrives in one
/// shape and a client branches on `status`, never on which gate fired.
/// **It cannot be built without a way forward.**
pub fn blocked_body(attempted: &EntityId, candidates: Vec<EntityMatch>, how_to_proceed: String) -> (b: BlockedAnswer)
    requires
        how_to_proceed@.len() > 0,
    ensures
        b@ == (attempted@, matches_view(candidates@), how_to_proceed@),
        b.wf(),
{
    BlockedAnswer { attempted: attempted.copy(), candidates, how_to_proceed }
}

fn any_exact(candidates: &Vec<EntityMatch>) -> (b: bool)
    ensures
        b == has_exact(candidates@),
{
    let mut i: usize = 0;
    while i < candidates.len()
        invariant
            i <= candidates.len(),
            forall|j: int| 0 <= j < i ==> candidates@[j].reason != MatchReason::ExactHandle,
        decreases candidates.len() - i,
    {
        if candidates[i].reason == MatchReason::ExactHandle {
            return true;
        }
        i = i + 1;
    }
    false
}

/// The write guard's answer: **nothing was written**, and the way out of the
/// gate that fired.
pub fn blocked_result(attempted: &EntityId, candidates: Vec<EntityMatch>, gate: Blocked) -> (b: BlockedAnswer)
    ensures
        b@ == (
            attempted@,
            matches_view(candidates@),
            gate_advice(gate, attempted@, has_exact(candidates@), candidates@.len() == 0),
        ),
        b.wf(),
{
    let exact = any_exact(&candidates);
    let none = candidates.len() == 0;
    let who = attempted.0.as_str();
    let how = match gate {
        Blocked::Creating { token } => if exact {
            creating_exact_text(who)
        } else {
            creating_text(who, token.as_str())
        },
        Blocked::Relabelling { token } => relabelling_text(who, token.as_str()),
        Blocked::MustExist(verb) => if none {
            must_exist_none_text(who, verb)
        } else {
            must_exist_some_text(who, verb)
        },
        Blocked::Renaming { token } => if exact {
            renaming_exact_text(who)
        } else {
            renaming_text(who, token.as_str())
        },
    };
    blocked_body(attempted, candidates, how)
}

/// The live addresses beside a fact miss, in the advice's words.
pub open spec fn live_advice_of(nearest: Seq<Seq<char>>) -> Seq<char> {
    if nearest.len() == 0 {
        no_live_advice()
    } else {
        live_advice(join(nearest, ", "@))
    }
}

/// The texts of some strings.
pub open spec fn texts(items: Seq<String>) -> Seq<Seq<char>> {
    items.map_values(|s: String| s@)
}

/// **How a store refusal is answered.** `Some` is a blocked answer — the
/// handle it names, the candidates, the way forward — and `None` is a failure,
/// answered by [`memory_error`] instead.
pub open spec fn declined_answer(verb: Seq<char>, e: MemoryError) -> Option<(Seq<char>, Seq<<EntityMatch as View>::V>, Seq<char>)> {
    let stated = said(e);
    match e {
        MemoryError::UnknownEntity { attempted, nearest } => Some(
            (attempted@, matches_view(nearest@), must_exist_advice(attempted@, verb, nearest@.len() == 0)),
        ),
        MemoryError::UnknownFact { attempted, nearest } => Some(
            (attempted@, Seq::empty(), unknown_fact_advice(attempted@, live_advice_of(texts(nearest@)))),
        ),
        MemoryError::AlreadyRetracted { attempted } => Some(
            (attempted@, Seq::empty(), already_retracted_advice(attempted@)),
        ),
        MemoryError::UnsourcedObservation => Some((Seq::empty(), Seq::empty(), unsourced_advice(stated))),
        MemoryError::NotRetractable { attempted, why } => Some(
            (attempted@, Seq::empty(), not_retractable_advice(attempted@, why@)),
        ),
        MemoryError::KindsNeverLoaded { .. } => Some(
            (Seq::empty(), Seq::empty(), kinds_never_loaded_advice(stated)),
        ),
        MemoryError::InvalidFact(_) | MemoryError::InvalidSubject(_) | MemoryError::InvalidAddress(_)
        | MemoryError::InvalidEntity(_) | MemoryError::InvalidEdge(_) | MemoryError::InvalidQuery(_)
        | MemoryError::InvalidType(_) => Some((Seq::empty(), Seq::empty(), invalid_advice(stated, verb))),
        MemoryError::NotYours { attempted } => Some((attempted@, Seq::empty(), not_yours_advice(stated))),
        MemoryError::RepeatsShipped => Some((Seq::empty(), Seq::empty(), repeats_shipped_advice(stated))),
        MemoryError::ShippedType { name } => Some((name@, Seq::empty(), shipped_type_advice(stated, verb))),
        MemoryError::BreaksFit { name, keys } => Some(
            (Seq::empty(), Seq::empty(), breaks_fit_advice(stated, name@, verb, join(texts(keys@), ", "@))),
        ),
        MemoryError::BreaksType { name, key, wanted } => Some(
            (Seq::empty(), Seq::empty(), breaks_type_advice(stated, name@, key@, wanted@)),
        ),
        MemoryError::UnconfirmedPromotion | MemoryError::UnconfirmedSettling => Some(
            (Seq::empty(), Seq::empty(), unconfirmed_advice(stated, verb)),
        ),
        MemoryError::NothingToRename { attempted } => Some(
            (attempted@, Seq::empty(), nothing_to_rename_advice(stated, attempted@)),
        ),
        MemoryError::HandleMoved { attempted, now } => Some(
            (attempted@, Seq::empty(), handle_moved_advice(stated, verb, now@, attempted@)),
        ),
        MemoryError::SuppliedHandle { attempted } => Some(
            (attempted@, Seq::empty(), supplied_handle_advice(stated, attempted@, verb)),
        ),
        MemoryError::NothingToMerge { attempted } => Some(
            (attempted@, Seq::empty(), nothing_to_merge_advice(stated, attempted@)),
        ),
        MemoryError::AlreadyMerged { attempted, into } => Some(
            (attempted@, Seq::empty(), already_merged_advice(stated, verb, into@, attempted@)),
        ),
        MemoryError::Store(_) | MemoryError::SuppliedRecordCollidesWithStoredRow { .. } => None,
    }
}

/// Whether an error is the store or the build failing, rather than the call.
pub open spec fn is_failure(e: MemoryError) -> bool {
    e is Store || e is SuppliedRecordCollidesWithStoredRow
}

/// The channel a [`MemoryError`] travels in as a protocol error.
pub open spec fn error_code_of(e: MemoryError) -> ErrorCode {
    if is_failure(e) {
        ErrorCode::InternalError
    } else {
        ErrorCode::InvalidParams
    }
}

/// The message a [`MemoryError`] carries as a protocol error. A store
/// failure's own account never crosses.
pub open spec fn error_message_of(e: MemoryError) -> Seq<char> {
    match e {
        MemoryError::Store(_) => store_failed_text("this call"@),
        _ => said(e),
    }
}

/// What a caller is told when the store failed under `what`.
pub open spec fn store_failed_text(what: Seq<char>) -> Seq<char> {
    "The store behind "@ + what + " failed, and nothing about the call was wrong, so there is nothing in it to fix. Try once more; if it fails again, the operator needs to look."@
}

/// What a caller is told when the store failed under `what` — never the
/// store's own account, which stays inside.
pub fn store_failed(what: &str) -> (m: String)
    ensures
        m@ == store_failed_text(what@),
{
    let mut m = text("The store behind ");
    push_str(&mut m, what);
    push_str(
        &mut m,
        " failed, and nothing about the call was wrong, so there is nothing in it to fix. Try once more; if it fails again, the operator needs to look.",
    );
    m
}

/// Map a domain [`MemoryError`] to a protocol error, splitting client
/// mistakes (invalid params) from server-side failures.
pub fn memory_error(e: MemoryError) -> (r: McpError)
    ensures
        r.code == error_code_of(e),
        r.message@ == error_message_of(e),
{
    match e {
        MemoryError::Store(_) => McpError::internal_error(store_failed("this call")),
        MemoryError::SuppliedRecordCollidesWithStoredRow { .. } => McpError::internal_error(e.describe()),
        _ => McpError::invalid_params(e.describe()),
    }
}

/// **A miss and a block speak one shape.** A caller's mistake comes back as a
/// blocked answer with a way forward; a failure of the store stays an error.
pub fn memory_declined(verb: &'static str, e: MemoryError) -> (r: Result<BlockedAnswer, McpError>)
    ensures
        match declined_answer(verb@, e) {
            Some(answer) => r matches Ok(b) && b@ == answer && b.wf(),
            None => r matches Err(m) && m.code == error_code_of(e) && m.message@ == error_message_of(e),
        },
{
    let stated = e.describe();
    let said_text = stated.as_str();
    let nobody = EntityId(String::new());
    match e {
        MemoryError::UnknownEntity { attempted, nearest } => {
            Ok(blocked_result(&EntityId(attempted), nearest, Blocked::MustExist(verb)))
        },
        MemoryError::UnknownFact { attempted, nearest } => {
            let live = if nearest.len() == 0 {
                no_live_text()
            } else {
                let addresses = join_strings(&nearest, ", ");
                live_text(addresses.as_str())
            };
            let how = unknown_fact_text(attempted.as_str(), live.as_str());
            Ok(blocked_body(&EntityId(attempted), Vec::new(), how))
        },
        MemoryError::AlreadyRetracted { attempted } => {
            let how = already_retracted_text(attempted.as_str());
            Ok(blocked_body(&EntityId(attempted), Vec::new(), how))
        },
        MemoryError::UnsourcedObservation => Ok(blocked_body(&nobody, Vec::new(), unsourced_text(said_text))),
        MemoryError::NotRetractable { attempted, why } => {
            let how = not_retractable_text(attempted.as_str(), why.as_str());
            Ok(blocked_body(&EntityId(attempted), Vec::new(), how))
        },
        MemoryError::KindsNeverLoaded { .. } => {
            Ok(blocked_body(&nobody, Vec::new(), kinds_never_loaded_text(said_text)))
        },
        MemoryError::InvalidFact(_) | MemoryError::InvalidSubject(_) | MemoryError::InvalidAddress(_)
        | MemoryError::InvalidEntity(_) | MemoryError::InvalidEdge(_) | MemoryError::InvalidQuery(_)
        | MemoryError::InvalidType(_) => Ok(blocked_body(&nobody, Vec::new(), invalid_text(said_text, verb))),
        MemoryError::NotYours { attempted } => {
            Ok(blocked_body(&EntityId(attempted), Vec::new(), not_yours_text(said_text)))
        },
        MemoryError::RepeatsShipped => Ok(blocked_body(&nobody, Vec::new(), repeats_shipped_text(said_text))),
        MemoryError::ShippedType { name } => {
            Ok(blocked_body(&EntityId(name), Vec::new(), shipped_type_text(said_text, verb)))
        },
        MemoryError::BreaksFit { name, keys } => {
            let listed = join_strings(&keys, ", ");
            let how = breaks_fit_text(said_text, name.as_str(), verb, listed.as_str());
            Ok(blocked_body(&nobody, Vec::new(), how))
        },
        MemoryError::BreaksType { name, key, wanted } => {
            let how = breaks_type_text(said_text, name.as_str(), key.as_str(), wanted.as_str());
            Ok(blocked_body(&nobody, Vec::new(), how))
        },
        MemoryError::UnconfirmedPromotion | MemoryError::UnconfirmedSettling => {
            Ok(blocked_body(&nobody, Vec::new(), unconfirmed_text(said_text, verb)))
        },
        MemoryError::NothingToRename { attempted } => {
            let how = nothing_to_rename_text(said_text, attempted.as_str());
            Ok(blocked_body(&EntityId(attempted), Vec::new(), how))
        },
        MemoryError::HandleMoved { attempted, now } => {
            let how = handle_moved_text(said_text, verb, now.as_str(), attempted.as_str());
            Ok(blocked_body(&EntityId(attempted), Vec::new(), how))
        },
        MemoryError::SuppliedHandle { attempted } => {
            let how = supplied_handle_text(said_text, attempted.as_str(), verb);
            Ok(blocked_body(&EntityId(attempted), Vec::new(), how))
        },
        MemoryError::NothingToMerge { attempted } => {
            let how = nothing_to_merge_text(said_text, attempted.as_str());
            Ok(blocked_body(&EntityId(attempted), Vec::new(), how))
        },
        MemoryError::AlreadyMerged { attempted, into } => {
            let how = already_merged_text(said_text, verb, into.as_str(), attempted.as_str());
            Ok(blocked_body(&EntityId(attempted), Vec::new(), how))
        },
        other => Err(memory_error(other)),
    }
}

} // verus!
