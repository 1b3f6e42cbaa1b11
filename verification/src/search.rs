//! `search` — the front door: one ranked list over entities, facts, prose and
//! mail. What is here is what the door decides before and after the index is
//! asked: turning arguments into a query, which filters leave mail out, and
//! what each answer says about how much was searched.

use vstd::prelude::*;
use crate::declined::MemoryError;
use crate::parse::{one_provenance_outcome, parse_kind, parse_one_provenance, parse_shape,
    parse_standing, parse_status, refused, standing_outcome, status_outcome, kind_refusal_msg,
    shape_refusal_msg};
use crate::text::{is_blank, push_str, string_of, text, trim, trimmed_str};
use crate::types::DeclaredType;
use crate::vocab::{
    handle_kind, kind_half, person_handle, resolve_kind, shape_of, EdgeShape, EntityId, EntityKind,
    FactStatus, Kinds, McpError, Provenance, Standing};
use crate::text::chars_of;

verus! {

/// How many results a search returns when the caller names no limit.
pub const DEFAULT_LIMIT: usize = 20;

/// An edge filter: any edge, or one shape, pointing at an entity.
#[derive(Debug)]
pub struct EdgeFilter {
    pub shape: Option<EdgeShape>,
    pub object: EntityId,
}

/// **What a search asks the index**, typed.
#[derive(Debug)]
pub struct SearchQuery {
    /// Things carrying some of this type's keys.
    pub answers_type: Option<DeclaredType>,
    /// Things carrying every key of this type.
    pub fits_type: Option<DeclaredType>,
    /// The bot asking, when the call said.
    pub asked_by: Option<EntityId>,
    /// Free text.
    pub text: Option<String>,
    pub kind: Option<EntityKind>,
    pub status: Option<FactStatus>,
    pub provenance: Option<Provenance>,
    pub standing: Option<Standing>,
    pub subject: Option<EntityId>,
    pub edge: Option<EdgeFilter>,
    /// Whether messages are searched too. Off unless asked for.
    pub include_mail: bool,
    pub limit: usize,
}

impl SearchQuery {
    /// **A question about facts**: it filters on a property only a fact has.
    pub open spec fn fact_scoped(&self) -> bool {
        ||| self.status is Some
        ||| self.provenance is Some
        ||| self.standing is Some
        ||| self.subject is Some
        ||| self.edge is Some
    }

    /// **A question about things**: it names a type.
    pub open spec fn thing_scoped(&self) -> bool {
        self.answers_type is Some || self.fits_type is Some
    }

    /// The query's words, trimmed, when it carries any.
    pub open spec fn terms_of(&self) -> Option<Seq<char>> {
        match self.text {
            Some(t) => if is_blank(t@) {
                None
            } else {
                Some(trim(t@))
            },
            None => None,
        }
    }

    /// Whether anything narrows this query: words, or one of the filters that
    /// stands in for them.
    pub open spec fn narrows(&self) -> bool {
        ||| self.terms_of() is Some
        ||| self.kind is Some
        ||| self.fact_scoped()
        ||| self.thing_scoped()
    }

    /// Whether the query is the one that asks nothing and leaves mail out.
    pub open spec fn is_empty_query(&self) -> bool {
        &&& self.answers_type is None
        &&& self.fits_type is None
        &&& self.asked_by is None
        &&& self.text is None
        &&& self.kind is None
        &&& self.status is None
        &&& self.provenance is None
        &&& self.standing is None
        &&& self.subject is None
        &&& self.edge is None
        &&& self.limit == DEFAULT_LIMIT
    }

    pub fn is_fact_scoped(&self) -> (b: bool)
        ensures
            b == self.fact_scoped(),
    {
        self.status.is_some() || self.provenance.is_some() || self.standing.is_some()
            || self.subject.is_some() || self.edge.is_some()
    }

    pub fn is_thing_scoped(&self) -> (b: bool)
        ensures
            b == self.thing_scoped(),
    {
        self.answers_type.is_some() || self.fits_type.is_some()
    }

    /// The query's words, trimmed, when it carries any.
    pub fn terms(&self) -> (t: Option<String>)
        ensures
            match self.terms_of() {
                Some(w) => t matches Some(s) && s@ == w,
                None => t is None,
            },
    {
        match &self.text {
            Some(s) => {
                let w = trimmed_str(s.as_str());
                if w.len() == 0 {
                    None
                } else {
                    Some(string_of(&w))
                }
            },
            None => None,
        }
    }
}

impl Default for SearchQuery {
    /// The query that asks nothing: no words, no filter, mail left out.
    fn default() -> (q: SearchQuery)
        ensures
            q.is_empty_query(),
            asks_only_for(q, None, None, None, None, None, false),
    {
        SearchQuery {
            answers_type: None,
            fits_type: None,
            asked_by: None,
            text: None,
            kind: None,
            status: None,
            provenance: None,
            standing: None,
            subject: None,
            edge: None,
            include_mail: false,
            limit: DEFAULT_LIMIT,
        }
    }
}

/// The note: not asked.
pub open spec fn not_asked_note() -> Seq<char> {
    "mail was not searched, because this call did not ask for it — that is the default. Pass include_mail: true to search messages too, which is how you find a report another session filed."@
}

fn not_asked_text() -> (t: &'static str)
    ensures
        t@ == not_asked_note(),
{
    "mail was not searched, because this call did not ask for it — that is the default. Pass include_mail: true to search messages too, which is how you find a report another session filed."
}

/// The note: fact scoped.
pub open spec fn fact_scoped_note() -> Seq<char> {
    "this query filters on a property only a fact has (status, provenance, standing, subject or edge), so it is a question about facts — messages, entities and prose are all out of it."@
}

fn fact_scoped_text() -> (t: &'static str)
    ensures
        t@ == fact_scoped_note(),
{
    "this query filters on a property only a fact has (status, provenance, standing, subject or edge), so it is a question about facts — messages, entities and prose are all out of it."
}

/// The note: type filtered.
pub open spec fn type_filtered_note() -> Seq<char> {
    "this query names a type with answers_type, which asks which THINGS carry its keys — and a message is not a thing and carries none, so mail was left out of it. Drop answers_type to search messages too."@
}

fn type_filtered_text() -> (t: &'static str)
    ensures
        t@ == type_filtered_note(),
{
    "this query names a type with answers_type, which asks which THINGS carry its keys — and a message is not a thing and carries none, so mail was left out of it. Drop answers_type to search messages too."
}

/// The note: kind filtered.
pub open spec fn kind_filtered_note() -> Seq<char> {
    "this query narrows to one entity kind, and a message belongs to no entity, so mail was left out of it. Drop `kind` to search messages too."@
}

fn kind_filtered_text() -> (t: &'static str)
    ensures
        t@ == kind_filtered_note(),
{
    "this query narrows to one entity kind, and a message belongs to no entity, so mail was left out of it. Drop `kind` to search messages too."
}

/// The note: mail unread.
pub open spec fn mail_unread_note() -> Seq<char> {
    "NO message is searchable right now — this is not 'nothing matched'. The memory half of this answer is complete. start_here's snapshot says whether the mailbox world is reachable at all."@
}

fn mail_unread_text() -> (t: &'static str)
    ensures
        t@ == mail_unread_note(),
{
    "NO message is searchable right now — this is not 'nothing matched'. The memory half of this answer is complete. start_here's snapshot says whether the mailbox world is reachable at all."
}

/// The note: mail partial.
pub open spec fn mail_partial_note() -> Seq<char> {
    "PARTIAL: the index holds only the messages jojobot has handled since this server started, so an older message may be missing. Any hit here is real — this is not a complete answer over mail. start_here's snapshot says whether the mailbox world is reachable at all."@
}

fn mail_partial_text() -> (t: &'static str)
    ensures
        t@ == mail_partial_note(),
{
    "PARTIAL: the index holds only the messages jojobot has handled since this server started, so an older message may be missing. Any hit here is real — this is not a complete answer over mail. start_here's snapshot says whether the mailbox world is reachable at all."
}

/// The note: memory unread.
pub open spec fn memory_unread_note() -> Seq<char> {
    "NO entity, fact or prose is searchable right now — this is not 'nothing matched'. The memory verbs are unaffected: recall reads the store directly and is complete."@
}

fn memory_unread_text() -> (t: &'static str)
    ensures
        t@ == memory_unread_note(),
{
    "NO entity, fact or prose is searchable right now — this is not 'nothing matched'. The memory verbs are unaffected: recall reads the store directly and is complete."
}

/// The note: memory unscanned.
pub open spec fn memory_unscanned_note() -> Seq<char> {
    "PARTIAL: the index holds only what jojobot has written since this server started, so anything older may be missing. Any hit here is real — this is not a complete answer over memory. recall reads the store directly and is complete."@
}

fn memory_unscanned_text() -> (t: &'static str)
    ensures
        t@ == memory_unscanned_note(),
{
    "PARTIAL: the index holds only what jojobot has written since this server started, so anything older may be missing. Any hit here is real — this is not a complete answer over memory. recall reads the store directly and is complete."
}

/// The note: memory stale.
pub open spec fn memory_stale_note() -> Seq<char> {
    "PARTIAL: the index holds an OLDER version of at least one entity than the store does. Every hit here is real, but one of them may be a version the store has moved past, and a fact written since may be missing. recall reads the store directly and is complete — use it when the answer matters."@
}

fn memory_stale_text() -> (t: &'static str)
    ensures
        t@ == memory_stale_note(),
{
    "PARTIAL: the index holds an OLDER version of at least one entity than the store does. Every hit here is real, but one of them may be a version the store has moved past, and a fact written since may be missing. recall reads the store directly and is complete — use it when the answer matters."
}

/// The note: handle matched.
pub open spec fn handle_matched_note() -> Seq<char> {
    "this is a handle, matched whole — an empty answer means jojobot holds no such thing"@
}

fn handle_matched_text() -> (t: &'static str)
    ensures
        t@ == handle_matched_note(),
{
    "this is a handle, matched whole — an empty answer means jojobot holds no such thing"
}

/// The note: loosely matched.
pub open spec fn loosely_matched_note() -> Seq<char> {
    "words are matched loosely, by stem, and a query needs most of its terms rather than all of them. So these are the records that MATCHED, not everything that is here: an empty or thin answer can mean the wording missed rather than that nothing was ever recorded. Try fewer words, or the words the record itself would use, before concluding jojobot was never told."@
}

fn loosely_matched_text() -> (t: &'static str)
    ensures
        t@ == loosely_matched_note(),
{
    "words are matched loosely, by stem, and a query needs most of its terms rather than all of them. So these are the records that MATCHED, not everything that is here: an empty or thin answer can mean the wording missed rather than that nothing was ever recorded. Try fewer words, or the words the record itself would use, before concluding jojobot was never told."
}

/// What the validator refuses a query for, if anything: a query that narrows
/// nothing, or narrows itself into a contradiction, or limits itself to
/// nothing, or names something that is no handle.
pub open spec fn query_fault(q: SearchQuery) -> Option<Seq<char>> {
    if !q.narrows() {
        Some(unnarrowed_msg())
    } else if q.answers_type is Some && q.fits_type is Some {
        Some(both_types_msg())
    } else if q.limit == 0 {
        Some(no_limit_msg())
    } else if q.subject is Some && handle_kind(q.subject->0@) is None {
        Some(bad_subject_msg(q.subject->0@))
    } else if q.edge is Some && handle_kind(q.edge->0.object@) is None {
        Some(bad_edge_object_msg(q.edge->0.object@))
    } else {
        None
    }
}

pub open spec fn unnarrowed_msg() -> Seq<char> {
    "a search needs words or a filter: pass query, or one of kind, status, provenance, standing, subject, edge, answers_type or fits_type — include_mail says what to search, not what to narrow to"@
}

pub open spec fn both_types_msg() -> Seq<char> {
    "answers_type and fits_type are one question asked two ways: pass one of them, never both"@
}

pub open spec fn no_limit_msg() -> Seq<char> {
    "limit must be at least 1: a search that may return nothing asks nothing"@
}

pub open spec fn bad_subject_msg(s: Seq<char>) -> Seq<char> {
    "subject '"@ + s + "' is no handle — write it kind:slug"@
}

pub open spec fn bad_edge_object_msg(o: Seq<char>) -> Seq<char> {
    "edge object '"@ + o + "' is no handle — write it kind:slug"@
}

fn is_handle_text(s: &str) -> (b: bool)
    ensures
        b == (handle_kind(s@) is Some),
{
    let v = chars_of(s);
    kind_half(&v).is_some()
}

impl SearchQuery {
    /// The query's own validation: refused for a query that narrows nothing,
    /// names both type filters, limits itself to nothing, or names a subject
    /// or an edge object that is no handle.
    pub fn validate(&self) -> (r: Result<(), MemoryError>)
        ensures
            match query_fault(*self) {
                Some(why) => r matches Err(e) && e matches MemoryError::InvalidQuery(m) && m@ == why,
                None => r is Ok,
            },
    {
        let words = self.terms();
        let narrows = words.is_some() || self.kind.is_some() || self.is_fact_scoped() || self.is_thing_scoped();
        if !narrows {
            return Err(MemoryError::InvalidQuery(text(
                "a search needs words or a filter: pass query, or one of kind, status, provenance, standing, subject, edge, answers_type or fits_type — include_mail says what to search, not what to narrow to",
            )));
        }
        if self.answers_type.is_some() && self.fits_type.is_some() {
            return Err(MemoryError::InvalidQuery(text(
                "answers_type and fits_type are one question asked two ways: pass one of them, never both",
            )));
        }
        if self.limit == 0 {
            return Err(MemoryError::InvalidQuery(text(
                "limit must be at least 1: a search that may return nothing asks nothing",
            )));
        }
        if let Some(s) = &self.subject {
            if !is_handle_text(s.0.as_str()) {
                let mut m = text("subject '");
                push_str(&mut m, s.0.as_str());
                push_str(&mut m, "' is no handle — write it kind:slug");
                return Err(MemoryError::InvalidQuery(m));
            }
        }
        if let Some(e) = &self.edge {
            if !is_handle_text(e.object.0.as_str()) {
                let mut m = text("edge object '");
                push_str(&mut m, e.object.0.as_str());
                push_str(&mut m, "' is no handle — write it kind:slug");
                return Err(MemoryError::InvalidQuery(m));
            }
        }
        Ok(())
    }
}

/// **Why the QUERY left mail out** — the reasons that hold before the index
/// is consulted at all, so they answer ahead of [`Coverage`].
#[derive(Debug, Clone, Copy, PartialEq, Eq, Structural)]
pub enum MailExcluded {
    /// Mail was not asked for — the default.
    NotAsked,
    /// The query filters on a property only a fact has.
    FactScoped,
    /// A `kind` filter: a message belongs to no entity, so it has no kind.
    KindFiltered,
    /// A type query asks about THINGS, and a message is not one.
    TypeFiltered,
}

/// The reason a query leaves mail out, if one holds. **First match wins.**
pub open spec fn mail_excluded(q: SearchQuery) -> Option<MailExcluded> {
    if !q.include_mail {
        Some(MailExcluded::NotAsked)
    } else if q.fact_scoped() {
        Some(MailExcluded::FactScoped)
    } else if q.thing_scoped() {
        Some(MailExcluded::TypeFiltered)
    } else if q.kind is Some {
        Some(MailExcluded::KindFiltered)
    } else {
        None
    }
}

/// The reason after `r`, in the order every reason is walked.
pub open spec fn reason_after(r: MailExcluded) -> Option<MailExcluded> {
    match r {
        MailExcluded::NotAsked => Some(MailExcluded::FactScoped),
        MailExcluded::FactScoped => Some(MailExcluded::TypeFiltered),
        MailExcluded::TypeFiltered => Some(MailExcluded::KindFiltered),
        MailExcluded::KindFiltered => None,
    }
}

impl MailExcluded {
    /// What the answer tells the caller, and how to get mail back.
    pub open spec fn said(self) -> Seq<char> {
        match self {
            MailExcluded::NotAsked => not_asked_note(),
            MailExcluded::FactScoped => fact_scoped_note(),
            MailExcluded::TypeFiltered => type_filtered_note(),
            MailExcluded::KindFiltered => kind_filtered_note(),
        }
    }

    /// The reason this query leaves mail out, if one holds.
    pub fn of(query: &SearchQuery) -> (r: Option<MailExcluded>)
        ensures
            r == mail_excluded(*query),
    {
        if !query.include_mail {
            return Some(MailExcluded::NotAsked);
        }
        if query.is_fact_scoped() {
            return Some(MailExcluded::FactScoped);
        }
        if query.is_thing_scoped() {
            return Some(MailExcluded::TypeFiltered);
        }
        if query.kind.is_some() {
            return Some(MailExcluded::KindFiltered);
        }
        None
    }

    /// What the answer tells the caller, and how to get mail back.
    pub fn note(self) -> (t: &'static str)
        ensures
            t@ == self.said(),
    {
        match self {
            MailExcluded::NotAsked => not_asked_text(),
            MailExcluded::FactScoped => fact_scoped_text(),
            MailExcluded::TypeFiltered => type_filtered_text(),
            MailExcluded::KindFiltered => kind_filtered_text(),
        }
    }

    /// The next reason, so gathering the notes walks every one of them.
    pub fn next(self) -> (r: Option<MailExcluded>)
        ensures
            r == reason_after(self),
    {
        match self {
            MailExcluded::NotAsked => Some(MailExcluded::FactScoped),
            MailExcluded::FactScoped => Some(MailExcluded::TypeFiltered),
            MailExcluded::TypeFiltered => Some(MailExcluded::KindFiltered),
            MailExcluded::KindFiltered => None,
        }
    }

    /// A query that this reason answers for, so the gathering reaches each
    /// note through [`mail_coverage`], the path a caller travels.
    pub fn query(self) -> (q: SearchQuery)
        ensures
            mail_excluded(q) == Some(self),
            match self {
                MailExcluded::NotAsked => asks_only_for(q, None, None, None, None, None, false),
                MailExcluded::FactScoped => asks_only_for(q, None, Some(FactStatus::Active), None, None, None, true),
                MailExcluded::TypeFiltered => asks_only_for(q, None, None, Some("kiln-firing"@), None, None, true)
                    && (q.answers_type matches Some(t) && t.fields@.len() == 0),
                MailExcluded::KindFiltered => asks_only_for(q, Some("person"@), None, None, None, None, true),
            },
    {
        match self {
            MailExcluded::NotAsked => SearchQuery { include_mail: false, ..SearchQuery::default() },
            MailExcluded::FactScoped => SearchQuery { status: Some(FactStatus::Active), ..asking_for_mail() },
            MailExcluded::TypeFiltered => SearchQuery {
                answers_type: Some(DeclaredType::new("kiln-firing", Vec::new())),
                ..asking_for_mail()
            },
            MailExcluded::KindFiltered => SearchQuery { kind: Some(EntityKind::person()), ..asking_for_mail() },
        }
    }
}

/// Whether `q` asks exactly this and nothing more: the kind, status and
/// type filters given (a type by its name), no second type filter, no words,
/// no asker, no provenance, standing, subject or edge, mail as said, and the
/// default limit. `fits` names the type that must fit, when one must.
pub open spec fn asks_only_for(
    q: SearchQuery,
    kind: Option<Seq<char>>,
    status: Option<FactStatus>,
    answers: Option<Seq<char>>,
    fits: Option<Seq<char>>,
    asked_by: Option<Seq<char>>,
    include_mail: bool,
) -> bool {
    &&& match kind {
        Some(k) => q.kind matches Some(got) && got@ == k,
        None => q.kind is None,
    }
    &&& q.status == status
    &&& match answers {
        Some(n) => q.answers_type matches Some(t) && t.name@ == n,
        None => q.answers_type is None,
    }
    &&& match fits {
        Some(n) => q.fits_type matches Some(t) && t.name@ == n,
        None => q.fits_type is None,
    }
    &&& match asked_by {
        Some(b) => q.asked_by matches Some(got) && got@ == b,
        None => q.asked_by is None,
    }
    &&& q.text is None
    &&& q.provenance is None
    &&& q.standing is None
    &&& q.subject is None
    &&& q.edge is None
    &&& q.include_mail == include_mail
    &&& q.limit == DEFAULT_LIMIT
}

/// A query that asks for mail and narrows nothing else — the one shape whose
/// mail coverage is decided by the INDEX rather than by the query.
pub fn asking_for_mail() -> (q: SearchQuery)
    ensures
        q.is_empty_query(),
        asks_only_for(q, None, None, None, None, None, true),
        mail_excluded(q) is None,
{
    SearchQuery { include_mail: true, ..SearchQuery::default() }
}

/// Whether every run of `next` from `t` reaches a state that names no
/// successor within `n` steps.
pub open spec fn ends_within<T, F: Fn(T) -> Option<T>>(next: F, t: T, n: nat) -> bool
    decreases n,
{
    n > 0 && forall|r: Option<T>| #[trigger] call_ensures(next, (t,), r) ==> match r {
        Some(u) => ends_within(next, u, (n - 1) as nat),
        None => true,
    }
}

/// **Every state of a kind, walked rather than listed**: each state names its
/// successor, and the walk stops at the state that names none. The walk is
/// the chain from `first`, so only that chain has to end.
pub fn walk<T: Copy, F: Fn(T) -> Option<T>>(first: T, next: F) -> (walked: Vec<T>)
    requires
        forall|t: T| call_requires(next, (t,)),
        exists|n: nat| ends_within(next, first, n),
    ensures
        walked@.len() >= 1,
        walked@[0] == first,
        forall|i: int| #![trigger walked@[i]] 0 <= i < walked@.len() - 1 ==> call_ensures(next, (walked@[i],), Some(walked@[i + 1])),
        call_ensures(next, (walked@.last(),), None::<T>),
{
    let ghost mut budget: nat = choose|n: nat| ends_within(next, first, n);
    let mut walked: Vec<T> = Vec::new();
    walked.push(first);
    loop
        invariant
            walked@.len() >= 1,
            walked@[0] == first,
            forall|t: T| call_requires(next, (t,)),
            ends_within(next, walked@.last(), budget),
            forall|i: int| #![trigger walked@[i]] 0 <= i < walked@.len() - 1 ==> call_ensures(next, (walked@[i],), Some(walked@[i + 1])),
        decreases budget,
    {
        let last = walked[walked.len() - 1];
        let step = next(last);
        match step {
            Some(state) => {
                proof {
                    assert(call_ensures(next, (last,), Some(state)));
                    assert(ends_within(next, state, (budget - 1) as nat));
                    budget = (budget - 1) as nat;
                }
                let ghost was = walked@;
                walked.push(state);
                proof {
                    assert(walked@.last() == state);
                    assert forall|i: int| #![trigger walked@[i]] 0 <= i < walked@.len() - 1 implies call_ensures(next, (walked@[i],), Some(walked@[i + 1])) by {
                        if i < was.len() - 1 {
                            assert(walked@[i] == was[i] && walked@[i + 1] == was[i + 1]);
                        } else {
                            assert(walked@[i] == last);
                        }
                    }
                }
            },
            None => {
                return walked;
            },
        }
    }
}

/// A state ends within `n` steps when every successor it may name ends
/// within one fewer.
proof fn lemma_ends_within_step<T, F: Fn(T) -> Option<T>>(next: F, t: T, n: nat)
    requires
        n > 0,
        forall|r: Option<T>| #[trigger] call_ensures(next, (t,), r) ==> match r {
            Some(u) => ends_within(next, u, (n - 1) as nat),
            None => true,
        },
    ensures
        ends_within(next, t, n),
{
}

/// How many steps a walk over the reasons takes from `r` to its end.
pub open spec fn reason_steps(r: MailExcluded) -> nat {
    match r {
        MailExcluded::NotAsked => 4,
        MailExcluded::FactScoped => 3,
        MailExcluded::TypeFiltered => 2,
        MailExcluded::KindFiltered => 1,
    }
}

/// Every walk over the reasons ends.
proof fn lemma_reasons_end(r: MailExcluded)
    ensures
        ends_within(MailExcluded::next, r, reason_steps(r)),
    decreases reason_steps(r),
{
    match reason_after(r) {
        Some(u) => lemma_reasons_end(u),
        None => {},
    }
    assert forall|o: Option<MailExcluded>| #[trigger] call_ensures(MailExcluded::next, (r,), o) implies match o {
        Some(u) => ends_within(MailExcluded::next, u, (reason_steps(r) - 1) as nat),
        None => true,
    } by {
        assert(o == reason_after(r));
        if let Some(u) = o {
            assert(reason_steps(u) == reason_steps(r) - 1);
            assert(ends_within(MailExcluded::next, u, reason_steps(u)));
        }
    }
    lemma_ends_within_step(MailExcluded::next, r, reason_steps(r));
}

/// How many steps a walk over the coverage states takes from `c` to its end.
pub open spec fn coverage_steps(c: Coverage) -> nat {
    match c {
        Coverage::Unread => 4,
        Coverage::Partial(Behind::Unscanned) => 3,
        Coverage::Partial(Behind::Stale) => 2,
        Coverage::Loaded => 1,
    }
}

/// Every walk over the coverage states ends.
proof fn lemma_coverages_end(c: Coverage)
    ensures
        ends_within(next_coverage, c, coverage_steps(c)),
    decreases coverage_steps(c),
{
    match coverage_after(c) {
        Some(u) => lemma_coverages_end(u),
        None => {},
    }
    assert forall|o: Option<Coverage>| #[trigger] call_ensures(next_coverage, (c,), o) implies match o {
        Some(u) => ends_within(next_coverage, u, (coverage_steps(c) - 1) as nat),
        None => true,
    } by {
        assert(o == coverage_after(c));
        if let Some(u) = o {
            assert(coverage_steps(u) == coverage_steps(c) - 1);
            assert(ends_within(next_coverage, u, coverage_steps(u)));
        }
    }
    lemma_ends_within_step(next_coverage, c, coverage_steps(c));
}

/// How far behind the store an index half is.
#[derive(Debug, Clone, Copy, PartialEq, Eq, Structural)]
pub enum Behind {
    /// The index holds only what was written since the server started.
    Unscanned,
    /// The index holds an older version of at least one entity.
    Stale,
}

impl Behind {
    pub open spec fn token(self) -> Seq<char> {
        match self {
            Behind::Unscanned => "unscanned"@,
            Behind::Stale => "stale"@,
        }
    }

    pub fn as_token(self) -> (t: &'static str)
        ensures
            t@ == self.token(),
    {
        match self {
            Behind::Unscanned => "unscanned",
            Behind::Stale => "stale",
        }
    }
}

/// How much of one store an index half holds.
#[derive(Debug, Clone, Copy, PartialEq, Eq, Structural)]
pub enum Coverage {
    /// Nothing of the store was read.
    Unread,
    /// Some of it, behind in the way named.
    Partial(Behind),
    /// All of it.
    Loaded,
}

/// The coverage state after `c`.
pub open spec fn coverage_after(c: Coverage) -> Option<Coverage> {
    match c {
        Coverage::Unread => Some(Coverage::Partial(Behind::Unscanned)),
        Coverage::Partial(Behind::Unscanned) => Some(Coverage::Partial(Behind::Stale)),
        Coverage::Partial(Behind::Stale) => Some(Coverage::Loaded),
        Coverage::Loaded => None,
    }
}

/// The next coverage state.
pub fn next_coverage(coverage: Coverage) -> (r: Option<Coverage>)
    ensures
        r == coverage_after(coverage),
{
    match coverage {
        Coverage::Unread => Some(Coverage::Partial(Behind::Unscanned)),
        Coverage::Partial(Behind::Unscanned) => Some(Coverage::Partial(Behind::Stale)),
        Coverage::Partial(Behind::Stale) => Some(Coverage::Loaded),
        Coverage::Loaded => None,
    }
}

/// **Whether an answer covered one half, and why not when it didn't.** One
/// shape, always present: `searched`, the `behind` token when the half is
/// partial, and a `note` whenever there is something to read.
#[derive(Debug, Clone, Copy, PartialEq, Eq)]
pub struct CoverageReport {
    pub searched: bool,
    pub behind: Option<Behind>,
    pub note: Option<&'static str>,
}

impl View for CoverageReport {
    type V = (bool, Option<Behind>, Option<Seq<char>>);

    open spec fn view(&self) -> Self::V {
        (
            self.searched,
            self.behind,
            match self.note {
                Some(n) => Some(n@),
                None => None,
            },
        )
    }
}

/// What an answer says about mail.
pub open spec fn mail_report(q: SearchQuery, c: Coverage) -> (bool, Option<Behind>, Option<Seq<char>>) {
    match mail_excluded(q) {
        Some(r) => (false, None, Some(r.said())),
        None => match c {
            Coverage::Unread => (false, None, Some(mail_unread_note())),
            Coverage::Partial(b) => (true, Some(b), Some(mail_partial_note())),
            Coverage::Loaded => (true, None, None),
        },
    }
}

/// What an answer says about memory.
pub open spec fn memory_report(c: Coverage) -> (bool, Option<Behind>, Option<Seq<char>>) {
    match c {
        Coverage::Unread => (false, None, Some(memory_unread_note())),
        Coverage::Partial(Behind::Unscanned) => (true, Some(Behind::Unscanned), Some(memory_unscanned_note())),
        Coverage::Partial(Behind::Stale) => (true, Some(Behind::Stale), Some(memory_stale_note())),
        Coverage::Loaded => (true, None, None),
    }
}

/// **Whether this answer covered mail, and why not when it didn't.** The
/// query's own reasons answer first; then the index's coverage.
pub fn mail_coverage(query: &SearchQuery, coverage: Coverage) -> (r: CoverageReport)
    ensures
        r@ == mail_report(*query, coverage),
{
    if let Some(left_out) = MailExcluded::of(query) {
        return CoverageReport { searched: false, behind: None, note: Some(left_out.note()) };
    }
    match coverage {
        Coverage::Unread => CoverageReport { searched: false, behind: None, note: Some(mail_unread_text()) },
        Coverage::Partial(behind) => CoverageReport {
            searched: true,
            behind: Some(behind),
            note: Some(mail_partial_text()),
        },
        Coverage::Loaded => CoverageReport { searched: true, behind: None, note: None },
    }
}

/// **Whether this answer covered the memory graph, and what is missing when
/// it didn't** — in the same shape and the same words as mail.
pub fn memory_coverage(coverage: Coverage) -> (r: CoverageReport)
    ensures
        r@ == memory_report(coverage),
{
    match coverage {
        Coverage::Unread => CoverageReport { searched: false, behind: None, note: Some(memory_unread_text()) },
        Coverage::Partial(Behind::Unscanned) => CoverageReport {
            searched: true,
            behind: Some(Behind::Unscanned),
            note: Some(memory_unscanned_text()),
        },
        Coverage::Partial(Behind::Stale) => CoverageReport {
            searched: true,
            behind: Some(Behind::Stale),
            note: Some(memory_stale_text()),
        },
        Coverage::Loaded => CoverageReport { searched: true, behind: None, note: None },
    }
}


impl MailExcluded {
    /// The reason's name, as a label shows it.
    pub open spec fn name_of(self) -> Seq<char> {
        match self {
            MailExcluded::NotAsked => "NotAsked"@,
            MailExcluded::FactScoped => "FactScoped"@,
            MailExcluded::TypeFiltered => "TypeFiltered"@,
            MailExcluded::KindFiltered => "KindFiltered"@,
        }
    }

    pub fn name(self) -> (t: &'static str)
        ensures
            t@ == self.name_of(),
    {
        match self {
            MailExcluded::NotAsked => "NotAsked",
            MailExcluded::FactScoped => "FactScoped",
            MailExcluded::TypeFiltered => "TypeFiltered",
            MailExcluded::KindFiltered => "KindFiltered",
        }
    }
}

impl Coverage {
    /// The state's name, as a label shows it.
    pub open spec fn name_of(self) -> Seq<char> {
        match self {
            Coverage::Unread => "Unread"@,
            Coverage::Partial(Behind::Unscanned) => "Partial(Unscanned)"@,
            Coverage::Partial(Behind::Stale) => "Partial(Stale)"@,
            Coverage::Loaded => "Loaded"@,
        }
    }

    pub fn name(self) -> (t: &'static str)
        ensures
            t@ == self.name_of(),
    {
        match self {
            Coverage::Unread => "Unread",
            Coverage::Partial(Behind::Unscanned) => "Partial(Unscanned)",
            Coverage::Partial(Behind::Stale) => "Partial(Stale)",
            Coverage::Loaded => "Loaded",
        }
    }
}

/// The label of one gathered note.
pub open spec fn note_label(half: Seq<char>, state: Seq<char>) -> Seq<char> {
    "search's "@ + half + " coverage note ("@ + state + ")"@
}

fn label(half: &str, state: &str) -> (s: String)
    ensures
        s@ == note_label(half@, state@),
{
    let mut s = text("search's ");
    push_str(&mut s, half);
    push_str(&mut s, " coverage note (");
    push_str(&mut s, state);
    push_str(&mut s, ")");
    s
}

/// The reasons a query can leave mail out, in their walking order.
pub open spec fn all_reasons() -> Seq<MailExcluded> {
    seq![MailExcluded::NotAsked, MailExcluded::FactScoped, MailExcluded::TypeFiltered, MailExcluded::KindFiltered]
}

/// The coverage states, in their walking order.
pub open spec fn all_coverages() -> Seq<Coverage> {
    seq![Coverage::Unread, Coverage::Partial(Behind::Unscanned), Coverage::Partial(Behind::Stale), Coverage::Loaded]
}

/// **Every note search can put in an answer**, each labelled with the state
/// that produces it: first the query's reasons, then, per coverage state, the
/// memory note and the mail note.
pub open spec fn gathered_notes() -> Seq<(Seq<char>, (bool, Option<Behind>, Option<Seq<char>>))> {
    all_reasons().map_values(|r: MailExcluded| (note_label("mail"@, r.name_of()), (false, None, Some(r.said()))))
        + Seq::new(8, |i: int| {
            let c = all_coverages()[i / 2];
            if i % 2 == 0 {
                (note_label("memory"@, c.name_of()), memory_report(c))
            } else {
                (note_label("mail"@, c.name_of()), mail_report_of_index(c))
            }
        })
}

/// What an answer over an unnarrowed query that asked for mail says about
/// mail: the index's coverage alone decides it.
pub open spec fn mail_report_of_index(c: Coverage) -> (bool, Option<Behind>, Option<Seq<char>>) {
    match c {
        Coverage::Unread => (false, None, Some(mail_unread_note())),
        Coverage::Partial(b) => (true, Some(b), Some(mail_partial_note())),
        Coverage::Loaded => (true, None, None),
    }
}

/// The labelled notes, as values.
pub open spec fn notes_view(found: Seq<(String, CoverageReport)>) -> Seq<(Seq<char>, (bool, Option<Behind>, Option<Seq<char>>))> {
    found.map_values(|p: (String, CoverageReport)| (p.0@, p.1@))
}

proof fn lemma_walked_reasons(w: Seq<MailExcluded>)
    requires
        w.len() >= 1,
        w[0] == MailExcluded::NotAsked,
        forall|i: int| #![trigger w[i]] 0 <= i < w.len() - 1 ==> reason_after(w[i]) == Some(w[i + 1]),
        reason_after(w.last()) is None,
    ensures
        w == all_reasons(),
{
    assert(w.len() > 1);
    assert(w[1] == MailExcluded::FactScoped);
    assert(w.len() > 2);
    assert(w[2] == MailExcluded::TypeFiltered);
    assert(w.len() > 3);
    assert(w[3] == MailExcluded::KindFiltered);
    if w.len() > 4 {
        assert(reason_after(w[3]) == Some(w[4]));
    }
    assert(w =~= all_reasons());
}

proof fn lemma_walked_coverages(w: Seq<Coverage>)
    requires
        w.len() >= 1,
        w[0] == Coverage::Unread,
        forall|i: int| #![trigger w[i]] 0 <= i < w.len() - 1 ==> coverage_after(w[i]) == Some(w[i + 1]),
        coverage_after(w.last()) is None,
    ensures
        w == all_coverages(),
{
    assert(w.len() > 1);
    assert(w[1] == Coverage::Partial(Behind::Unscanned));
    assert(w.len() > 2);
    assert(w[2] == Coverage::Partial(Behind::Stale));
    assert(w.len() > 3);
    assert(w[3] == Coverage::Loaded);
    if w.len() > 4 {
        assert(coverage_after(w[3]) == Some(w[4]));
    }
    assert(w =~= all_coverages());
}

/// **Every note these two functions can put in an answer**, each labelled
/// with the state that produces it. Both axes are walked rather than listed,
/// and each query-driven note is reached through [`mail_coverage`], the path
/// a caller travels.
pub fn coverage_notes() -> (found: Vec<(String, CoverageReport)>)
    ensures
        notes_view(found@) == gathered_notes(),
{
    let mut found: Vec<(String, CoverageReport)> = Vec::new();
    proof {
        lemma_reasons_end(MailExcluded::NotAsked);
    }
    let reasons = walk(MailExcluded::NotAsked, MailExcluded::next);
    proof {
        assert forall|i: int| #![trigger reasons@[i]] 0 <= i < reasons@.len() - 1 implies reason_after(reasons@[i]) == Some(reasons@[i + 1]) by {
            assert(call_ensures(MailExcluded::next, (reasons@[i],), Some(reasons@[i + 1])));
        }
        lemma_walked_reasons(reasons@);
    }
    let ghost first_part = all_reasons().map_values(|r: MailExcluded| (note_label("mail"@, r.name_of()), (false, None::<Behind>, Some(r.said()))));
    let mut i: usize = 0;
    while i < reasons.len()
        invariant
            reasons@ == all_reasons(),
            i <= reasons@.len(),
            first_part == all_reasons().map_values(|r: MailExcluded| (note_label("mail"@, r.name_of()), (false, None::<Behind>, Some(r.said())))),
            notes_view(found@) == first_part.subrange(0, i as int),
        decreases reasons.len() - i,
    {
        let left_out = reasons[i];
        let q = left_out.query();
        let report = mail_coverage(&q, Coverage::Loaded);
        let named = label("mail", left_out.name());
        let ghost entry = (named@, report@);
        assert(left_out == all_reasons()[i as int]);
        assert(entry == first_part[i as int]);
        let ghost before = found@;
        found.push((named, report));
        assert(found@ == before.push((named, report)));
        assert(notes_view(found@) == notes_view(before).push(entry));
        i = i + 1;
        assert(notes_view(found@) =~= first_part.subrange(0, i as int));
    }
    proof {
        lemma_coverages_end(Coverage::Unread);
    }
    let coverages = walk(Coverage::Unread, next_coverage);
    proof {
        assert forall|k: int| #![trigger coverages@[k]] 0 <= k < coverages@.len() - 1 implies coverage_after(coverages@[k]) == Some(coverages@[k + 1]) by {
            assert(call_ensures(next_coverage, (coverages@[k],), Some(coverages@[k + 1])));
        }
        lemma_walked_coverages(coverages@);
    }
    let ghost second_part = Seq::new(8, |i: int| {
        let c = all_coverages()[i / 2];
        if i % 2 == 0 {
            (note_label("memory"@, c.name_of()), memory_report(c))
        } else {
            (note_label("mail"@, c.name_of()), mail_report_of_index(c))
        }
    });
    let mut j: usize = 0;
    while j < coverages.len()
        invariant
            coverages@ == all_coverages(),
            j <= coverages@.len(),
            first_part.len() == 4,
            second_part == Seq::new(8, |i: int| {
                let c = all_coverages()[i / 2];
                if i % 2 == 0 {
                    (note_label("memory"@, c.name_of()), memory_report(c))
                } else {
                    (note_label("mail"@, c.name_of()), mail_report_of_index(c))
                }
            }),
            notes_view(found@) == first_part + second_part.subrange(0, 2 * j as int),
        decreases coverages.len() - j,
    {
        let coverage = coverages[j];
        assert(coverage == all_coverages()[j as int]);
        let memory_named = label("memory", coverage.name());
        let memory_report_now = memory_coverage(coverage);
        let asking = asking_for_mail();
        let mail_named = label("mail", coverage.name());
        let mail_report_now = mail_coverage(&asking, coverage);
        assert((memory_named@, memory_report_now@) == second_part[2 * j as int]);
        assert((mail_named@, mail_report_now@) == second_part[2 * j + 1]);
        let ghost before = found@;
        found.push((memory_named, memory_report_now));
        found.push((mail_named, mail_report_now));
        assert(notes_view(found@) == notes_view(before).push((memory_named@, memory_report_now@)).push((mail_named@, mail_report_now@)));
        j = j + 1;
        assert(notes_view(found@) =~= first_part + second_part.subrange(0, 2 * j as int));
    }
    assert(second_part.subrange(0, 8) =~= second_part);
    found
}

/// **What the matcher can and cannot promise about this query.** A handle is
/// matched whole, so an empty answer under one means no such thing is held;
/// words are matched loosely, so an empty answer under them means the wording
/// missed.
#[derive(Debug, Clone, Copy, PartialEq, Eq)]
pub struct MatchingNote {
    pub exact: bool,
    pub note: &'static str,
}

/// Whether a query's words are a handle, matched whole.
pub open spec fn matched_whole(q: SearchQuery) -> bool {
    q.terms_of() matches Some(t) && handle_kind(trim(t)) is Some
}

/// What the matcher promises about this query.
pub fn matching_note(query: &SearchQuery) -> (m: MatchingNote)
    ensures
        m.exact == matched_whole(*query),
        m.note@ == if m.exact {
            handle_matched_note()
        } else {
            loosely_matched_note()
        },
{
    let exact = match query.terms() {
        Some(t) => {
            let w = trimmed_str(t.as_str());
            kind_half(&w).is_some()
        },
        None => false,
    };
    MatchingNote { exact, note: if exact { handle_matched_text() } else { loosely_matched_text() } }
}

/// The `edge` filter of a `search` — a shape and the entity it points at.
#[derive(Debug)]
pub struct EdgeFilterArgs {
    /// Narrow to one shape; omit for **any** edge pointing at `object`.
    pub shape: Option<String>,
    /// The entity the edge must point at, as `kind:slug`.
    pub object: String,
}

/// Arguments to `search`.
#[derive(Debug)]
pub struct SearchArgs {
    /// Free text; optional when a filter narrows the search.
    pub query: Option<String>,
    /// Narrow to one entity kind.
    pub kind: Option<String>,
    /// `active` (the default) or `superseded`; a superseded fact is
    /// excluded unless named. `archived` is read too.
    pub status: Option<String>,
    /// `testimony`, `observation` or `inference`.
    pub provenance: Option<String>,
    /// `settled` or `open`.
    pub standing: Option<String>,
    /// Facts about this entity, as `kind:slug` (a bare handle is a person).
    pub subject: Option<String>,
    /// Facts drawing a matching edge.
    pub edge: Option<EdgeFilterArgs>,
    /// THINGS carrying some of this type's keys, by name.
    pub answers_type: Option<String>,
    /// Only the things carrying every key of this type, by name.
    pub fits_type: Option<String>,
    /// Whether messages are searched too; off unless asked for.
    pub include_mail: Option<bool>,
    /// How many results; defaults to twenty.
    pub limit: Option<u32>,
    /// The caller's session id.
    pub sid: Option<String>,
}

/// **What a search's status filter says.** A search may name `superseded`,
/// because that is how a caller reaches the facts a plain search excludes;
/// every other word reads as a status argument does everywhere else, so
/// `negated` and `retracted` are still refused by name.
pub open spec fn search_status_outcome(raw: Seq<char>) -> Result<FactStatus, Seq<char>> {
    if trim(raw) == "superseded"@ {
        Ok(FactStatus::Superseded)
    } else {
        status_outcome(raw)
    }
}

/// Parse a search's status filter.
pub fn parse_search_status(raw: &str) -> (r: Result<FactStatus, McpError>)
    ensures
        match search_status_outcome(raw@) {
            Ok(v) => r == Ok::<FactStatus, McpError>(v),
            Err(m) => refused(r, m),
        },
{
    let t = trimmed_str(raw);
    if crate::text::spells(&t, "superseded") {
        Ok(FactStatus::Superseded)
    } else {
        parse_status(raw)
    }
}

/// The first argument of a search that is malformed, in the order they are
/// read: the edge's shape, the kind, the status, the provenance, the standing.
pub open spec fn search_fault(args: SearchArgs, kinds: Seq<Seq<char>>) -> Option<Seq<char>> {
    let edge_fault = match args.edge {
        Some(e) => match e.shape {
            Some(s) => if shape_of(s@) is None {
                Some(shape_refusal_msg(s@))
            } else {
                None
            },
            None => None,
        },
        None => None,
    };
    let kind_fault = match args.kind {
        Some(k) => match resolve_kind(kinds, trim(k@)) {
            Err(why) => Some(kind_refusal_msg(k@, why)),
            Ok(_) => None,
        },
        None => None,
    };
    let status_fault = match args.status {
        Some(s) => match search_status_outcome(s@) {
            Err(m) => Some(m),
            Ok(_) => None,
        },
        None => None,
    };
    let provenance_fault = match args.provenance {
        Some(p) => match one_provenance_outcome(p@) {
            Err(m) => Some(m),
            Ok(_) => None,
        },
        None => None,
    };
    let standing_fault = match args.standing {
        Some(s) => match standing_outcome(s@) {
            Err(m) => Some(m),
            Ok(_) => None,
        },
        None => None,
    };
    if edge_fault is Some {
        edge_fault
    } else if kind_fault is Some {
        kind_fault
    } else if status_fault is Some {
        status_fault
    } else if provenance_fault is Some {
        provenance_fault
    } else {
        standing_fault
    }
}

/// Whether `q` is the query the arguments mean: every argument in its typed
/// form, and the type filters and the asker as they were resolved.
pub open spec fn query_meant(
    q: SearchQuery,
    args: SearchArgs,
    answers_type: Option<DeclaredType>,
    fits_type: Option<DeclaredType>,
    asked_by: Option<EntityId>,
) -> bool {
    &&& q.answers_type == answers_type
    &&& q.fits_type == fits_type
    &&& q.asked_by == asked_by
    &&& q.text == args.query
    &&& match args.kind {
        Some(k) => q.kind matches Some(got) && got@ == trim(k@),
        None => q.kind is None,
    }
    &&& match args.status {
        Some(s) => search_status_outcome(s@) matches Ok(v) && q.status == Some(v),
        None => q.status is None,
    }
    &&& match args.provenance {
        Some(p) => one_provenance_outcome(p@) matches Ok(v) && q.provenance == Some(v),
        None => q.provenance is None,
    }
    &&& match args.standing {
        Some(s) => standing_outcome(s@) matches Ok(v) && q.standing == Some(v),
        None => q.standing is None,
    }
    &&& match args.subject {
        Some(s) => q.subject matches Some(got) && got@ == person_handle(s@),
        None => q.subject is None,
    }
    &&& match args.edge {
        Some(e) => q.edge matches Some(f) && f.object@ == trim(e.object@) && f.shape == match e.shape {
            Some(s) => shape_of(s@),
            None => None,
        },
        None => q.edge is None,
    }
    &&& q.include_mail == (args.include_mail == Some(true))
    &&& q.limit == match args.limit {
        Some(l) => l as usize,
        None => DEFAULT_LIMIT,
    }
}

/// **Every argument of a search, as the typed query it means.** A token no
/// closed set holds is a malformed call, refused before any query exists; the
/// type filters arrive already resolved to their declarations, and the asker
/// to the bot its session names.
pub fn search_query(
    args: SearchArgs,
    kinds: &Kinds,
    answers_type: Option<DeclaredType>,
    fits_type: Option<DeclaredType>,
    asked_by: Option<EntityId>,
) -> (r: Result<SearchQuery, McpError>)
    ensures
        match search_fault(args, kinds@) {
            Some(m) => refused(r, m),
            None => r matches Ok(q) && query_meant(q, args, answers_type, fits_type, asked_by),
        },
{
    let SearchArgs { query, kind, status, provenance, standing, subject, edge, answers_type: _, fits_type: _, include_mail, limit, sid: _ } = args;
    let edge = match edge {
        None => None,
        Some(e) => {
            let shape = match &e.shape {
                None => None,
                Some(s) => match parse_shape(s.as_str()) {
                    Ok(sh) => Some(sh),
                    Err(err) => return Err(err),
                },
            };
            let object = trimmed_str(e.object.as_str());
            Some(EdgeFilter { shape, object: EntityId(string_of(&object)) })
        },
    };
    let kind = match &kind {
        None => None,
        Some(k) => match parse_kind(kinds, k.as_str()) {
            Ok(k) => Some(k),
            Err(err) => return Err(err),
        },
    };
    let status = match &status {
        None => None,
        Some(s) => match parse_search_status(s.as_str()) {
            Ok(s) => Some(s),
            Err(err) => return Err(err),
        },
    };
    let provenance = match &provenance {
        None => None,
        Some(p) => match parse_one_provenance(p.as_str()) {
            Ok(p) => Some(p),
            Err(err) => return Err(err),
        },
    };
    let standing = match &standing {
        None => None,
        Some(s) => match parse_standing(s.as_str()) {
            Ok(s) => Some(s),
            Err(err) => return Err(err),
        },
    };
    let subject = match &subject {
        None => None,
        Some(s) => Some(EntityId::person(s.as_str())),
    };
    let include_mail = match include_mail {
        Some(asked) => asked,
        None => false,
    };
    let limit = match limit {
        Some(l) => l as usize,
        None => DEFAULT_LIMIT,
    };
    Ok(SearchQuery {
        answers_type,
        fits_type,
        asked_by,
        text: query,
        kind,
        status,
        provenance,
        standing,
        subject,
        edge,
        include_mail,
        limit,
    })
}

/// **What the search answer says of itself**: how many hits, what the
/// matcher promises, and how much of each half was searched.
#[derive(Debug, Clone, Copy, PartialEq, Eq)]
pub struct SearchSummary {
    pub count: usize,
    pub matching: MatchingNote,
    pub memory: CoverageReport,
    pub mail: CoverageReport,
}

/// The answer's account of itself, given what the index found and how much
/// of each half it holds.
pub fn search_summary(query: &SearchQuery, count: usize, memory: Coverage, mail: Coverage) -> (s: SearchSummary)
    ensures
        s.count == count,
        s.matching.exact == matched_whole(*query),
        s.matching.note@ == if s.matching.exact {
            handle_matched_note()
        } else {
            loosely_matched_note()
        },
        s.memory@ == memory_report(memory),
        s.mail@ == mail_report(*query, mail),
{
    SearchSummary {
        count,
        matching: matching_note(query),
        memory: memory_coverage(memory),
        mail: mail_coverage(query, mail),
    }
}

/// **A search port double**: it records the query it was handed and answers
/// with canned hits, at a stated coverage of each half.
pub struct SpySearch<H> {
    pub seen: Option<SearchQuery>,
    pub hits: Vec<H>,
    /// How much of the mail board it claims to hold.
    pub coverage: Coverage,
    /// The same, for the memory half.
    pub memory: Coverage,
}

impl<H> SpySearch<H> {
    /// A port over a fully loaded index, answering with `hits`.
    pub fn answering(hits: Vec<H>) -> (s: Self)
        ensures
            s.seen is None,
            s.hits == hits,
            s.coverage == Coverage::Loaded,
            s.memory == Coverage::Loaded,
    {
        SpySearch { seen: None, hits, coverage: Coverage::Loaded, memory: Coverage::Loaded }
    }

    /// A port at a given mail coverage.
    pub fn covering(coverage: Coverage, hits: Vec<H>) -> (s: Self)
        ensures
            s.seen is None,
            s.hits == hits,
            s.coverage == coverage,
            s.memory == Coverage::Loaded,
    {
        SpySearch { seen: None, hits, coverage, memory: Coverage::Loaded }
    }

    /// A port whose MEMORY half is degraded.
    pub fn over_memory(memory: Coverage, hits: Vec<H>) -> (s: Self)
        ensures
            s.seen is None,
            s.hits == hits,
            s.coverage == Coverage::Loaded,
            s.memory == memory,
    {
        SpySearch { seen: None, hits, coverage: Coverage::Loaded, memory }
    }

    /// A port whose mailbox world was never readable.
    pub fn with_no_mail_indexed() -> (s: Self)
        ensures
            s.seen is None,
            s.hits@.len() == 0,
            s.coverage == Coverage::Unread,
            s.memory == Coverage::Loaded,
    {
        Self::covering(Coverage::Unread, Vec::new())
    }

    /// The query the port was handed. **Search must have reached the port.**
    pub fn query(&self) -> (q: &SearchQuery)
        requires
            self.seen is Some,
        ensures
            self.seen == Some(*q),
    {
        self.seen.as_ref().unwrap()
    }

    /// Search: record the query, answer with the canned hits.
    pub fn search(&mut self, query: SearchQuery) -> (hits: &Vec<H>)
        ensures
            final(self).seen == Some(query),
            final(self).hits == old(self).hits,
            final(self).coverage == old(self).coverage,
            final(self).memory == old(self).memory,
            *hits == old(self).hits,
    {
        self.seen = Some(query);
        &self.hits
    }

    /// How much of the mail board the port holds.
    pub fn mail_coverage(&self) -> (c: Coverage)
        ensures
            c == self.coverage,
    {
        self.coverage
    }

    /// How much of memory the port holds.
    pub fn memory_coverage(&self) -> (c: Coverage)
        ensures
            c == self.memory,
    {
        self.memory
    }
}

impl<H> Default for SpySearch<H> {
    fn default() -> (s: Self)
        ensures
            s.seen is None,
            s.hits@.len() == 0,
            s.coverage == Coverage::Loaded,
            s.memory == Coverage::Loaded,
    {
        SpySearch { seen: None, hits: Vec::new(), coverage: Coverage::Loaded, memory: Coverage::Loaded }
    }
}

/// What the `search` tool tells a caller it does.
pub open spec fn search_description_text() -> Seq<char> {
    "The front door — use it first, and any time you do not already hold the exact handle or address. One ranked list over entities, facts, free prose AND the messages in mailboxes at once. `query` is free text (ALL words must match) and is optional when a filter narrows it: kind · status (default active; superseded is excluded unless named) · provenance · standing (`open` is how you ask which claims are still in doubt) · subject · edge {shape, object} · answers_type · fits_type; a call with neither query nor one of those filters is refused, and include_mail is not one of them — it says what to search, not what to narrow to. The two type filters are one question asked two ways, and a call names one of them, never both: answers_type keeps the things carrying SOME of a type's keys and says which each one lacks, fits_type keeps only the things with no gaps. Reach for answers_type unless you have a reason not to — a thing that arrives with its gaps named can be judged, and a thing fits_type leaves out looks exactly like a thing that is not there. kind + edge answers a cross-entity question in one call (\"which people are in X\") by walking typed edges — prose that merely mentions X is not an answer. No hit comes back bare: a fact carries the whole claim, its address (feed that to update_fact), and who it is `about` and where it is `home`d (a null name there means the handle names nothing — a real defect worth reporting); an entity or prose hit carries that entity's names and the edges its facts draw; a message hit carries its box, its state (new/read/processed — an archived report is findable, and the state is how you tell it from live work), its sender and the id read_message takes, plus a snippet rather than the whole body. Mail is OPT-IN: pass include_mail: true to search messages too, and reach for it when you want what a session knows — a report filed for another session is exactly the context you would not know to go looking for, and this is the one call that finds it. It is off unless you ask, because a message hit carries somebody's box, sender and a snippet, and this is the verb to reach for first. Note that a `kind` filter leaves mail out even when you ask, since a message belongs to no entity and so has no kind to match. ALWAYS read the `mail` field of the answer, in BOTH directions: searched: false means no message was searched at all, which is not the same as nothing matching; and searched: true can still be partial after a degraded start, where the hits are real but anything older than this server's start is missing. Whenever `mail` carries a `note`, that note says which case you are in — read it before concluding a message does not exist. `memory` answers the same question about entities, facts and prose: searched: false means nothing in memory is searchable right now, and searched: true with a note means the index is behind the store, where `behind` says how much: `unscanned` (the index holds only what jojobot has written since this server started) or `stale` (the index holds an older version of one entity than the store, so a hit may be a version the store has moved past). The hits are real either way, and `recall` reads the store itself. No pagination — raise `limit` or ask a better question."@
}

/// The `search` tool's description: what a caller reads before planning a
/// call.
pub fn search_description() -> (d: &'static str)
    ensures
        d@ == search_description_text(),
{
    "The front door — use it first, and any time you do not already hold the exact handle or address. One ranked list over entities, facts, free prose AND the messages in mailboxes at once. `query` is free text (ALL words must match) and is optional when a filter narrows it: kind · status (default active; superseded is excluded unless named) · provenance · standing (`open` is how you ask which claims are still in doubt) · subject · edge {shape, object} · answers_type · fits_type; a call with neither query nor one of those filters is refused, and include_mail is not one of them — it says what to search, not what to narrow to. The two type filters are one question asked two ways, and a call names one of them, never both: answers_type keeps the things carrying SOME of a type's keys and says which each one lacks, fits_type keeps only the things with no gaps. Reach for answers_type unless you have a reason not to — a thing that arrives with its gaps named can be judged, and a thing fits_type leaves out looks exactly like a thing that is not there. kind + edge answers a cross-entity question in one call (\"which people are in X\") by walking typed edges — prose that merely mentions X is not an answer. No hit comes back bare: a fact carries the whole claim, its address (feed that to update_fact), and who it is `about` and where it is `home`d (a null name there means the handle names nothing — a real defect worth reporting); an entity or prose hit carries that entity's names and the edges its facts draw; a message hit carries its box, its state (new/read/processed — an archived report is findable, and the state is how you tell it from live work), its sender and the id read_message takes, plus a snippet rather than the whole body. Mail is OPT-IN: pass include_mail: true to search messages too, and reach for it when you want what a session knows — a report filed for another session is exactly the context you would not know to go looking for, and this is the one call that finds it. It is off unless you ask, because a message hit carries somebody's box, sender and a snippet, and this is the verb to reach for first. Note that a `kind` filter leaves mail out even when you ask, since a message belongs to no entity and so has no kind to match. ALWAYS read the `mail` field of the answer, in BOTH directions: searched: false means no message was searched at all, which is not the same as nothing matching; and searched: true can still be partial after a degraded start, where the hits are real but anything older than this server's start is missing. Whenever `mail` carries a `note`, that note says which case you are in — read it before concluding a message does not exist. `memory` answers the same question about entities, facts and prose: searched: false means nothing in memory is searchable right now, and searched: true with a note means the index is behind the store, where `behind` says how much: `unscanned` (the index holds only what jojobot has written since this server started) or `stale` (the index holds an older version of one entity than the store, so a hit may be a version the store has moved past). The hits are real either way, and `recall` reads the store itself. No pagination — raise `limit` or ask a better question."
}

} // verus!
