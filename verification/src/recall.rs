//! **`recall`, the graph query**: say the shape you want, and get that shape
//! back. What is here is every argument of the call in its typed form — the
//! key filters, the walk, the day a question is asked about — and the view a
//! call may name, filled in before anything reads it.

use vstd::prelude::*;
use crate::capture::opt_text;
use crate::claims::{value_at, value_under};
use crate::declined::{blocked_body, BlockedAnswer, MemoryError};
use crate::parse::{
    clock_of, compare_of, date_of, direction_of, given_text, parse_clock, parse_compare, parse_date,
    parse_direction, parse_kind, parse_scope, parse_shape, refused, scope_of, shape_refusal_msg,
};
use crate::text::{
    trimmed, chars_of, join, lemma_first_index, push_chars, push_str, same_chars, split_at_char, split_once,
    string_of, text, trim, trimmed_str,
};
use crate::types::DeclaredType;
use crate::vocab::{
    join_strings, person_handle, resolve_kind, shape_of, Clock, Compare, Day, Direction, EdgeShape,
    EntityId, EntityKind, EntityMatch, Kinds, McpError, Scope,
};

verus! {

/// One key filter of a `recall` — a key, and optionally the value it holds.
#[derive(Debug)]
pub struct KeyFilterArgs {
    /// The key, exactly as it is spelled where it was written; omit it to ask
    /// about the value under any key at all.
    pub key: Option<String>,
    /// The value it must hold; omit it to ask only that the key is there.
    pub value: Option<String>,
    /// How the value is compared: `equals` (the default), `before`, `after`,
    /// `less` or `greater`.
    pub compare: Option<String>,
    /// What the filter is asked of: `thing` (the default) or `record`.
    pub scope: Option<String>,
}

/// The `follow` argument of a `recall` — which edges to walk, and how far.
#[derive(Debug)]
pub struct FollowArgs {
    /// Narrow to one shape; omit for any edge.
    pub shape: Option<String>,
    /// A declared relation to walk instead of an edge: a key some type
    /// declared to hold a reference.
    pub relation: Option<String>,
    /// Which end of the edge to leave by: `out` (the default) or `in`.
    pub direction: Option<String>,
    /// How many hops; one when omitted.
    pub depth: Option<u32>,
    /// What the walk keeps of what it reaches.
    pub keeping: Option<Vec<KeyFilterArgs>>,
    /// Keep only what fits this type, by name.
    pub fits_type: Option<String>,
}

/// The overdue question of a `recall` — what is owed as of a date.
#[derive(Debug)]
pub struct OverdueArgs {
    /// The date the question is asked about, `YYYY-MM-DD`; today when omitted.
    pub as_of: Option<String>,
}

/// The neighbourhood question of a `recall` — what else was recorded around
/// a day.
#[derive(Debug)]
pub struct NearArgs {
    /// The day to read around, `YYYY-MM-DD`; today when omitted.
    pub day: Option<String>,
    /// How many days either side count as near; a week when omitted.
    pub within_days: Option<u32>,
    /// Which clock to compare: `true_of` (the default) or `taken_in`.
    pub clock: Option<String>,
}

/// Arguments to `recall`.
#[derive(Debug)]
pub struct RecallArgs {
    /// One entity, as `kind:slug` (a bare handle is read as a person).
    pub subject: Option<String>,
    /// Every entity of one kind.
    pub kind: Option<String>,
    /// Objects that answer this type, by name.
    pub answers_type: Option<String>,
    /// Which objects, by a key and the value it holds.
    pub fields: Option<Vec<KeyFilterArgs>>,
    /// Whether each object's records come back.
    pub facts: Option<bool>,
    /// Whether each object's prose comes back.
    pub prose: Option<bool>,
    /// A bot's charter, whole.
    pub charter: Option<bool>,
    /// The writes behind one key, oldest first.
    pub history: Option<String>,
    /// How many of that key's writes come back; twenty when omitted.
    pub history_most: Option<u32>,
    /// Where each folded value came from, and who backs it.
    pub backing: Option<bool>,
    /// The claims worked out from one claim, by its address.
    pub built_on: Option<String>,
    /// The values already recorded under one key.
    pub values: Option<String>,
    /// How many values come back; twenty when omitted.
    pub values_most: Option<u32>,
    /// Keep only what is owed as of a date.
    pub overdue: Option<OverdueArgs>,
    /// What else was recorded around a day.
    pub near: Option<NearArgs>,
    /// Which edges to walk.
    pub follow: Option<FollowArgs>,
    /// A question asked by name: a view's handle, or its bare slug.
    pub view: Option<String>,
    /// The caller's session id.
    pub sid: Option<String>,
}

/// **How far either side counts as near when a caller says nothing.** A week.
pub const NEAR_WINDOW: u32 = 7;

/// **How many writes, or values, an answer shows when a caller says
/// nothing**: the newest, or the most used, twenty.
pub const WRITES_SHOWN: usize = 20;

/// A key filter, typed.
#[derive(Debug)]
pub struct FieldFilter {
    pub key: Option<String>,
    pub value: Option<String>,
    pub compare: Compare,
    pub scope: Scope,
}

impl View for FieldFilter {
    type V = (Option<Seq<char>>, Option<Seq<char>>, Compare, Scope);

    open spec fn view(&self) -> Self::V {
        (opt_text(self.key), opt_text(self.value), self.compare, self.scope)
    }
}

/// An optional text, trimmed.
pub open spec fn trimmed_opt(s: Option<String>) -> Option<Seq<char>> {
    match s {
        Some(t) => Some(trim(t@)),
        None => None,
    }
}

/// What one key filter says: its key and value trimmed, its comparison and
/// its scope — or the refusal of the first of those two that names nothing.
pub open spec fn filter_of(f: KeyFilterArgs) -> Result<(Option<Seq<char>>, Option<Seq<char>>, Compare, Scope), Seq<char>> {
    match compare_of(given_text(opt_text(f.compare))) {
        Err(m) => Err(m),
        Ok(c) => match scope_of(given_text(opt_text(f.scope))) {
            Err(m) => Err(m),
            Ok(s) => Ok((trimmed_opt(f.key), trimmed_opt(f.value), c, s)),
        },
    }
}

/// What a list of key filters says, in order, or the refusal of the first
/// one that is malformed.
pub open spec fn filters_of(fs: Seq<KeyFilterArgs>) -> Result<Seq<(Option<Seq<char>>, Option<Seq<char>>, Compare, Scope)>, Seq<char>>
    decreases fs.len(),
{
    if fs.len() == 0 {
        Ok(Seq::empty())
    } else {
        match filters_of(fs.drop_last()) {
            Err(m) => Err(m),
            Ok(before) => match filter_of(fs.last()) {
                Err(m) => Err(m),
                Ok(v) => Ok(before.push(v)),
            },
        }
    }
}

/// The filters, as values.
pub open spec fn filters_view(fs: Seq<FieldFilter>) -> Seq<(Option<Seq<char>>, Option<Seq<char>>, Compare, Scope)> {
    fs.map_values(|f: FieldFilter| f@)
}

/// A refusal in a prefix of the filters is the refusal of them all.
proof fn lemma_filters_refused(fs: Seq<KeyFilterArgs>, k: int, m: Seq<char>)
    requires
        0 <= k <= fs.len(),
        filters_of(fs.take(k)) == Err::<Seq<(Option<Seq<char>>, Option<Seq<char>>, Compare, Scope)>, Seq<char>>(m),
    ensures
        filters_of(fs) == Err::<Seq<(Option<Seq<char>>, Option<Seq<char>>, Compare, Scope)>, Seq<char>>(m),
    decreases fs.len() - k,
{
    if k == fs.len() {
        assert(fs.take(k) =~= fs);
    } else {
        assert(fs.take(k + 1).drop_last() =~= fs.take(k));
        lemma_filters_refused(fs, k + 1, m);
    }
}

fn opt_trimmed(s: &Option<String>) -> (r: Option<String>)
    ensures
        opt_text(r) == trimmed_opt(*s),
{
    match s {
        Some(t) => Some(string_of(&trimmed_str(t.as_str()))),
        None => None,
    }
}

fn one_filter(f: &KeyFilterArgs) -> (r: Result<FieldFilter, McpError>)
    ensures
        match filter_of(*f) {
            Ok(v) => r matches Ok(got) && got@ == v,
            Err(m) => refused(r, m),
        },
{
    let compare = match &f.compare {
        Some(c) => parse_compare(Some(c.as_str())),
        None => parse_compare(None),
    };
    let compare = match compare {
        Ok(c) => c,
        Err(e) => return Err(e),
    };
    let scope = match &f.scope {
        Some(s) => parse_scope(Some(s.as_str())),
        None => parse_scope(None),
    };
    let scope = match scope {
        Ok(s) => s,
        Err(e) => return Err(e),
    };
    Ok(FieldFilter { key: opt_trimmed(&f.key), value: opt_trimmed(&f.value), compare, scope })
}

/// **The key filters of a call, wherever they sit**: a selection describes
/// the roots and a walk's describe what it reaches, and they are the same
/// filter. The first malformed one refuses the call.
pub fn key_filters(args: &[KeyFilterArgs]) -> (r: Result<Vec<FieldFilter>, McpError>)
    ensures
        match filters_of(args@) {
            Ok(v) => r matches Ok(out) && filters_view(out@) == v,
            Err(m) => refused(r, m),
        },
{
    let mut out: Vec<FieldFilter> = Vec::new();
    let mut i: usize = 0;
    assert(args@.take(0) =~= Seq::<KeyFilterArgs>::empty());
    assert(filters_view(out@) =~= Seq::empty());
    while i < args.len()
        invariant
            i <= args.len(),
            filters_of(args@.take(i as int)) == Ok::<Seq<(Option<Seq<char>>, Option<Seq<char>>, Compare, Scope)>, Seq<char>>(filters_view(out@)),
        decreases args.len() - i,
    {
        proof {
            assert(args@.take(i + 1).drop_last() =~= args@.take(i as int));
            assert(args@.take(i + 1).last() == args@[i as int]);
        }
        match one_filter(&args[i]) {
            Ok(f) => {
                proof {
                    assert(filters_view(out@.push(f)) =~= filters_view(out@).push(f@));
                }
                out.push(f);
            },
            Err(e) => {
                proof {
                    let m = e.message@;
                    lemma_filters_refused(args@, i + 1, m);
                }
                return Err(e);
            },
        }
        i = i + 1;
    }
    assert(args@.take(args.len() as int) =~= args@);
    Ok(out)
}

/// What a walk travels along: a declared relation, one edge shape, or any
/// edge at all.
#[derive(Debug)]
pub enum Along {
    Relation(String),
    Edge(EdgeShape),
    AnyEdge,
}

/// A walk, typed.
#[derive(Debug)]
pub struct Follow {
    pub along: Along,
    /// Kept unset when the caller named no direction: a relation already says
    /// which way it goes, and "unset" and "out" must still tell apart.
    pub direction: Option<Direction>,
    pub depth: usize,
    pub keeping: Vec<FieldFilter>,
    pub fits_type: Option<DeclaredType>,
}

/// The refusal of a walk that names both an edge shape and a relation.
pub open spec fn both_links_msg() -> Seq<char> {
    "follow a shape or a relation, not both: a shape is one of the five names for a link nobody typed, and a relation is a key some type declared to hold a reference"@
}

/// The filters a walk keeps by: none when it names none.
pub open spec fn keeping_of(f: FollowArgs) -> Seq<KeyFilterArgs> {
    match f.keeping {
        Some(k) => k@,
        None => Seq::empty(),
    }
}

/// The direction a walk names, when it names one; blank is `out`.
pub open spec fn direction_named(f: FollowArgs) -> Option<Result<Direction, Seq<char>>> {
    match f.direction {
        Some(d) => Some(direction_of(given_text(Some(d@)))),
        None => None,
    }
}

/// The first malformed argument of a walk, in the order they are read: the
/// shape (when no relation is named), the direction, the filters it keeps by.
pub open spec fn follow_fault(f: FollowArgs) -> Option<Seq<char>> {
    let shape_fault = match f.relation {
        Some(_) => None,
        None => match f.shape {
            Some(s) => if shape_of(s@) is None {
                Some(shape_refusal_msg(s@))
            } else {
                None
            },
            None => None,
        },
    };
    let direction_fault = match direction_named(f) {
        Some(Err(m)) => Some(m),
        _ => None,
    };
    let keeping_fault = match filters_of(keeping_of(f)) {
        Err(m) => Some(m),
        Ok(_) => None,
    };
    if shape_fault is Some {
        shape_fault
    } else if direction_fault is Some {
        direction_fault
    } else {
        keeping_fault
    }
}

/// Whether `w` is the walk the arguments mean.
pub open spec fn follows(w: Follow, f: FollowArgs, fits_type: Option<DeclaredType>) -> bool {
    &&& match f.relation {
        Some(r) => w.along matches Along::Relation(t) && t@ == trim(r@),
        None => match f.shape {
            Some(s) => shape_of(s@) matches Some(sh) && w.along == Along::Edge(sh),
            None => w.along is AnyEdge,
        },
    }
    &&& w.direction == match direction_named(f) {
        Some(Ok(d)) => Some(d),
        _ => None::<Direction>,
    }
    &&& w.depth == match f.depth {
        Some(d) => d as usize,
        None => 1usize,
    }
    &&& filters_of(keeping_of(f)) == Ok::<Seq<(Option<Seq<char>>, Option<Seq<char>>, Compare, Scope)>, Seq<char>>(filters_view(w.keeping@))
    &&& w.fits_type == fits_type
}

/// Whether `r` is the refusal of a walk that names both kinds of link.
pub open spec fn declined_both<T>(r: Result<Result<T, MemoryError>, McpError>) -> bool {
    r matches Ok(Err(MemoryError::InvalidQuery(d))) && d@ == both_links_msg()
}

/// **The walk a call asks for.** Two link vocabularies, and a call names one
/// of them: a call carrying both a shape and a relation is declined rather
/// than one of them being picked. Otherwise every argument in its typed form,
/// or the refusal of the first that is malformed.
pub fn follow_plan(f: &FollowArgs, fits_type: Option<DeclaredType>) -> (r: Result<Result<Follow, MemoryError>, McpError>)
    ensures
        if f.shape is Some && f.relation is Some {
            declined_both(r)
        } else {
            match follow_fault(*f) {
                Some(m) => refused(r, m),
                None => r matches Ok(Ok(w)) && follows(w, *f, fits_type),
            }
        },
{
    if f.shape.is_some() && f.relation.is_some() {
        proof {
            reveal_strlit("follow a shape or a relation, not both: a shape is one of the five names for a link nobody typed, and a relation is a key some type declared to hold a reference");
        }
        return Ok(Err(MemoryError::InvalidQuery(text("follow a shape or a relation, not both: a shape is one of the five names for a link nobody typed, and a relation is a key some type declared to hold a reference"))));
    }
    let along = match &f.relation {
        Some(relation) => Along::Relation(string_of(&trimmed_str(relation.as_str()))),
        None => match &f.shape {
            Some(shape) => match parse_shape(shape.as_str()) {
                Ok(sh) => Along::Edge(sh),
                Err(e) => return Err(e),
            },
            None => Along::AnyEdge,
        },
    };
    let direction = match &f.direction {
        Some(d) => match parse_direction(Some(d.as_str())) {
            Ok(d) => Some(d),
            Err(e) => return Err(e),
        },
        None => None,
    };
    let depth: usize = match f.depth {
        Some(d) => d as usize,
        None => 1,
    };
    let keeping = match &f.keeping {
        Some(k) => key_filters(k.as_slice()),
        None => {
            let none: Vec<KeyFilterArgs> = Vec::new();
            proof {
                assert(none@ =~= keeping_of(*f));
            }
            key_filters(none.as_slice())
        },
    };
    let keeping = match keeping {
        Ok(k) => k,
        Err(e) => return Err(e),
    };
    Ok(Ok(Follow { along, direction, depth, keeping, fits_type }))
}

/// What a call's `overdue` question says of its day: absent when no question
/// was asked, and within it a day, nothing (today), or the refusal.
pub open spec fn overdue_said(args: RecallArgs) -> Option<Result<Option<Day>, Seq<char>>> {
    match args.overdue {
        Some(o) => Some(date_of(given_text(opt_text(o.as_of)))),
        None => None,
    }
}

/// The first malformed argument among those read before a view fills the
/// call in: the walk's, then the overdue question's day.
pub open spec fn opening_fault(args: RecallArgs) -> Option<Seq<char>> {
    let walk_fault = match args.follow {
        Some(f) => follow_fault(f),
        None => None,
    };
    if walk_fault is Some {
        walk_fault
    } else {
        match overdue_said(args) {
            Some(Err(m)) => Some(m),
            _ => None,
        }
    }
}

/// Whether a call's walk names both kinds of link.
pub open spec fn names_both_links(args: RecallArgs) -> bool {
    args.follow matches Some(f) && f.shape is Some && f.relation is Some
}

/// **What a call settles before a view fills it in**: the walk, and the day
/// an overdue question is asked about — `Some(None)` when it asked about
/// today, which only the edge can read.
#[derive(Debug)]
pub struct Opening {
    pub follow: Option<Follow>,
    pub as_of: Option<Option<Day>>,
}

/// **The half of a `recall` read off the caller's own arguments**, before any
/// view fills the call in: the walk, declined when it names both kinds of
/// link, and the overdue question's day. `fits_type` is the walk's type
/// already resolved to its declaration.
pub fn recall_opening(args: &RecallArgs, fits_type: Option<DeclaredType>) -> (r: Result<Result<Opening, MemoryError>, McpError>)
    ensures
        if names_both_links(*args) {
            declined_both(r)
        } else {
            match opening_fault(*args) {
                Some(m) => refused(r, m),
                None => r matches Ok(Ok(o)) && o.as_of == match overdue_said(*args) {
                    Some(Ok(d)) => Some(d),
                    _ => None::<Option<Day>>,
                } && match args.follow {
                    Some(f) => o.follow matches Some(w) && follows(w, f, fits_type),
                    None => o.follow is None,
                },
            }
        },
{
    let follow = match &args.follow {
        None => None,
        Some(f) => match follow_plan(f, fits_type) {
            Ok(Ok(w)) => Some(w),
            Ok(Err(declined)) => return Ok(Err(declined)),
            Err(e) => return Err(e),
        },
    };
    let as_of = match &args.overdue {
        None => None,
        Some(o) => {
            let day = match &o.as_of {
                Some(d) => parse_date(Some(d.as_str())),
                None => parse_date(None),
            };
            match day {
                Ok(d) => Some(d),
                Err(e) => return Err(e),
            }
        },
    };
    Ok(Ok(Opening { follow, as_of }))
}

/// The handle a view is asked for by: a `view:` handle as given, or a bare
/// slug made one, trimmed either way.
pub open spec fn view_handle_of(named: Seq<char>) -> Seq<char> {
    let t = trim(named);
    match split_once(t, ':') {
        Some((k, _)) => if k == "view"@ {
            t
        } else {
            "view:"@ + t
        },
        None => "view:"@ + t,
    }
}

/// **The record a view name addresses**: its handle, or its bare slug.
pub fn view_handle(named: &str) -> (id: EntityId)
    ensures
        id@ == view_handle_of(named@),
{
    let t = trimmed_str(named);
    let is_view = match split_at_char(&t, ':') {
        Some((k, _)) => crate::text::spells(&k, "view"),
        None => false,
    };
    if is_view {
        EntityId(string_of(&t))
    } else {
        let mut h = text("view:");
        push_chars(&mut h, &t);
        EntityId(h)
    }
}

/// Whether `what` is one of the comma-separated parts of `s`, each trimmed.
pub open spec fn listed(s: Seq<char>, what: Seq<char>) -> bool
    decreases s.len(),
{
    match split_once(s, ',') {
        Some((head, rest)) => {
            proof {
                lemma_first_index(s, ',');
            }
            trim(head) == what || listed(rest, what)
        },
        None => trim(s) == what,
    }
}

fn listed_in(v: &[char], what: &str) -> (b: bool)
    ensures
        b == listed(v@, what@),
    decreases v@.len(),
{
    match split_at_char(v, ',') {
        Some((head, rest)) => {
            proof {
                lemma_first_index(v@, ',');
            }
            let h = trimmed(&head);
            let w = chars_of(what);
            if same_chars(&h, &w) {
                true
            } else {
                listed_in(&rest, what)
            }
        },
        None => {
            let h = trimmed(v);
            let w = chars_of(what);
            same_chars(&h, &w)
        },
    }
}

/// Whether a view's `shows` key lists `what`.
pub open spec fn shows_of(held: Seq<(String, String)>, what: Seq<char>) -> bool {
    match value_under(held, "shows"@) {
        Some(s) => listed(s, what),
        None => false,
    }
}

/// A flag the caller set, or what the view shows.
pub open spec fn shown(given: Option<bool>, held: Seq<(String, String)>, what: Seq<char>) -> Option<bool> {
    match given {
        Some(b) => Some(b),
        None => if shows_of(held, what) {
            Some(true)
        } else {
            None
        },
    }
}

fn shows(held: &Vec<(String, String)>, what: &str) -> (b: bool)
    ensures
        b == shows_of(held@, what@),
{
    proof {
        reveal_strlit("shows");
    }
    match value_at(held, "shows") {
        Some(s) => {
            let v = chars_of(s.as_str());
            listed_in(&v, what)
        },
        None => false,
    }
}

/// Whether `filled` is the call `args` once the view whose fields are `held`
/// has filled it in: what the view selects, what it shows and whether it asks
/// the overdue question, each only where the caller left it off, and every
/// other argument as the caller sent it.
pub open spec fn view_filled(filled: RecallArgs, args: RecallArgs, held: Seq<(String, String)>) -> bool {
    &&& opt_text(filled.kind) == match args.kind {
        Some(k) => Some(k@),
        None => value_under(held, "selects"@),
    }
    &&& filled.facts == shown(args.facts, held, "facts"@)
    &&& filled.prose == shown(args.prose, held, "prose"@)
    &&& filled.charter == shown(args.charter, held, "charter"@)
    &&& filled.overdue == match args.overdue {
        Some(o) => Some(o),
        None => if value_under(held, "asks"@) == Some("overdue"@) {
            Some(OverdueArgs { as_of: None })
        } else {
            None
        },
    }
    &&& filled.subject == args.subject
    &&& filled.answers_type == args.answers_type
    &&& filled.fields == args.fields
    &&& filled.history == args.history
    &&& filled.history_most == args.history_most
    &&& filled.backing == args.backing
    &&& filled.built_on == args.built_on
    &&& filled.values == args.values
    &&& filled.values_most == args.values_most
    &&& filled.near == args.near
    &&& filled.follow == args.follow
    &&& filled.view == args.view
    &&& filled.sid == args.sid
}

/// **A view fills the call in before anything reads it**: what it selects,
/// what it shows, whether it asks the overdue question — and **the caller's
/// own arguments win**, so a view is a starting point rather than a cage.
/// `held` is the view record's fields.
pub fn filled_by_view(args: RecallArgs, held: &Vec<(String, String)>) -> (filled: RecallArgs)
    ensures
        view_filled(filled, args, held@),
{
    proof {
        reveal_strlit("selects");
        reveal_strlit("asks");
        reveal_strlit("overdue");
    }
    let RecallArgs {
        subject, kind, answers_type, fields, facts, prose, charter, history, history_most, backing,
        built_on, values, values_most, overdue, near, follow, view, sid,
    } = args;
    let kind = match kind {
        Some(k) => Some(k),
        None => match value_at(held, "selects") {
            Some(v) => Some(v.clone()),
            None => None,
        },
    };
    let facts = match facts {
        Some(b) => Some(b),
        None => if shows(held, "facts") {
            Some(true)
        } else {
            None
        },
    };
    let prose = match prose {
        Some(b) => Some(b),
        None => if shows(held, "prose") {
            Some(true)
        } else {
            None
        },
    };
    let charter = match charter {
        Some(b) => Some(b),
        None => if shows(held, "charter") {
            Some(true)
        } else {
            None
        },
    };
    let overdue = match overdue {
        Some(o) => Some(o),
        None => {
            let asks_overdue = match value_at(held, "asks") {
                Some(a) => crate::text::same_text(a.as_str(), "overdue"),
                None => false,
            };
            if asks_overdue {
                Some(OverdueArgs { as_of: None })
            } else {
                None
            }
        },
    };
    RecallArgs {
        subject, kind, answers_type, fields, facts, prose, charter, history, history_most, backing,
        built_on, values, values_most, overdue, near, follow, view, sid,
    }
}

/// The refusal of a name that is no view.
pub open spec fn no_view_msg(handle: Seq<char>, names: Seq<char>) -> Seq<char> {
    if names.len() == 0 {
        "Nothing was read: no view is named '"@ + handle + "', and there are no views here yet. Declare one with add_entity of kind view."@
    } else {
        "Nothing was read: no view is named '"@ + handle + "'. The views here are: "@ + names + ". Ask for one of those, or declare your own with add_entity of kind view."@
    }
}

/// **No view under that name.** Every view there is, named in the sentence
/// rather than as candidates: none of them was flagged as a near miss, they
/// are simply what there is.
pub fn no_view(handle: &EntityId, known: &Vec<String>) -> (b: BlockedAnswer)
    ensures
        b.wf(),
        b@ == (handle@, Seq::<<EntityMatch as View>::V>::empty(), no_view_msg(handle@, join(crate::declined::texts(known@), ", "@))),
{
    proof {
        reveal_strlit("Nothing was read: no view is named '");
    }
    let names = join_strings(known, ", ");
    let mut m = text("Nothing was read: no view is named '");
    push_str(&mut m, handle.0.as_str());
    if chars_of(names.as_str()).len() == 0 {
        push_str(&mut m, "', and there are no views here yet. Declare one with add_entity of kind view.");
    } else {
        push_str(&mut m, "'. The views here are: ");
        push_str(&mut m, names.as_str());
        push_str(&mut m, ". Ask for one of those, or declare your own with add_entity of kind view.");
    }
    proof {
        assert(crate::declined::texts(known@) =~= known@.map_values(|t: String| t@));
        matches_view_empty();
    }
    blocked_body(handle, Vec::new(), m)
}

proof fn matches_view_empty()
    ensures
        crate::declined::matches_view(Seq::<EntityMatch>::empty()) =~= Seq::<<EntityMatch as View>::V>::empty(),
{
}

/// A neighbourhood read: the day (`None` is today, which only the edge can
/// read), how many days either side, and which clock.
#[derive(Debug, Clone, Copy, PartialEq, Eq)]
pub struct Nearness {
    pub day: Option<Day>,
    pub within_days: u32,
    pub clock: Clock,
}

/// The writes behind one key, and how many of them come back.
#[derive(Debug)]
pub struct History {
    pub key: String,
    pub most: usize,
}

/// **A `recall`, typed**: which objects, what of each, which edges, and the
/// questions that ride beside them.
#[derive(Debug)]
pub struct RecallQuery {
    pub subject: Option<EntityId>,
    pub kind: Option<EntityKind>,
    pub answers_type: Option<DeclaredType>,
    pub fields: Vec<FieldFilter>,
    pub near: Option<Nearness>,
    pub asked_by: Option<EntityId>,
    /// Whether the records come back.
    pub facts: bool,
    /// Whether the page is read: asked for, or a charter asked for.
    pub prose: bool,
    /// Whether the caller asked for the page under its own name.
    pub asked_prose: bool,
    /// Whether a bot's charter is shipped.
    pub charter: bool,
    pub follow: Option<Follow>,
    pub history: Option<History>,
    /// The overdue question's day: `Some(None)` asks about today.
    pub as_of: Option<Option<Day>>,
    /// The key whose values in use come back, as the caller spelled it.
    pub values: Option<String>,
    pub values_most: usize,
    pub backing: bool,
    /// The address whose lineage comes back, as the caller sent it.
    pub built_on: Option<String>,
}

/// What a call's `near` question says: absent, or its day, window and clock,
/// or the refusal of the first of the day and the clock that is malformed.
pub open spec fn near_said(args: RecallArgs) -> Option<Result<Nearness, Seq<char>>> {
    match args.near {
        Some(n) => Some(
            match date_of(given_text(opt_text(n.day))) {
                Err(m) => Err(m),
                Ok(d) => match clock_of(opt_text(n.clock)) {
                    Err(m) => Err(m),
                    Ok(c) => Ok(
                        Nearness {
                            day: d,
                            within_days: match n.within_days {
                                Some(w) => w,
                                None => NEAR_WINDOW,
                            },
                            clock: c,
                        },
                    ),
                },
            },
        ),
        None => None,
    }
}

/// What a call's `kind` says against the kinds held: the kind, or the refusal.
pub open spec fn kind_said(args: RecallArgs, kinds: Seq<Seq<char>>) -> Option<Result<Seq<char>, Seq<char>>> {
    match args.kind {
        Some(k) => Some(
            match resolve_kind(kinds, trim(k@)) {
                Ok(t) => Ok(t),
                Err(why) => Err(crate::parse::kind_refusal_msg(k@, why)),
            },
        ),
        None => None,
    }
}

/// The selection's key filters: none when the call names none.
pub open spec fn fields_of(args: RecallArgs) -> Seq<KeyFilterArgs> {
    match args.fields {
        Some(f) => f@,
        None => Seq::empty(),
    }
}

/// The first malformed argument among those read after a view filled the
/// call in: the near question's day and clock, the kind, the key filters.
pub open spec fn recall_fault(args: RecallArgs, kinds: Seq<Seq<char>>) -> Option<Seq<char>> {
    let near_fault = match near_said(args) {
        Some(Err(m)) => Some(m),
        _ => None,
    };
    let kind_fault = match kind_said(args, kinds) {
        Some(Err(m)) => Some(m),
        _ => None,
    };
    let fields_fault = match filters_of(fields_of(args)) {
        Err(m) => Some(m),
        Ok(_) => None,
    };
    if near_fault is Some {
        near_fault
    } else if kind_fault is Some {
        kind_fault
    } else {
        fields_fault
    }
}

/// A count a caller may name, or the window every answer shows.
pub open spec fn most_or_window(most: Option<u32>) -> usize {
    match most {
        Some(m) => m as usize,
        None => WRITES_SHOWN,
    }
}

/// Whether `q` is the query the arguments mean, on top of what was settled
/// before a view filled them in, with the type and the asker as resolved.
pub open spec fn recalled(
    q: RecallQuery,
    args: RecallArgs,
    opening: Opening,
    answers_type: Option<DeclaredType>,
    asked_by: Option<EntityId>,
    kinds: Seq<Seq<char>>,
) -> bool {
    &&& q.follow == opening.follow
    &&& q.as_of == opening.as_of
    &&& q.answers_type == answers_type
    &&& q.asked_by == asked_by
    &&& match args.subject {
        Some(s) => q.subject matches Some(id) && id@ == person_handle(s@),
        None => q.subject is None,
    }
    &&& match kind_said(args, kinds) {
        Some(Ok(t)) => q.kind matches Some(k) && k@ == t,
        _ => q.kind is None,
    }
    &&& filters_of(fields_of(args)) == Ok::<Seq<(Option<Seq<char>>, Option<Seq<char>>, Compare, Scope)>, Seq<char>>(filters_view(q.fields@))
    &&& match near_said(args) {
        Some(Ok(n)) => q.near == Some(n),
        _ => q.near is None,
    }
    &&& q.facts == (args.facts == Some(true))
    &&& q.charter == (args.charter == Some(true))
    &&& q.asked_prose == (args.prose == Some(true))
    &&& q.prose == (q.asked_prose || q.charter)
    &&& match args.history {
        Some(h) => q.history matches Some(w) && w.key@ == trim(h@) && w.most == most_or_window(args.history_most),
        None => q.history is None,
    }
    &&& q.values == args.values
    &&& q.values_most == most_or_window(args.values_most)
    &&& q.backing == (args.backing == Some(true))
    &&& q.built_on == args.built_on
}

fn most_or_shown(most: Option<u32>) -> (n: usize)
    ensures
        n == most_or_window(most),
{
    match most {
        Some(m) => m as usize,
        None => WRITES_SHOWN,
    }
}

fn flag(b: Option<bool>) -> (r: bool)
    ensures
        r == (b == Some(true)),
{
    match b {
        Some(v) => v,
        None => false,
    }
}

/// **Every argument of a `recall`, once a view has filled it in, as the
/// query it means.** A charter IS the page, so asking for one reads the page
/// whether or not the caller wanted it under that name; a token no closed set
/// holds refuses the call before any query exists.
pub fn recall_query(
    args: RecallArgs,
    opening: Opening,
    kinds: &Kinds,
    answers_type: Option<DeclaredType>,
    asked_by: Option<EntityId>,
) -> (r: Result<RecallQuery, McpError>)
    ensures
        match recall_fault(args, kinds@) {
            Some(m) => refused(r, m),
            None => r matches Ok(q) && recalled(q, args, opening, answers_type, asked_by, kinds@),
        },
{
    let near = match &args.near {
        None => None,
        Some(n) => {
            let day = match &n.day {
                Some(d) => parse_date(Some(d.as_str())),
                None => parse_date(None),
            };
            let day = match day {
                Ok(d) => d,
                Err(e) => return Err(e),
            };
            let clock = match &n.clock {
                Some(c) => parse_clock(Some(c.as_str())),
                None => parse_clock(None),
            };
            let clock = match clock {
                Ok(c) => c,
                Err(e) => return Err(e),
            };
            let within_days = match n.within_days {
                Some(w) => w,
                None => NEAR_WINDOW,
            };
            Some(Nearness { day, within_days, clock })
        },
    };
    let kind = match &args.kind {
        None => None,
        Some(k) => match parse_kind(kinds, k.as_str()) {
            Ok(k) => Some(k),
            Err(e) => return Err(e),
        },
    };
    let fields = match &args.fields {
        Some(f) => key_filters(f.as_slice()),
        None => {
            let none: Vec<KeyFilterArgs> = Vec::new();
            proof {
                assert(none@ =~= fields_of(args));
            }
            key_filters(none.as_slice())
        },
    };
    let fields = match fields {
        Ok(f) => f,
        Err(e) => return Err(e),
    };
    let subject = match &args.subject {
        Some(s) => Some(EntityId::person(s.as_str())),
        None => None,
    };
    let history = match &args.history {
        Some(h) => Some(History { key: string_of(&trimmed_str(h.as_str())), most: most_or_shown(args.history_most) }),
        None => None,
    };
    let charter = flag(args.charter);
    let asked_prose = flag(args.prose);
    let Opening { follow, as_of } = opening;
    let RecallArgs { values, values_most, backing, built_on, facts, .. } = args;
    Ok(RecallQuery {
        subject,
        kind,
        answers_type,
        fields,
        near,
        asked_by,
        facts: flag(facts),
        prose: asked_prose || charter,
        asked_prose,
        charter,
        follow,
        history,
        as_of,
        values,
        values_most: most_or_shown(values_most),
        backing: flag(backing),
        built_on,
    })
}

/// **Read a view and fill the call it was named in.** `read` is what the
/// store holds under the view's handle — nothing when the read failed — and
/// `known` names every view there is. A view with fields fills the call, the
/// caller's own arguments winning; a read that failed or found nothing is no
/// view, answered with the views that exist.
pub fn asked_by_name(
    handle: &EntityId,
    args: RecallArgs,
    read: Option<Vec<(String, String)>>,
    known: &Vec<String>,
) -> (r: Result<RecallArgs, BlockedAnswer>)
    ensures
        match read {
            Some(held) => if held@.len() > 0 {
                r matches Ok(filled) && view_filled(filled, args, held@)
            } else {
                r matches Err(b) && b.wf() && b@ == (
                    handle@,
                    Seq::<<EntityMatch as View>::V>::empty(),
                    no_view_msg(handle@, join(crate::declined::texts(known@), ", "@)),
                )
            },
            None => r matches Err(b) && b.wf() && b@ == (
                handle@,
                Seq::<<EntityMatch as View>::V>::empty(),
                no_view_msg(handle@, join(crate::declined::texts(known@), ", "@)),
            ),
        },
{
    match read {
        Some(held) => {
            if held.len() > 0 {
                Ok(filled_by_view(args, &held))
            } else {
                Err(no_view(handle, known))
            }
        },
        None => Err(no_view(handle, known)),
    }
}

} // verus!
