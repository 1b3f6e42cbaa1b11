//! **What a `recall` answer says of itself.** Eliding is never silent: every
//! part of an answer that was cut, left out or not asked for says so, and
//! says the way to the rest. What is here decides each of those sentences;
//! laying the answer out is the edge's.

use vstd::prelude::*;
use crate::text::{decimal, decimal_text, push_str, trim, trimmed_str, string_of};

verus! {

/// The note on a key nobody holds yet.
pub open spec fn nothing_in_use_note() -> Seq<char> {
    "nothing here holds that key yet, which is an answer rather than a refusal: write the value you meant and it becomes the first one in use"@
}

/// The note on a values list that was cut.
pub open spec fn more_in_use_note() -> Seq<char> {
    "the most used are here and the rest are not: raise values_most to reach them"@
}

/// **How much of a key's values in use an answer carries**: how many it
/// shows, how many it left out, and the note, when there is one.
#[derive(Debug, Clone, Copy, PartialEq, Eq)]
pub struct ValuesWindow {
    pub shown: usize,
    pub left_out: usize,
    pub note: Option<&'static str>,
}

/// The window over `distinct` values, showing at most `most`.
pub open spec fn values_window_of(distinct: nat, most: nat) -> (nat, nat, Option<Seq<char>>) {
    let shown = if distinct < most {
        distinct
    } else {
        most
    };
    let left_out = (distinct - shown) as nat;
    (
        shown,
        left_out,
        if distinct == 0 {
            Some(nothing_in_use_note())
        } else if left_out > 0 {
            Some(more_in_use_note())
        } else {
            None
        },
    )
}

/// **The values one key already holds, cut to the most used `most`.** The
/// answer always says how many exist and how many it left out, so a caller
/// who has to reach the far end knows there is one and which argument gets
/// there; a key nobody holds is an answer rather than a refusal.
pub fn values_window(distinct: usize, most: usize) -> (w: ValuesWindow)
    ensures
        (w.shown as nat, w.left_out as nat, match w.note {
            Some(n) => Some(n@),
            None => None,
        }) == values_window_of(distinct as nat, most as nat),
{
    let shown = if distinct < most {
        distinct
    } else {
        most
    };
    let left_out = distinct - shown;
    let note = if distinct == 0 {
        Some("nothing here holds that key yet, which is an answer rather than a refusal: write the value you meant and it becomes the first one in use")
    } else if left_out > 0 {
        Some("the most used are here and the rest are not: raise values_most to reach them")
    } else {
        None
    };
    ValuesWindow { shown, left_out, note }
}

/// **One key's values as an answer carries them**: the key as trimmed,
/// how many values are in use, the most used of them up to the window, how
/// many were left out, and the note, when there is one.
#[derive(Debug, Clone, PartialEq, Eq)]
pub struct ValuesShown {
    pub key: String,
    pub distinct: usize,
    pub left_out: usize,
    pub in_use: Vec<(String, usize)>,
    pub note: Option<&'static str>,
}

/// **The values in use under `key`, most used first, cut to `most`.** The
/// list keeps its order and is cut at the window `values_window` gives; the
/// count of what exists is always carried beside it.
pub fn values_shown(key: &str, in_use: &[(String, usize)], most: usize) -> (v: ValuesShown)
    ensures
        v.key@ == trim(key@),
        v.distinct == in_use.len(),
        ({
            let w = values_window_of(in_use.len() as nat, most as nat);
            &&& v.in_use@ == in_use@.take(w.0 as int)
            &&& v.left_out as nat == w.1
            &&& match v.note {
                Some(n) => w.2 == Some(n@),
                None => w.2 is None,
            }
        }),
{
    let w = values_window(in_use.len(), most);
    let mut shown: Vec<(String, usize)> = Vec::new();
    let mut i: usize = 0;
    while i < w.shown
        invariant
            w.shown <= in_use.len(),
            i <= w.shown,
            shown@ == in_use@.take(i as int),
        decreases w.shown - i,
    {
        let entry = (in_use[i].0.clone(), in_use[i].1);
        shown.push(entry);
        proof {
            assert(in_use@.take(i + 1) =~= in_use@.take(i as int).push(in_use@[i as int]));
        }
        i = i + 1;
    }
    ValuesShown {
        key: string_of(&trimmed_str(key)),
        distinct: in_use.len(),
        left_out: w.left_out,
        in_use: shown,
        note: w.note,
    }
}

/// The note on a history that was cut.
pub open spec fn older_writes_msg(elided: nat) -> Seq<char> {
    decimal(elided) + " older writes are not here — ask again with a bigger history_most to reach them"@
}

/// **A cut history says so, and says the way past itself**: a window that
/// quietly dropped the older writes would read as a complete history.
pub fn older_writes_note(elided: usize) -> (n: Option<String>)
    ensures
        match n {
            Some(s) => elided > 0 && s@ == older_writes_msg(elided as nat),
            None => elided == 0,
        },
{
    if elided == 0 {
        None
    } else {
        let mut s = decimal_text(elided);
        push_str(&mut s, " older writes are not here — ask again with a bigger history_most to reach them");
        Some(s)
    }
}

/// The note on records left out of an object.
pub open spec fn records_left_out_msg(held: nat) -> Seq<char> {
    decimal(held) + " records are behind these fields and are not here — ask again with facts: true to read them, each with the address that edits it"@
}

/// **An object's records, when the caller did not ask for them**: the
/// fields say what the thing holds, and the note says how many records stand
/// behind them — an object carrying no records and one whose records were not
/// asked for must not read alike.
pub fn records_left_out(include_facts: bool, facts_held: usize) -> (n: Option<String>)
    ensures
        match n {
            Some(s) => !include_facts && facts_held > 0 && s@ == records_left_out_msg(facts_held as nat),
            None => include_facts || facts_held == 0,
        },
{
    if include_facts || facts_held == 0 {
        None
    } else {
        let mut s = decimal_text(facts_held);
        push_str(&mut s, " records are behind these fields and are not here — ask again with facts: true to read them, each with the address that edits it");
        Some(s)
    }
}

/// The note on an object the walk did not follow past.
pub open spec fn unwalked_msg() -> Seq<char> {
    "this object draws edges the walk did not follow — recall it by handle, or ask again with a deeper follow"@
}

/// **An empty `connected` is two different answers**: the walk stopped
/// here, or there is nothing there. This one says which.
pub fn unwalked_note(unwalked: bool) -> (n: Option<&'static str>)
    ensures
        match n {
            Some(s) => unwalked && s@ == unwalked_msg(),
            None => !unwalked,
        },
{
    if unwalked {
        Some("this object draws edges the walk did not follow — recall it by handle, or ask again with a deeper follow")
    } else {
        None
    }
}

/// The marker on a link every claim behind which was taken back.
pub open spec fn retracted_link_msg() -> Seq<char> {
    "every claim drawing this link was taken back — the link is here so it can be told from one nobody ever drew, and it is not something to act on"@
}

/// **A link nobody stands behind is marked, never dropped**: hiding it would
/// make a claim somebody took back and a claim nobody ever made the same
/// answer.
pub fn retracted_link_note(retracted: bool) -> (n: Option<&'static str>)
    ensures
        match n {
            Some(s) => retracted && s@ == retracted_link_msg(),
            None => !retracted,
        },
{
    if retracted {
        Some("every claim drawing this link was taken back — the link is here so it can be told from one nobody ever drew, and it is not something to act on")
    } else {
        None
    }
}

/// The note on values arriving without their backing.
pub open spec fn backing_left_out_msg() -> Seq<char> {
    "who backs each of these values is not in this answer: recall again with backing: true and every key names the claim its value came from, with that claim's provenance and standing"@
}

/// **A value arriving bare must not read as one nobody stands behind**: the
/// backing is a second read, left out unless asked for, and the answer says
/// it exists — only where there are values to stand behind.
pub fn backing_left_out(backing_asked: bool, has_fields: bool) -> (n: Option<&'static str>)
    ensures
        match n {
            Some(s) => !backing_asked && has_fields && s@ == backing_left_out_msg(),
            None => backing_asked || !has_fields,
        },
{
    if !backing_asked && has_fields {
        Some("who backs each of these values is not in this answer: recall again with backing: true and every key names the claim its value came from, with that claim's provenance and standing")
    } else {
        None
    }
}

/// **What the charter half of an object carries.** Objects that are not
/// bots, and reads that asked for no charter, are left as they are; a
/// charter shipped is the page trimmed (`None` when it says nothing), and the
/// page itself stays only when it was asked for under its own name.
#[derive(Debug, PartialEq, Eq)]
pub enum CharterShown {
    Untouched,
    Shipped { charter: Option<String>, keep_prose: bool },
}

/// The charter a page reads as: the page trimmed, or nothing when that is
/// blank.
pub open spec fn charter_of(prose: Option<Seq<char>>) -> Option<Seq<char>> {
    match prose {
        Some(p) => if trim(p).len() == 0 {
            None
        } else {
            Some(trim(p))
        },
        None => None,
    }
}

/// **A charter IS the page**, so a caller who asked for the charter and not
/// the page gets the page taken back out: shipping it twice is a cost they
/// did not ask for.
pub fn charter_shown(is_bot: bool, want_charter: bool, asked_prose: bool, prose: Option<&str>) -> (c: CharterShown)
    ensures
        if !is_bot || !want_charter {
            c == CharterShown::Untouched
        } else {
            c matches CharterShown::Shipped { charter, keep_prose } && keep_prose == asked_prose && match charter {
                Some(t) => charter_of(match prose {
                    Some(p) => Some(p@),
                    None => None,
                }) == Some(t@),
                None => charter_of(match prose {
                    Some(p) => Some(p@),
                    None => None,
                }) is None,
            }
        },
{
    if !is_bot || !want_charter {
        return CharterShown::Untouched;
    }
    let charter = match prose {
        Some(p) => {
            let t = trimmed_str(p);
            if t.len() == 0 {
                None
            } else {
                Some(string_of(&t))
            }
        },
        None => None,
    };
    CharterShown::Shipped { charter, keep_prose: asked_prose }
}

/// Whether a record pointing at a thing is in force on the day asked about.
#[derive(Debug, Clone, Copy, PartialEq, Eq, Structural)]
pub enum Liveness {
    Live,
    Lapsed,
    /// Nothing admits anybody at all, and this record points at the thing
    /// through some other declared key.
    Related,
}

impl Liveness {
    pub open spec fn token(self) -> Seq<char> {
        match self {
            Liveness::Live => "live"@,
            Liveness::Lapsed => "lapsed"@,
            Liveness::Related => "related"@,
        }
    }

    /// How the answer spells it.
    pub fn as_token(self) -> (t: &'static str)
        ensures
            t@ == self.token(),
    {
        match self {
            Liveness::Live => "live",
            Liveness::Lapsed => "lapsed",
            Liveness::Related => "related",
        }
    }
}

/// Whether a held block may widen to what else points at a thing.
#[derive(Debug, Clone, Copy, PartialEq, Eq, Structural)]
pub enum Widen {
    /// This call walks links of its own, so the block never widens.
    Never,
    /// When nothing admits anybody, whatever else points here.
    WhenEmpty,
}

/// **A call that walks links of its own never widens**: what else points
/// here would arrive twice.
pub fn widen_for(walks: bool) -> (w: Widen)
    ensures
        w == if walks {
            Widen::Never
        } else {
            Widen::WhenEmpty
        },
{
    if walks {
        Widen::Never
    } else {
        Widen::WhenEmpty
    }
}

/// The note on a held block that is empty because this call walks.
pub open spec fn held_by_walk_msg() -> Seq<char> {
    "nothing here admits anybody. What else points here is not in this answer because this call walks links of its own: recall the handle on its own to see it"@
}

/// The note on a thing nothing points at.
pub open spec fn held_nothing_msg() -> Seq<char> {
    "nothing points at this, so there is nothing anybody holds for it and nothing else naming it"@
}

/// The note on a thing only related records point at.
pub open spec fn held_related_msg() -> Seq<char> {
    "nothing here admits anybody: these records name this thing through some other declared key, which is what you get when nothing gates it"@
}

/// The note on a held block cut to its budget.
pub open spec fn held_cut_msg() -> Seq<char> {
    "the rest did not fit this answer's budget: recall this handle with follow {relation: \"admits\", direction: \"in\"} for all of them"@
}

/// What a held block says of itself, given how each record stands, how it
/// may widen and how many records its budget left out.
pub open spec fn held_note_of(held: Seq<Liveness>, widen: Widen, omitted: nat) -> Option<Seq<char>> {
    if held.len() == 0 && widen == Widen::Never {
        Some(held_by_walk_msg())
    } else if held.len() == 0 {
        Some(held_nothing_msg())
    } else if forall|i: int| 0 <= i < held.len() ==> held[i] == Liveness::Related {
        Some(held_related_msg())
    } else if omitted > 0 {
        Some(held_cut_msg())
    } else {
        None
    }
}

/// **The two silences are different answers**: nothing points here at all,
/// and nothing gets anybody in though other things point here, are what a
/// reader acts on differently — and an empty block this call chose is not a
/// claim that nothing points here.
pub fn held_note(held: &Vec<Liveness>, widen: Widen, omitted: usize) -> (n: Option<&'static str>)
    ensures
        match n {
            Some(s) => held_note_of(held@, widen, omitted as nat) == Some(s@),
            None => held_note_of(held@, widen, omitted as nat) is None,
        },
{
    if held.len() == 0 && widen == Widen::Never {
        return Some("nothing here admits anybody. What else points here is not in this answer because this call walks links of its own: recall the handle on its own to see it");
    }
    if held.len() == 0 {
        return Some("nothing points at this, so there is nothing anybody holds for it and nothing else naming it");
    }
    let mut all_related = true;
    let mut i: usize = 0;
    while i < held.len()
        invariant
            i <= held.len(),
            all_related == forall|j: int| 0 <= j < i ==> held@[j] == Liveness::Related,
        decreases held.len() - i,
    {
        if held[i] != Liveness::Related {
            all_related = false;
        }
        i = i + 1;
    }
    if all_related {
        Some("nothing here admits anybody: these records name this thing through some other declared key, which is what you get when nothing gates it")
    } else if omitted > 0 {
        Some("the rest did not fit this answer's budget: recall this handle with follow {relation: \"admits\", direction: \"in\"} for all of them")
    } else {
        None
    }
}

/// How a walked object was reached: along an edge nobody typed, or along a
/// relation a declaration made.
#[derive(Debug, Clone, Copy, PartialEq, Eq, Structural)]
pub enum LinkShape {
    Edge,
    Relation,
}

/// What the layout of a walked object's link reads: which kind of link, and
/// whether every claim drawing it was taken back.
#[derive(Debug, Clone, Copy, PartialEq, Eq, Structural)]
pub struct ViaShape {
    pub link: LinkShape,
    pub retracted: bool,
}

/// **What the layout of one recalled object reads**: how many records stand
/// behind its fields, which of its optional halves are present, how the walk
/// reached it, and whether the walk stopped at it.
#[derive(Debug, Clone, Copy, PartialEq, Eq, Structural)]
pub struct ObjectShape {
    pub facts_held: usize,
    pub has_prose: bool,
    pub has_answers: bool,
    pub has_history: bool,
    pub via: Option<ViaShape>,
    pub unwalked: bool,
}

/// A key, when `present`.
pub open spec fn key_when(present: bool, key: Seq<char>) -> Seq<Seq<char>> {
    if present {
        seq![key]
    } else {
        Seq::empty()
    }
}

/// **The keys an object's layout adds beside its entity's own**, in order.
/// Absence means "not asked for" or "not there": `facts` only when asked, and
/// otherwise `records` when some are held; `prose`, `answers`, `history` and
/// `via` only when present; `fields` and `connected` always; `unwalked` only
/// when the walk stopped here.
pub open spec fn object_keys_of(o: ObjectShape, include_facts: bool) -> Seq<Seq<char>> {
    seq!["fields"@] + key_when(include_facts, "facts"@) + key_when(!include_facts && o.facts_held > 0, "records"@)
        + key_when(o.has_prose, "prose"@) + key_when(o.has_answers, "answers"@) + key_when(o.has_history, "history"@)
        + key_when(o.via is Some, "via"@) + seq!["connected"@] + key_when(o.unwalked, "unwalked"@)
}

/// The keys, as text.
pub open spec fn keys_text(k: Seq<&'static str>) -> Seq<Seq<char>> {
    k.map_values(|t: &'static str| t@)
}

fn push_key(k: &mut Vec<&'static str>, key: &'static str)
    ensures
        keys_text(final(k)@) == keys_text(old(k)@).push(key@),
{
    let ghost was = k@;
    k.push(key);
    assert(keys_text(k@) =~= keys_text(was).push(key@));
}

/// **The keys one recalled object carries beside its entity's own.**
pub fn object_keys(o: &ObjectShape, include_facts: bool) -> (k: Vec<&'static str>)
    ensures
        keys_text(k@) == object_keys_of(*o, include_facts),
{
    let mut k: Vec<&'static str> = Vec::new();
    let ghost mut want: Seq<Seq<char>> = Seq::empty();
    assert(keys_text(k@) =~= want);
    push_key(&mut k, "fields");
    proof { want = want.push("fields"@); }
    if include_facts {
        push_key(&mut k, "facts");
        proof { want = want.push("facts"@); }
    } else if o.facts_held > 0 {
        push_key(&mut k, "records");
        proof { want = want.push("records"@); }
    }
    if o.has_prose {
        push_key(&mut k, "prose");
        proof { want = want.push("prose"@); }
    }
    if o.has_answers {
        push_key(&mut k, "answers");
        proof { want = want.push("answers"@); }
    }
    if o.has_history {
        push_key(&mut k, "history");
        proof { want = want.push("history"@); }
    }
    if o.via.is_some() {
        push_key(&mut k, "via");
        proof { want = want.push("via"@); }
    }
    push_key(&mut k, "connected");
    proof { want = want.push("connected"@); }
    if o.unwalked {
        push_key(&mut k, "unwalked");
        proof { want = want.push("unwalked"@); }
    }
    assert(want =~= object_keys_of(*o, include_facts));
    k
}

/// The keys a walked object's link carries: **an edge names its shape under
/// `type` and a relation names itself under `relation`** — one key holding
/// either would leave a reader to work out which — then the direction, and
/// the taken-back marker only when it says something.
pub open spec fn link_keys_of(v: ViaShape) -> Seq<Seq<char>> {
    seq![
        match v.link {
            LinkShape::Edge => "type"@,
            LinkShape::Relation => "relation"@,
        },
        "direction"@,
    ] + key_when(v.retracted, "retracted"@)
}

/// **The keys a walked object's link carries.**
pub fn link_keys(v: &ViaShape) -> (k: Vec<&'static str>)
    ensures
        keys_text(k@) == link_keys_of(*v),
{
    let mut k: Vec<&'static str> = Vec::new();
    assert(keys_text(k@) =~= Seq::<Seq<char>>::empty());
    match v.link {
        LinkShape::Edge => push_key(&mut k, "type"),
        LinkShape::Relation => push_key(&mut k, "relation"),
    }
    push_key(&mut k, "direction");
    if v.retracted {
        push_key(&mut k, "retracted");
    }
    assert(keys_text(k@) =~= link_keys_of(*v));
    k
}

/// **What the layout of one search hit reads**: which kind of hit it is, and
/// for an entity whether a type was asked about, for a fact whether it names
/// a source.
#[derive(Debug, Clone, Copy, PartialEq, Eq, Structural)]
pub enum HitShape {
    Entity { answers: bool },
    Fact { source: bool },
    Message,
    Session,
    Prose,
}

/// What a hit says it is.
pub open spec fn hit_kind_of(h: HitShape) -> Seq<char> {
    match h {
        HitShape::Entity { .. } => "entity"@,
        HitShape::Fact { .. } => "fact"@,
        HitShape::Message => "message"@,
        HitShape::Session => "session"@,
        HitShape::Prose => "prose"@,
    }
}

/// **What a hit says it is**, under its `hit` key.
pub fn hit_kind(h: HitShape) -> (t: &'static str)
    ensures
        t@ == hit_kind_of(h),
{
    match h {
        HitShape::Entity { .. } => "entity",
        HitShape::Fact { .. } => "fact",
        HitShape::Message => "message",
        HitShape::Session => "session",
        HitShape::Prose => "prose",
    }
}

/// **The keys a hit's layout writes** — beside the entity's or the fact's
/// own, for those two. Every hit says what it is; an entity names its edges
/// and, only when a type was asked about, how it answers it; a fact names who
/// it is about and where it is homed, and what became of its source only when
/// it has one; **a message carries its whole envelope and a snippet, never its
/// body**; a session beat carries its run's handle; prose its title, its
/// entity, its edges and a snippet.
pub open spec fn hit_keys_of(h: HitShape) -> Seq<Seq<char>> {
    match h {
        HitShape::Entity { answers } => seq!["hit"@, "edges"@] + key_when(answers, "answers_type"@),
        HitShape::Fact { source } => seq!["hit"@, "about"@, "home"@] + key_when(source, "source_standing"@),
        HitShape::Message => seq!["hit"@, "id"@, "mailbox"@, "state"@, "sender"@, "subject"@, "sent_at"@, "notes"@, "snippet"@],
        HitShape::Session => seq!["hit"@, "session"@, "bot"@, "working_on"@, "snippet"@],
        HitShape::Prose => seq!["hit"@, "title"@, "entity"@, "edges"@, "snippet"@],
    }
}

/// **The keys one search hit's layout writes.**
pub fn hit_keys(h: &HitShape) -> (k: Vec<&'static str>)
    ensures
        keys_text(k@) == hit_keys_of(*h),
        keys_text(k@).contains("hit"@),
        *h == HitShape::Message ==> !keys_text(k@).contains("body"@),
{
    let mut k: Vec<&'static str> = Vec::new();
    assert(keys_text(k@) =~= Seq::<Seq<char>>::empty());
    push_key(&mut k, "hit");
    match h {
        HitShape::Entity { answers } => {
            push_key(&mut k, "edges");
            if *answers {
                push_key(&mut k, "answers_type");
            }
        },
        HitShape::Fact { source } => {
            push_key(&mut k, "about");
            push_key(&mut k, "home");
            if *source {
                push_key(&mut k, "source_standing");
            }
        },
        HitShape::Message => {
            push_key(&mut k, "id");
            push_key(&mut k, "mailbox");
            push_key(&mut k, "state");
            push_key(&mut k, "sender");
            push_key(&mut k, "subject");
            push_key(&mut k, "sent_at");
            push_key(&mut k, "notes");
            push_key(&mut k, "snippet");
        },
        HitShape::Session => {
            push_key(&mut k, "session");
            push_key(&mut k, "bot");
            push_key(&mut k, "working_on");
            push_key(&mut k, "snippet");
        },
        HitShape::Prose => {
            push_key(&mut k, "title");
            push_key(&mut k, "entity");
            push_key(&mut k, "edges");
            push_key(&mut k, "snippet");
        },
    }
    assert(keys_text(k@) =~= hit_keys_of(*h));
    assert(keys_text(k@)[0] == "hit"@);
    proof {
        if *h == HitShape::Message {
            reveal_strlit("body");
            reveal_strlit("hit");
            reveal_strlit("id");
            reveal_strlit("mailbox");
            reveal_strlit("state");
            reveal_strlit("sender");
            reveal_strlit("subject");
            reveal_strlit("sent_at");
            reveal_strlit("notes");
            reveal_strlit("snippet");
            assert forall|i: int| 0 <= i < keys_text(k@).len() implies keys_text(k@)[i] != "body"@ by {
                assert("body"@.len() == 4);
                if keys_text(k@)[i].len() == 4 {
                    assert(keys_text(k@)[i][0] != 'b');
                }
            }
        }
    }
    k
}

} // verus!
