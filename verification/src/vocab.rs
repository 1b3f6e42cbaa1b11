//! **The vocabulary memory speaks**: handles, kinds, edge shapes, and the
//! closed token sets a caller may send. Each closed set carries its token as a
//! spec function, so the grammar's contracts are stated over the same words a
//! caller types.

use vstd::prelude::*;
use crate::text::{
    chars_of, find_char, first_index, holds, lemma_first_index, join, push_chars, push_str, same_chars, split_at_char,
    split_once, string_of, text,
};

verus! {

/// A character a handle's kind or slug may hold: `[a-z0-9-]`.
pub open spec fn word_char(c: char) -> bool {
    let n = c as u32;
    ||| 0x61 <= n <= 0x7A
    ||| 0x30 <= n <= 0x39
    ||| n == 0x2D
}

/// A non-empty run of [`word_char`]s.
pub open spec fn is_word(s: Seq<char>) -> bool {
    s.len() > 0 && forall|i: int| 0 <= i < s.len() ==> word_char(s[i])
}

/// The kind half of a well-formed handle `kind:slug`, or nothing when the
/// text is no handle.
pub open spec fn handle_kind(s: Seq<char>) -> Option<Seq<char>> {
    match split_once(s, ':') {
        Some((kind, slug)) => if is_word(kind) && is_word(slug) {
            Some(kind)
        } else {
            None
        },
        None => None,
    }
}

/// Whether `s` is a well-formed handle.
pub open spec fn is_handle(s: Seq<char>) -> bool {
    handle_kind(s) is Some
}

fn word_char_exec(c: char) -> (b: bool)
    ensures
        b == word_char(c),
{
    let n: u32 = c as u32;
    (0x61 <= n && n <= 0x7A) || (0x30 <= n && n <= 0x39) || n == 0x2D
}

/// Whether `v` is a [`is_word`].
pub fn word(v: &[char]) -> (b: bool)
    ensures
        b == is_word(v@),
{
    if v.len() == 0 {
        return false;
    }
    let mut i: usize = 0;
    while i < v.len()
        invariant
            i <= v.len(),
            forall|j: int| 0 <= j < i ==> word_char(v@[j]),
        decreases v.len() - i,
    {
        if !word_char_exec(v[i]) {
            return false;
        }
        i = i + 1;
    }
    true
}

/// The kind half of `v` when it is a well-formed handle.
pub fn kind_half(v: &[char]) -> (r: Option<Vec<char>>)
    ensures
        match r {
            Some(k) => handle_kind(v@) == Some(k@),
            None => handle_kind(v@) is None,
        },
{
    match split_at_char(v, ':') {
        Some((k, slug)) => {
            if word(&k) && word(&slug) {
                Some(k)
            } else {
                None
            }
        },
        None => None,
    }
}

/// An entity's handle, `kind:slug`, exactly as written.
#[derive(Debug, Clone, PartialEq, Eq)]
pub struct EntityId(pub String);

impl View for EntityId {
    type V = Seq<char>;

    open spec fn view(&self) -> Seq<char> {
        self.0@
    }
}

/// The handle a bare name means: text that carries a `:` is a handle already,
/// and text that does not is a person's slug.
pub open spec fn person_handle(s: Seq<char>) -> Seq<char> {
    if holds(s, ':') {
        s
    } else {
        "person:"@ + s
    }
}

impl EntityId {
    /// The handle `kind:slug`.
    pub fn new(kind: &EntityKind, slug: &[char]) -> (id: EntityId)
        ensures
            id@ == kind@ + ":"@ + slug@,
    {
        let mut s = kind.0.clone();
        push_str(&mut s, ":");
        push_chars(&mut s, slug);
        EntityId(s)
    }

    /// A handle read off text where a bare slug means a person.
    pub fn person(s: &str) -> (id: EntityId)
        ensures
            id@ == person_handle(s@),
    {
        let v = chars_of(s);
        match find_char(&v, ':') {
            Some(_) => {
                proof {
                    lemma_first_index(v@, ':');
                    assert(v@[first_index(v@, ':')->0] == ':');
                }
                EntityId(text(s))
            },
            None => {
                proof {
                    lemma_first_index(v@, ':');
                }
                assert(!holds(s@, ':'));
                let mut h = text("person:");
                push_str(&mut h, s);
                EntityId(h)
            },
        }
    }

    /// A copy of this handle.
    pub fn copy(&self) -> (id: EntityId)
        ensures
            id@ == self@,
    {
        EntityId(self.0.clone())
    }

    /// The kind half of this handle, when it is a well-formed one.
    pub fn kind(&self) -> (k: Option<EntityKind>)
        ensures
            match k {
                Some(k) => handle_kind(self@) == Some(k@),
                None => handle_kind(self@) is None,
            },
    {
        let v = chars_of(&self.0);
        match kind_half(&v) {
            Some(k) => Some(EntityKind(string_of(&k))),
            None => None,
        }
    }
}

/// An entity kind, by its token. The set of kinds is data — see [`Kinds`].
#[derive(Debug, Clone, PartialEq, Eq)]
pub struct EntityKind(pub String);

impl View for EntityKind {
    type V = Seq<char>;

    open spec fn view(&self) -> Seq<char> {
        self.0@
    }
}

impl EntityKind {
    /// The kind of an identity that boots and holds a mailbox.
    pub fn bot() -> (k: EntityKind)
        ensures
            k@ == "bot"@,
    {
        EntityKind(text("bot"))
    }

    /// The kind of a person, which is what a bare slug names.
    pub fn person() -> (k: EntityKind)
        ensures
            k@ == "person"@,
    {
        EntityKind(text("person"))
    }

    /// The kind of a recurring loop that takes check-ins.
    pub fn rhythm() -> (k: EntityKind)
        ensures
            k@ == "rhythm"@,
    {
        EntityKind(text("rhythm"))
    }

    /// A copy of this kind.
    pub fn copy(&self) -> (k: EntityKind)
        ensures
            k@ == self@,
    {
        EntityKind(self.0.clone())
    }
}

/// **The kinds this instance holds**, loaded when it started. A token is a
/// kind when it is one of these, and the refusal names the set rather than a
/// list this build was shipped with.
pub struct Kinds {
    pub tokens: Vec<String>,
}

impl View for Kinds {
    type V = Seq<Seq<char>>;

    open spec fn view(&self) -> Seq<Seq<char>> {
        self.tokens@.map_values(|t: String| t@)
    }
}

/// Why `token` is no kind of the set `held`.
pub open spec fn no_such_kind(held: Seq<Seq<char>>, token: Seq<char>) -> Seq<char> {
    if held.len() == 0 {
        "no kinds are loaded in this process, so no token names one — this needs the operator, not another try"@
    } else {
        "'"@ + token + "' is no kind this instance holds; the kinds it holds are: "@ + join(held, ", "@)
    }
}

/// What resolving `token` against `held` gives: the kind, or why not.
pub open spec fn resolve_kind(held: Seq<Seq<char>>, token: Seq<char>) -> Result<Seq<char>, Seq<char>> {
    if held.contains(token) {
        Ok(token)
    } else {
        Err(no_such_kind(held, token))
    }
}

/// `items` joined by `sep`.
pub fn join_strings(items: &Vec<String>, sep: &str) -> (s: String)
    ensures
        s@ == join(items@.map_values(|t: String| t@), sep@),
{
    let ghost all = items@.map_values(|t: String| t@);
    let mut s = String::new();
    let mut i: usize = 0;
    while i < items.len()
        invariant
            i <= items.len(),
            all == items@.map_values(|t: String| t@),
            s@ == join(all.subrange(0, i as int), sep@),
        decreases items.len() - i,
    {
        let ghost before = all.subrange(0, i as int);
        if i > 0 {
            push_str(&mut s, sep);
        }
        push_str(&mut s, items[i].as_str());
        i = i + 1;
        proof {
            let now = all.subrange(0, i as int);
            assert(now.drop_last() =~= before);
            if i > 1 {
                assert(join(now, sep@) == join(before, sep@) + sep@ + now.last());
            } else {
                assert(before.len() == 0);
                assert(join(now, sep@) == now[0]);
                assert(s@ =~= now[0]);
            }
        }
    }
    assert(all.subrange(0, items.len() as int) =~= all);
    s
}

impl Kinds {
    /// Resolve a token against the held set.
    pub fn resolve(&self, token: &[char]) -> (r: Result<EntityKind, String>)
        ensures
            match r {
                Ok(k) => resolve_kind(self@, token@) == Ok::<Seq<char>, Seq<char>>(k@),
                Err(why) => resolve_kind(self@, token@) == Err::<Seq<char>, Seq<char>>(why@),
            },
    {
        let mut i: usize = 0;
        while i < self.tokens.len()
            invariant
                i <= self.tokens.len(),
                forall|j: int| 0 <= j < i ==> self@[j] != token@,
            decreases self.tokens.len() - i,
        {
            let held = chars_of(self.tokens[i].as_str());
            if same_chars(&held, token) {
                assert(self@[i as int] == token@);
                assert(self@.contains(token@));
                return Ok(EntityKind(string_of(token)));
            }
            i = i + 1;
        }
        assert(!self@.contains(token@)) by {
            if self@.contains(token@) {
                let j = choose|j: int| 0 <= j < self@.len() && self@[j] == token@;
                assert(self@[j] != token@);
            }
        }
        if self.tokens.len() == 0 {
            Err(text(
                "no kinds are loaded in this process, so no token names one — this needs the operator, not another try",
            ))
        } else {
            let mut why = text("'");
            push_chars(&mut why, token);
            push_str(&mut why, "' is no kind this instance holds; the kinds it holds are: ");
            let list = join_strings(&self.tokens, ", ");
            push_str(&mut why, list.as_str());
            Err(why)
        }
    }
}

/// How a fact's edge points at its object.
#[derive(Debug, Clone, Copy, PartialEq, Eq, Structural)]
pub enum EdgeShape {
    Location,
    Membership,
    Attendance,
    About,
    Connection,
}

impl EdgeShape {
    /// The lowercase token a caller sends for this shape.
    pub open spec fn token(self) -> Seq<char> {
        match self {
            EdgeShape::Location => "location"@,
            EdgeShape::Membership => "membership"@,
            EdgeShape::Attendance => "attendance"@,
            EdgeShape::About => "about"@,
            EdgeShape::Connection => "connection"@,
        }
    }

    /// The kind the object of this shape must be, when the shape narrows it.
    pub open spec fn object_kind(self) -> Option<Seq<char>> {
        match self {
            EdgeShape::Location => Some("place"@),
            EdgeShape::Membership => Some("org"@),
            EdgeShape::Attendance => Some("event"@),
            EdgeShape::About => None,
            EdgeShape::Connection => None,
        }
    }

    pub fn as_token(self) -> (t: &'static str)
        ensures
            t@ == self.token(),
    {
        match self {
            EdgeShape::Location => "location",
            EdgeShape::Membership => "membership",
            EdgeShape::Attendance => "attendance",
            EdgeShape::About => "about",
            EdgeShape::Connection => "connection",
        }
    }

    pub fn required_kind(self) -> (k: Option<&'static str>)
        ensures
            match k {
                Some(k) => self.object_kind() == Some(k@),
                None => self.object_kind() is None,
            },
    {
        match self {
            EdgeShape::Location => Some("place"),
            EdgeShape::Membership => Some("org"),
            EdgeShape::Attendance => Some("event"),
            EdgeShape::About => None,
            EdgeShape::Connection => None,
        }
    }
}

/// The shape a token names, if it names one.
pub open spec fn shape_of(t: Seq<char>) -> Option<EdgeShape> {
    if t == "location"@ {
        Some(EdgeShape::Location)
    } else if t == "membership"@ {
        Some(EdgeShape::Membership)
    } else if t == "attendance"@ {
        Some(EdgeShape::Attendance)
    } else if t == "about"@ {
        Some(EdgeShape::About)
    } else if t == "connection"@ {
        Some(EdgeShape::Connection)
    } else {
        None
    }
}

/// An edge: a shape, and the entity it points at.
#[derive(Debug, Clone, PartialEq, Eq)]
pub struct Edge {
    pub shape: EdgeShape,
    pub object: EntityId,
}

/// Which end of an edge a walk leaves by.
#[derive(Debug, Clone, Copy, PartialEq, Eq, Structural)]
pub enum Direction {
    Out,
    In,
}

/// What a key filter is asked of.
#[derive(Debug, Clone, Copy, PartialEq, Eq, Structural)]
pub enum Scope {
    Thing,
    Record,
}

/// How a key filter compares a value.
#[derive(Debug, Clone, Copy, PartialEq, Eq, Structural)]
pub enum Compare {
    Equals,
    Before,
    After,
    Less,
    Greater,
}

/// Which day a neighbourhood read compares.
#[derive(Debug, Clone, Copy, PartialEq, Eq, Structural)]
pub enum Clock {
    TrueOf,
    TakenIn,
}

/// A claim's lifecycle state.
#[derive(Debug, Clone, Copy, PartialEq, Eq, Structural)]
pub enum FactStatus {
    Active,
    Archived,
    Superseded,
}

impl FactStatus {
    pub open spec fn token(self) -> Seq<char> {
        match self {
            FactStatus::Active => "active"@,
            FactStatus::Archived => "archived"@,
            FactStatus::Superseded => "superseded"@,
        }
    }

    pub fn as_token(self) -> (t: &'static str)
        ensures
            t@ == self.token(),
    {
        match self {
            FactStatus::Active => "active",
            FactStatus::Archived => "archived",
            FactStatus::Superseded => "superseded",
        }
    }
}

/// Whether an entity is part of the core every session loads.
#[derive(Debug, Clone, Copy, PartialEq, Eq, Structural)]
pub enum Boot {
    Always,
    OnDemand,
}

/// Who backs a claim.
#[derive(Debug, Clone, Copy, PartialEq, Eq, Structural)]
pub enum Provenance {
    Testimony,
    Observation,
    Inference,
}

impl Provenance {
    pub open spec fn token(self) -> Seq<char> {
        match self {
            Provenance::Testimony => "testimony"@,
            Provenance::Observation => "observation"@,
            Provenance::Inference => "inference"@,
        }
    }

    pub fn as_token(self) -> (t: &'static str)
        ensures
            t@ == self.token(),
    {
        match self {
            Provenance::Testimony => "testimony",
            Provenance::Observation => "observation",
            Provenance::Inference => "inference",
        }
    }
}

/// How sure anyone is of a claim.
#[derive(Debug, Clone, Copy, PartialEq, Eq, Structural)]
pub enum Standing {
    Settled,
    Open,
}

impl Standing {
    pub open spec fn token(self) -> Seq<char> {
        match self {
            Standing::Settled => "settled"@,
            Standing::Open => "open"@,
        }
    }

    pub fn as_token(self) -> (t: &'static str)
        ensures
            t@ == self.token(),
    {
        match self {
            Standing::Settled => "settled",
            Standing::Open => "open",
        }
    }
}

/// Why the write guard thinks a candidate is what the caller meant.
#[derive(Debug, Clone, Copy, PartialEq, Eq, Structural)]
pub enum MatchReason {
    ExactHandle,
    SimilarHandle,
    SharedName,
    SelfParent,
}

/// One entity the guard suspects the caller meant.
#[derive(Debug, Clone, PartialEq, Eq)]
pub struct EntityMatch {
    pub handle: EntityId,
    pub name: String,
    pub reason: MatchReason,
    pub source: String,
}

impl View for EntityMatch {
    type V = (Seq<char>, Seq<char>, MatchReason, Seq<char>);

    open spec fn view(&self) -> Self::V {
        (self.handle@, self.name@, self.reason, self.source@)
    }
}

/// A calendar day.
#[derive(Debug, Clone, Copy, PartialEq, Eq)]
pub struct Day {
    pub year: i16,
    pub month: i8,
    pub day: i8,
}

/// Which channel a refusal travels in.
#[derive(Debug, Clone, Copy, PartialEq, Eq, Structural)]
pub enum ErrorCode {
    /// The call itself was malformed.
    InvalidParams,
    /// The server, not the call, failed.
    InternalError,
}

/// A protocol error: a malformed call, or the server failing.
#[derive(Debug, Clone, PartialEq, Eq)]
pub struct McpError {
    pub code: ErrorCode,
    pub message: String,
}

impl McpError {
    pub fn invalid_params(message: String) -> (e: McpError)
        ensures
            e.code == ErrorCode::InvalidParams,
            e.message@ == message@,
    {
        McpError { code: ErrorCode::InvalidParams, message }
    }

    pub fn internal_error(message: String) -> (e: McpError)
        ensures
            e.code == ErrorCode::InternalError,
            e.message@ == message@,
    {
        McpError { code: ErrorCode::InternalError, message }
    }

    /// The message, as a caller reads it.
    pub fn to_text(&self) -> (s: String)
        ensures
            s@ == self.message@,
    {
        self.message.clone()
    }
}

} // verus!
