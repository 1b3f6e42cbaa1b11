//! **The input grammar** — the tokens a caller may send, and what they mean.
//!
//! Every one of these is a *client* mistake when it fails, so they return
//! [`McpError`] rather than a blocked answer: a token that is no kind and a
//! handle that is no address are malformed calls, not near misses. The one
//! exception is [`parse_edge`], where half an edge parses fine and is still
//! wrong.
//!
//! **Input stays lowercase.** The response vocabulary speaks schema.org's words
//! (`Person`, `memberOf`); nothing here accepts them back.

use vstd::prelude::*;
use crate::declined::{blocked_body, matches_view, memory_error, BlockedAnswer, MemoryError};
use crate::text::{
    chars_of, is_blank, push_chars, push_str, same_chars, spells, split_at_char, split_once,
    string_of, text, trim, trimmed_str,
};
use crate::vocab::{
    handle_kind, kind_half, resolve_kind, Boot, Clock, Compare, Day, Direction, Edge, EdgeShape,
    EntityId, EntityKind, EntityMatch, ErrorCode, FactStatus, Kinds, McpError, Provenance, Scope,
    Standing, shape_of,
};

verus! {

/// Kind refusal.
pub open spec fn kind_refusal_msg(raw: Seq<char>, why: Seq<char>) -> Seq<char> {
    "kind '"@ + raw + "': "@ + why
}

/// Handle disagrees.
pub open spec fn handle_disagrees_msg(handle: Seq<char>, k: Seq<char>, kind: Seq<char>) -> Seq<char> {
    "handle '"@ + handle + "' says kind '"@ + k + "' but kind is '"@ + kind + "'"@
}

/// Not a bot.
pub open spec fn not_a_bot_msg(name: Seq<char>, k: Seq<char>) -> Seq<char> {
    "'"@ + name + "' is a "@ + k + ", and this verb takes a bot — pass a bare name, or a handle with the bot kind on it"@
}

/// Shape refusal.
pub open spec fn shape_refusal_msg(raw: Seq<char>) -> Seq<char> {
    "shape must be one of location, membership, attendance, about, connection, got '"@ + raw + "'"@
}

/// Direction refusal.
pub open spec fn direction_refusal_msg(token: Seq<char>) -> Seq<char> {
    "direction must be out or in, got '"@ + token + "'"@
}

/// Scope refusal.
pub open spec fn scope_refusal_msg(token: Seq<char>) -> Seq<char> {
    "scope must be thing or record, got '"@ + token + "'"@
}

/// Compare refusal.
pub open spec fn compare_refusal_msg(token: Seq<char>) -> Seq<char> {
    "compare must be equals, before, after, less or greater, got '"@ + token + "'"@
}

/// Shape without object.
pub open spec fn shape_without_object_msg() -> Seq<char> {
    "Nothing was written, and the edge you meant was not drawn. `shape` needs an `object`: an edge is a shape AND the entity it points at. Pass the object too, or drop the shape if you meant no edge."@
}

/// Object without shape.
pub open spec fn object_without_shape_msg() -> Seq<char> {
    "Nothing was written, and the edge you meant was not drawn. `object` needs a `shape` — one of location, membership, attendance, about, connection — saying how this fact points at it. Pass the shape too, or drop the object if you meant no edge."@
}

/// Negated status.
pub open spec fn negated_status_msg() -> Seq<char> {
    "there is no 'negated' status: to record that something is NOT so, rewrite the fact's content to state the negative truth — it stays 'active', because that is the current truth. Use 'archived' only for a claim that stopped being current. NOT FOR A PAST EVENT: turning a claim about one into its negation is never that rewrite — archive it instead, with a note saying why, or retract it."@
}

/// Retired status.
pub open spec fn retired_status_msg(status: Seq<char>) -> Seq<char> {
    "there is no '"@ + status + "' status: it is 'archived' now, whether the claim changed or was never true. A note on the record says which, and a replacement, if there is one, is an ordinary new fact naming this one as derived_from."@
}

/// Status refusal.
pub open spec fn status_refusal_msg(other: Seq<char>) -> Seq<char> {
    "status must be 'active' or 'archived', got '"@ + other + "'"@
}

/// Boot refusal.
pub open spec fn boot_refusal_msg(other: Seq<char>) -> Seq<char> {
    "boot must be `always` or `on-demand`, got '"@ + other + "'. `always` marks this entity as part of the core an assistant loads every session; `on-demand` is the default. It does not name a mailbox — a bot's box is opened with the bot and is named for it."@
}

/// Provenance refusal.
pub open spec fn provenance_refusal_msg(other: Seq<char>) -> Seq<char> {
    "provenance must be 'testimony', 'observation' or 'inference', got '"@ + other + "'"@
}

/// Standing refusal.
pub open spec fn standing_refusal_msg(other: Seq<char>) -> Seq<char> {
    "standing must be 'settled' or 'open', got '"@ + other + "'"@
}

/// Day refusal.
pub open spec fn day_refusal_msg(said: Seq<char>) -> Seq<char> {
    "`today` is "@ + said + ", which is no day — send a calendar day as YYYY-MM-DD, or leave it off and the sweep answers on the clock"@
}

/// Zone refusal.
pub open spec fn zone_refusal_msg(name: Seq<char>, why: Seq<char>, fallback: Seq<char>) -> Seq<char> {
    "'"@ + name + "' is no timezone this build can resolve: "@ + why + ". Send an IANA name, like                  'America/New_York' or 'Europe/Madrid', or send none and days are resolved in                  "@ + fallback + "."@
}

/// Date refusal.
pub open spec fn date_refusal_msg(named: Seq<char>, why: Seq<char>) -> Seq<char> {
    "date must be YYYY-MM-DD, got '"@ + named + "': "@ + why
}

/// Clock refusal.
pub open spec fn clock_refusal_msg(other: Seq<char>) -> Seq<char> {
    "clock must be true_of or taken_in, got '"@ + other + "'"@
}

/// Edge not a handle.
pub open spec fn edge_not_a_handle_msg(object: Seq<char>) -> Seq<char> {
    "'"@ + object + "' is no handle: an edge points at an entity, written kind:slug"@
}

/// Edge wrong kind.
pub open spec fn edge_wrong_kind_msg(shape: Seq<char>, wanted: Seq<char>, object: Seq<char>, actual: Seq<char>) -> Seq<char> {
    "a "@ + shape + " edge points at a "@ + wanted + ", and '"@ + object + "' is a "@ + actual
}

fn kind_refusal_text(raw: &str, why: &str) -> (m: String)
    ensures
        m@ == kind_refusal_msg(raw@, why@),
{
    let mut m = text("kind '");
    push_str(&mut m, raw);
    push_str(&mut m, "': ");
    push_str(&mut m, why);
    m
}

fn handle_disagrees_text(handle: &str, k: &[char], kind: &str) -> (m: String)
    ensures
        m@ == handle_disagrees_msg(handle@, k@, kind@),
{
    let mut m = text("handle '");
    push_str(&mut m, handle);
    push_str(&mut m, "' says kind '");
    push_chars(&mut m, k);
    push_str(&mut m, "' but kind is '");
    push_str(&mut m, kind);
    push_str(&mut m, "'");
    m
}

fn not_a_bot_text(name: &[char], k: &[char]) -> (m: String)
    ensures
        m@ == not_a_bot_msg(name@, k@),
{
    let mut m = text("'");
    push_chars(&mut m, name);
    push_str(&mut m, "' is a ");
    push_chars(&mut m, k);
    push_str(&mut m, ", and this verb takes a bot — pass a bare name, or a handle with the bot kind on it");
    m
}

fn shape_refusal_text(raw: &str) -> (m: String)
    ensures
        m@ == shape_refusal_msg(raw@),
{
    let mut m = text("shape must be one of location, membership, attendance, about, connection, got '");
    push_str(&mut m, raw);
    push_str(&mut m, "'");
    m
}

fn direction_refusal_text(token: &[char]) -> (m: String)
    ensures
        m@ == direction_refusal_msg(token@),
{
    let mut m = text("direction must be out or in, got '");
    push_chars(&mut m, token);
    push_str(&mut m, "'");
    m
}

fn scope_refusal_text(token: &[char]) -> (m: String)
    ensures
        m@ == scope_refusal_msg(token@),
{
    let mut m = text("scope must be thing or record, got '");
    push_chars(&mut m, token);
    push_str(&mut m, "'");
    m
}

fn compare_refusal_text(token: &[char]) -> (m: String)
    ensures
        m@ == compare_refusal_msg(token@),
{
    let mut m = text("compare must be equals, before, after, less or greater, got '");
    push_chars(&mut m, token);
    push_str(&mut m, "'");
    m
}

fn shape_without_object_text() -> (m: String)
    ensures
        m@ == shape_without_object_msg(),
{
    let m = text("Nothing was written, and the edge you meant was not drawn. `shape` needs an `object`: an edge is a shape AND the entity it points at. Pass the object too, or drop the shape if you meant no edge.");
    m
}

fn object_without_shape_text() -> (m: String)
    ensures
        m@ == object_without_shape_msg(),
{
    let m = text("Nothing was written, and the edge you meant was not drawn. `object` needs a `shape` — one of location, membership, attendance, about, connection — saying how this fact points at it. Pass the shape too, or drop the object if you meant no edge.");
    m
}

fn negated_status_text() -> (m: String)
    ensures
        m@ == negated_status_msg(),
{
    let m = text("there is no 'negated' status: to record that something is NOT so, rewrite the fact's content to state the negative truth — it stays 'active', because that is the current truth. Use 'archived' only for a claim that stopped being current. NOT FOR A PAST EVENT: turning a claim about one into its negation is never that rewrite — archive it instead, with a note saying why, or retract it.");
    m
}

fn retired_status_text(status: &[char]) -> (m: String)
    ensures
        m@ == retired_status_msg(status@),
{
    let mut m = text("there is no '");
    push_chars(&mut m, status);
    push_str(&mut m, "' status: it is 'archived' now, whether the claim changed or was never true. A note on the record says which, and a replacement, if there is one, is an ordinary new fact naming this one as derived_from.");
    m
}

fn status_refusal_text(other: &[char]) -> (m: String)
    ensures
        m@ == status_refusal_msg(other@),
{
    let mut m = text("status must be 'active' or 'archived', got '");
    push_chars(&mut m, other);
    push_str(&mut m, "'");
    m
}

fn boot_refusal_text(other: &[char]) -> (m: String)
    ensures
        m@ == boot_refusal_msg(other@),
{
    let mut m = text("boot must be `always` or `on-demand`, got '");
    push_chars(&mut m, other);
    push_str(&mut m, "'. `always` marks this entity as part of the core an assistant loads every session; `on-demand` is the default. It does not name a mailbox — a bot's box is opened with the bot and is named for it.");
    m
}

fn provenance_refusal_text(other: &[char]) -> (m: String)
    ensures
        m@ == provenance_refusal_msg(other@),
{
    let mut m = text("provenance must be 'testimony', 'observation' or 'inference', got '");
    push_chars(&mut m, other);
    push_str(&mut m, "'");
    m
}

fn standing_refusal_text(other: &[char]) -> (m: String)
    ensures
        m@ == standing_refusal_msg(other@),
{
    let mut m = text("standing must be 'settled' or 'open', got '");
    push_chars(&mut m, other);
    push_str(&mut m, "'");
    m
}

fn day_refusal_text(said: &str) -> (m: String)
    ensures
        m@ == day_refusal_msg(said@),
{
    let mut m = text("`today` is ");
    push_str(&mut m, said);
    push_str(&mut m, ", which is no day — send a calendar day as YYYY-MM-DD, or leave it off and the sweep answers on the clock");
    m
}

fn zone_refusal_text(name: &[char], why: &str, fallback: &str) -> (m: String)
    ensures
        m@ == zone_refusal_msg(name@, why@, fallback@),
{
    let mut m = text("'");
    push_chars(&mut m, name);
    push_str(&mut m, "' is no timezone this build can resolve: ");
    push_str(&mut m, why);
    push_str(&mut m, ". Send an IANA name, like                  'America/New_York' or 'Europe/Madrid', or send none and days are resolved in                  ");
    push_str(&mut m, fallback);
    push_str(&mut m, ".");
    m
}

fn date_refusal_text(named: &[char], why: &str) -> (m: String)
    ensures
        m@ == date_refusal_msg(named@, why@),
{
    let mut m = text("date must be YYYY-MM-DD, got '");
    push_chars(&mut m, named);
    push_str(&mut m, "': ");
    push_str(&mut m, why);
    m
}

fn clock_refusal_text(other: &[char]) -> (m: String)
    ensures
        m@ == clock_refusal_msg(other@),
{
    let mut m = text("clock must be true_of or taken_in, got '");
    push_chars(&mut m, other);
    push_str(&mut m, "'");
    m
}

fn edge_not_a_handle_text(object: &[char]) -> (m: String)
    ensures
        m@ == edge_not_a_handle_msg(object@),
{
    let mut m = text("'");
    push_chars(&mut m, object);
    push_str(&mut m, "' is no handle: an edge points at an entity, written kind:slug");
    m
}

fn edge_wrong_kind_text(shape: &str, wanted: &str, object: &[char], actual: &[char]) -> (m: String)
    ensures
        m@ == edge_wrong_kind_msg(shape@, wanted@, object@, actual@),
{
    let mut m = text("a ");
    push_str(&mut m, shape);
    push_str(&mut m, " edge points at a ");
    push_str(&mut m, wanted);
    push_str(&mut m, ", and '");
    push_chars(&mut m, object);
    push_str(&mut m, "' is a ");
    push_chars(&mut m, actual);
    m
}

/// Whether `r` is the refusal of a malformed call, saying `m`.
pub open spec fn refused<T>(r: Result<T, McpError>, m: Seq<char>) -> bool {
    r matches Err(e) && e.code == ErrorCode::InvalidParams && e.message@ == m
}

/// Whether `r` is the handle `p` says, or its refusal.
pub open spec fn gives_id(r: Result<EntityId, McpError>, p: Result<Seq<char>, Seq<char>>) -> bool {
    match p {
        Ok(id) => r matches Ok(got) && got@ == id,
        Err(m) => refused(r, m),
    }
}

/// Whether `r` is the value `p` says, or its refusal.
pub open spec fn gives<T>(r: Result<T, McpError>, p: Result<T, Seq<char>>) -> bool {
    match p {
        Ok(v) => r == Ok::<T, McpError>(v),
        Err(m) => refused(r, m),
    }
}

/// What an optional argument says: nothing when it is absent or blank, and
/// its trimmed text otherwise. **Blank is absent**, on every argument that
/// reads this way.
pub open spec fn given(raw: Option<&str>) -> Option<Seq<char>> {
    given_text(match raw {
        Some(s) => Some(s@),
        None => None,
    })
}

/// What an optional text says: nothing when it is absent or blank, and its
/// trimmed text otherwise.
pub open spec fn given_text(raw: Option<Seq<char>>) -> Option<Seq<char>> {
    match raw {
        Some(s) => if is_blank(s) {
            None
        } else {
            Some(trim(s))
        },
        None => None,
    }
}

fn given_exec(raw: Option<&str>) -> (r: Option<Vec<char>>)
    ensures
        match given(raw) {
            Some(t) => r matches Some(v) && v@ == t,
            None => r is None,
        },
{
    match raw {
        Some(s) => {
            let t = trimmed_str(s);
            if t.len() == 0 {
                None
            } else {
                Some(t)
            }
        },
        None => None,
    }
}

fn refuse<T>(m: String) -> (r: Result<T, McpError>)
    ensures
        refused(r, m@),
{
    Err(McpError::invalid_params(m))
}

/// Parse a kind token against the kinds this instance holds. **The refusal
/// carries the set's own answer**, so a caller can fix the call without
/// guessing.
pub fn parse_kind(kinds: &Kinds, raw: &str) -> (r: Result<EntityKind, McpError>)
    ensures
        match resolve_kind(kinds@, trim(raw@)) {
            Ok(k) => r matches Ok(kind) && kind@ == k,
            Err(why) => refused(r, kind_refusal_msg(raw@, why)),
        },
{
    let t = trimmed_str(raw);
    match kinds.resolve(&t) {
        Ok(k) => Ok(k),
        Err(why) => refuse(kind_refusal_text(raw, why.as_str())),
    }
}

/// The handle a `kind` argument and a handle argument name together: a bare
/// slug takes the kind, and a qualified handle must agree with it.
pub open spec fn entity_handle(kind: Seq<char>, handle: Seq<char>) -> Result<Seq<char>, Seq<char>> {
    match split_once(trim(handle), ':') {
        None => Ok(kind + ":"@ + handle),
        Some((k, slug)) => if k == kind {
            Ok(kind + ":"@ + slug)
        } else {
            Err(handle_disagrees_msg(handle, k, kind))
        },
    }
}

/// Build an entity id from a `kind` argument and a handle that may be a bare
/// slug or a fully qualified id. A qualified handle that disagrees with `kind`
/// is a client error rather than a silent winner.
pub fn entity_id(kinds: &Kinds, kind: &str, handle: &str) -> (r: Result<EntityId, McpError>)
    ensures
        match resolve_kind(kinds@, trim(kind@)) {
            Ok(k) => gives_id(r, entity_handle(k, handle@)),
            Err(why) => refused(r, kind_refusal_msg(kind@, why)),
        },
{
    let kind = match parse_kind(kinds, kind) {
        Ok(k) => k,
        Err(e) => return Err(e),
    };
    let h = trimmed_str(handle);
    match split_at_char(&h, ':') {
        None => {
            let whole = chars_of(handle);
            Ok(EntityId::new(&kind, &whole))
        },
        Some((k, slug)) => {
            let own = chars_of(kind.0.as_str());
            if same_chars(&k, &own) {
                Ok(EntityId::new(&kind, &slug))
            } else {
                refuse(handle_disagrees_text(handle, &k, kind.0.as_str()))
            }
        },
    }
}

/// The bot a name names. A bare name is a bot at this door, and a handle of
/// another kind is refused.
pub open spec fn bot_handle(name: Seq<char>) -> Result<Seq<char>, Seq<char>> {
    let n = trim(name);
    match split_once(n, ':') {
        None => Ok("bot:"@ + n),
        Some((k, slug)) => if k == "bot"@ {
            Ok("bot:"@ + slug)
        } else {
            Err(not_a_bot_msg(n, k))
        },
    }
}

/// Read a bot handle off a name. **Booting a person as an identity would hand
/// somebody's page back as a charter**, so a handle of another kind is a
/// client error rather than a silent winner.
pub fn bot_id(name: &str) -> (r: Result<EntityId, McpError>)
    ensures
        gives_id(r, bot_handle(name@)),
{
    let n = trimmed_str(name);
    let bot = EntityKind::bot();
    proof {
        reveal_strlit("bot");
        reveal_strlit(":");
        reveal_strlit("bot:");
        assert("bot"@ + ":"@ =~= "bot:"@);
    }
    match split_at_char(&n, ':') {
        None => Ok(EntityId::new(&bot, &n)),
        Some((k, slug)) => {
            if spells(&k, "bot") {
                Ok(EntityId::new(&bot, &slug))
            } else {
                refuse(not_a_bot_text(&n, &k))
            }
        },
    }
}

/// The identity a session verb was told to write as, if it was told one.
/// **Blank is absent rather than an error.**
pub fn named_bot(name: Option<&str>) -> (r: Result<Option<EntityId>, McpError>)
    ensures
        match name {
            Some(n) => if is_blank(n@) {
                r matches Ok(None)
            } else {
                match bot_handle(n@) {
                    Ok(id) => r matches Ok(Some(got)) && got@ == id,
                    Err(m) => refused(r, m),
                }
            },
            None => r matches Ok(None),
        },
{
    match name {
        None => Ok(None),
        Some(n) => {
            let t = trimmed_str(n);
            if t.len() == 0 {
                Ok(None)
            } else {
                match bot_id(n) {
                    Ok(id) => Ok(Some(id)),
                    Err(e) => Err(e),
                }
            }
        },
    }
}

fn shape_token(v: &[char]) -> (r: Option<EdgeShape>)
    ensures
        r == shape_of(v@),
{
    if spells(v, "location") {
        Some(EdgeShape::Location)
    } else if spells(v, "membership") {
        Some(EdgeShape::Membership)
    } else if spells(v, "attendance") {
        Some(EdgeShape::Attendance)
    } else if spells(v, "about") {
        Some(EdgeShape::About)
    } else if spells(v, "connection") {
        Some(EdgeShape::Connection)
    } else {
        None
    }
}

/// Parse an edge-shape token; the closed set is named in the error. **Strict
/// about case and spelling**: the response names (`memberOf`, `attendee`) are
/// not input, and the input grammar stays lowercase.
pub fn parse_shape(raw: &str) -> (r: Result<EdgeShape, McpError>)
    ensures
        match shape_of(raw@) {
            Some(s) => r == Ok::<EdgeShape, McpError>(s),
            None => refused(r, shape_refusal_msg(raw@)),
        },
{
    let v = chars_of(raw);
    match shape_token(&v) {
        Some(s) => Ok(s),
        None => refuse(shape_refusal_text(raw)),
    }
}

/// What a direction argument says.
pub open spec fn direction_outcome(raw: Option<&str>) -> Result<Direction, Seq<char>> {
    direction_of(given(raw))
}

/// What a direction token says, once blank has been read as absent.
pub open spec fn direction_of(said: Option<Seq<char>>) -> Result<Direction, Seq<char>> {
    match said {
        None => Ok(Direction::Out),
        Some(t) => if t == "out"@ {
            Ok(Direction::Out)
        } else if t == "in"@ {
            Ok(Direction::In)
        } else {
            Err(direction_refusal_msg(t))
        },
    }
}

/// Parse a walk-direction token. **Omitted means `out`**; a token naming
/// neither direction is refused rather than defaulted.
pub fn parse_direction(raw: Option<&str>) -> (r: Result<Direction, McpError>)
    ensures
        gives(r, direction_outcome(raw)),
{
    match given_exec(raw) {
        None => Ok(Direction::Out),
        Some(t) => {
            if spells(&t, "out") {
                Ok(Direction::Out)
            } else if spells(&t, "in") {
                Ok(Direction::In)
            } else {
                refuse(direction_refusal_text(&t))
            }
        },
    }
}

/// What a scope argument says.
pub open spec fn scope_outcome(raw: Option<&str>) -> Result<Scope, Seq<char>> {
    scope_of(given(raw))
}

/// What a scope token says, once blank has been read as absent.
pub open spec fn scope_of(said: Option<Seq<char>>) -> Result<Scope, Seq<char>> {
    match said {
        None => Ok(Scope::Thing),
        Some(t) => if t == "thing"@ {
            Ok(Scope::Thing)
        } else if t == "record"@ {
            Ok(Scope::Record)
        } else {
            Err(scope_refusal_msg(t))
        },
    }
}

/// **What a key filter is asked of.** Absent is the thing; a token naming
/// neither scope is refused rather than defaulted.
pub fn parse_scope(raw: Option<&str>) -> (r: Result<Scope, McpError>)
    ensures
        gives(r, scope_outcome(raw)),
{
    match given_exec(raw) {
        None => Ok(Scope::Thing),
        Some(t) => {
            if spells(&t, "thing") {
                Ok(Scope::Thing)
            } else if spells(&t, "record") {
                Ok(Scope::Record)
            } else {
                refuse(scope_refusal_text(&t))
            }
        },
    }
}

/// What a compare argument says.
pub open spec fn compare_outcome(raw: Option<&str>) -> Result<Compare, Seq<char>> {
    compare_of(given(raw))
}

/// What a compare token says, once blank has been read as absent.
pub open spec fn compare_of(said: Option<Seq<char>>) -> Result<Compare, Seq<char>> {
    match said {
        None => Ok(Compare::Equals),
        Some(t) => if t == "equals"@ {
            Ok(Compare::Equals)
        } else if t == "before"@ {
            Ok(Compare::Before)
        } else if t == "after"@ {
            Ok(Compare::After)
        } else if t == "less"@ {
            Ok(Compare::Less)
        } else if t == "greater"@ {
            Ok(Compare::Greater)
        } else {
            Err(compare_refusal_msg(t))
        },
    }
}

/// The comparison a filter uses. Absent is equality.
pub fn parse_compare(raw: Option<&str>) -> (r: Result<Compare, McpError>)
    ensures
        gives(r, compare_outcome(raw)),
{
    match given_exec(raw) {
        None => Ok(Compare::Equals),
        Some(t) => {
            if spells(&t, "equals") {
                Ok(Compare::Equals)
            } else if spells(&t, "before") {
                Ok(Compare::Before)
            } else if spells(&t, "after") {
                Ok(Compare::After)
            } else if spells(&t, "less") {
                Ok(Compare::Less)
            } else if spells(&t, "greater") {
                Ok(Compare::Greater)
            } else {
                refuse(compare_refusal_text(&t))
            }
        },
    }
}

/// What a clock argument says.
pub open spec fn clock_outcome(raw: Option<&str>) -> Result<Clock, Seq<char>> {
    clock_of(match raw {
        Some(s) => Some(s@),
        None => None,
    })
}

/// What a clock argument's text says.
pub open spec fn clock_of(raw: Option<Seq<char>>) -> Result<Clock, Seq<char>> {
    match raw {
        None => Ok(Clock::TrueOf),
        Some(s) => {
            let t = trim(s);
            if t.len() == 0 || t == "true_of"@ {
                Ok(Clock::TrueOf)
            } else if t == "taken_in"@ {
                Ok(Clock::TakenIn)
            } else {
                Err(clock_refusal_msg(t))
            }
        },
    }
}

/// Which clock a neighbourhood read compares.
pub fn parse_clock(raw: Option<&str>) -> (r: Result<Clock, McpError>)
    ensures
        gives(r, clock_outcome(raw)),
{
    match raw {
        None => Ok(Clock::TrueOf),
        Some(s) => {
            let t = trimmed_str(s);
            if t.len() == 0 || spells(&t, "true_of") {
                Ok(Clock::TrueOf)
            } else if spells(&t, "taken_in") {
                Ok(Clock::TakenIn)
            } else {
                refuse(clock_refusal_text(&t))
            }
        },
    }
}

/// **The edge rule**: an edge points at a handle, and a shape that narrows its
/// object to one kind points only at that kind. The fault, when there is one.
pub open spec fn edge_fault(shape: EdgeShape, object: Seq<char>) -> Option<Seq<char>> {
    match handle_kind(object) {
        None => Some(edge_not_a_handle_msg(object)),
        Some(k) => match shape.object_kind() {
            Some(wanted) => if k == wanted {
                None
            } else {
                Some(edge_wrong_kind_msg(shape.token(), wanted, object, k))
            },
            None => None,
        },
    }
}

/// Check an edge against the edge rule.
pub fn validate_edge(edge: &Edge) -> (r: Result<(), MemoryError>)
    ensures
        match edge_fault(edge.shape, edge.object@) {
            Some(why) => r matches Err(e) && e matches MemoryError::InvalidEdge(d) && d@ == why,
            None => r is Ok,
        },
{
    let object = chars_of(edge.object.0.as_str());
    match kind_half(&object) {
        None => Err(MemoryError::InvalidEdge(edge_not_a_handle_text(&object))),
        Some(k) => match edge.shape.required_kind() {
            Some(wanted) => {
                if spells(&k, wanted) {
                    Ok(())
                } else {
                    Err(MemoryError::InvalidEdge(edge_wrong_kind_text(edge.shape.as_token(), wanted, &object, &k)))
                }
            },
            None => Ok(()),
        },
    }
}

/// A misuse answered as a blocked answer: both arguments would have parsed,
/// and the mistake is the combination.
pub fn misused(how_to_proceed: String) -> (b: BlockedAnswer)
    requires
        how_to_proceed@.len() > 0,
    ensures
        b@ == (Seq::<char>::empty(), Seq::<<EntityMatch as View>::V>::empty(), how_to_proceed@),
        b.wf(),
{
    let nobody = EntityId(String::new());
    let b = blocked_body(&nobody, Vec::new(), how_to_proceed);
    assert(matches_view(Seq::<EntityMatch>::empty()) =~= Seq::empty());
    b
}

/// Parse the `shape`/`object` pair into an edge. **Half an edge is a
/// misuse** — a blocked answer naming the other half — while a token that is
/// no shape, or an object the shape forbids, is a malformed call.
pub fn parse_edge(shape: Option<&str>, object: Option<&str>) -> (r: Result<Result<Option<Edge>, BlockedAnswer>, McpError>)
    ensures
        match (given(shape), given(object)) {
            (None, None) => r matches Ok(Ok(None)),
            (Some(s), Some(o)) => match shape_of(s) {
                None => refused(r, shape_refusal_msg(s)),
                Some(sh) => match edge_fault(sh, o) {
                    Some(why) => refused(r, "this is no edge jojobot can draw: "@ + why),
                    None => r matches Ok(Ok(Some(edge))) && edge.shape == sh && edge.object@ == o,
                },
            },
            (Some(_), None) => r matches Ok(Err(b)) && b.wf() && b@ == (
                Seq::<char>::empty(),
                Seq::<<EntityMatch as View>::V>::empty(),
                shape_without_object_msg(),
            ),
            (None, Some(_)) => r matches Ok(Err(b)) && b.wf() && b@ == (
                Seq::<char>::empty(),
                Seq::<<EntityMatch as View>::V>::empty(),
                object_without_shape_msg(),
            ),
        },
{
    let s = given_exec(shape);
    let o = given_exec(object);
    match (s, o) {
        (None, None) => Ok(Ok(None)),
        (Some(s), Some(o)) => {
            let token = string_of(&s);
            let sh = match parse_shape(token.as_str()) {
                Ok(sh) => sh,
                Err(e) => return Err(e),
            };
            let edge = Edge { shape: sh, object: EntityId(string_of(&o)) };
            match validate_edge(&edge) {
                Ok(()) => Ok(Ok(Some(edge))),
                Err(e) => Err(memory_error(e)),
            }
        },
        (Some(_), None) => {
            let how = shape_without_object_text();
            proof {
                reveal_strlit(
                    "Nothing was written, and the edge you meant was not drawn. `shape` needs an `object`: an edge is a shape AND the entity it points at. Pass the object too, or drop the shape if you meant no edge.",
                );
            }
            Ok(Err(misused(how)))
        },
        (None, Some(_)) => {
            let how = object_without_shape_text();
            proof {
                reveal_strlit(
                    "Nothing was written, and the edge you meant was not drawn. `object` needs a `shape` — one of location, membership, attendance, about, connection — saying how this fact points at it. Pass the shape too, or drop the object if you meant no edge.",
                );
            }
            Ok(Err(misused(how)))
        },
    }
}

/// What a status argument says. **`negated`, `superseded` and `retracted`
/// are refused by name**, each with what to do instead.
pub open spec fn status_outcome(raw: Seq<char>) -> Result<FactStatus, Seq<char>> {
    let t = trim(raw);
    if t == "active"@ {
        Ok(FactStatus::Active)
    } else if t == "archived"@ {
        Ok(FactStatus::Archived)
    } else if t == "negated"@ {
        Err(negated_status_msg())
    } else if t == "superseded"@ || t == "retracted"@ {
        Err(retired_status_msg(t))
    } else {
        Err(status_refusal_msg(t))
    }
}

/// Parse a lifecycle status; unknown values are a client error, never a
/// silent fallback to active.
pub fn parse_status(raw: &str) -> (r: Result<FactStatus, McpError>)
    ensures
        gives(r, status_outcome(raw@)),
{
    let t = trimmed_str(raw);
    if spells(&t, "active") {
        Ok(FactStatus::Active)
    } else if spells(&t, "archived") {
        Ok(FactStatus::Archived)
    } else if spells(&t, "negated") {
        refuse(negated_status_text())
    } else if spells(&t, "superseded") || spells(&t, "retracted") {
        refuse(retired_status_text(&t))
    } else {
        refuse(status_refusal_text(&t))
    }
}

/// What a boot argument says: blank is the default, `on-demand`.
pub open spec fn boot_outcome(raw: Option<&str>) -> Result<Boot, Seq<char>> {
    boot_of(given(raw))
}

/// What a boot argument that says `said` means.
pub open spec fn boot_of(said: Option<Seq<char>>) -> Result<Boot, Seq<char>> {
    match said {
        None => Ok(Boot::OnDemand),
        Some(t) => if t == "always"@ {
            Ok(Boot::Always)
        } else if t == "on-demand"@ {
            Ok(Boot::OnDemand)
        } else {
            Err(boot_refusal_msg(t))
        },
    }
}

/// Parse the `boot` argument; an unknown token is a client error, never a
/// silent fall back to the default.
pub fn parse_boot(raw: Option<&str>) -> (r: Result<Boot, McpError>)
    ensures
        gives(r, boot_outcome(raw)),
{
    match given_exec(raw) {
        None => Ok(Boot::OnDemand),
        Some(t) => {
            if spells(&t, "always") {
                Ok(Boot::Always)
            } else if spells(&t, "on-demand") {
                Ok(Boot::OnDemand)
            } else {
                refuse(boot_refusal_text(&t))
            }
        },
    }
}

/// The provenance a trimmed token names.
pub open spec fn provenance_of(t: Seq<char>) -> Option<Provenance> {
    if t == "testimony"@ {
        Some(Provenance::Testimony)
    } else if t == "observation"@ {
        Some(Provenance::Observation)
    } else if t == "inference"@ {
        Some(Provenance::Inference)
    } else {
        None
    }
}

fn provenance_token(t: &[char]) -> (r: Option<Provenance>)
    ensures
        r == provenance_of(t@),
{
    if spells(t, "testimony") {
        Some(Provenance::Testimony)
    } else if spells(t, "observation") {
        Some(Provenance::Observation)
    } else if spells(t, "inference") {
        Some(Provenance::Inference)
    } else {
        None
    }
}

/// What an explicit provenance value says — no default, the caller named one.
pub open spec fn one_provenance_outcome(raw: Seq<char>) -> Result<Provenance, Seq<char>> {
    match provenance_of(trim(raw)) {
        Some(p) => Ok(p),
        None => Err(provenance_refusal_msg(trim(raw))),
    }
}

/// Parse an explicit provenance value.
pub fn parse_one_provenance(raw: &str) -> (r: Result<Provenance, McpError>)
    ensures
        gives(r, one_provenance_outcome(raw@)),
{
    let t = trimmed_str(raw);
    match provenance_token(&t) {
        Some(p) => Ok(p),
        None => refuse(provenance_refusal_text(&t)),
    }
}

/// What the provenance argument says: **anything not tied to the user's
/// words is a hypothesis**, so absent is `inference`.
pub open spec fn provenance_outcome(raw: Option<&str>) -> Result<Provenance, Seq<char>> {
    match raw {
        None => Ok(Provenance::Inference),
        Some(s) => if trim(s@).len() == 0 {
            Ok(Provenance::Inference)
        } else {
            one_provenance_outcome(s@)
        },
    }
}

/// Parse the provenance argument; unknown values are a client error.
pub fn parse_provenance(raw: Option<&str>) -> (r: Result<Provenance, McpError>)
    ensures
        gives(r, provenance_outcome(raw)),
{
    match raw {
        None => Ok(Provenance::Inference),
        Some(s) => {
            let t = trimmed_str(s);
            if t.len() == 0 {
                Ok(Provenance::Inference)
            } else {
                parse_one_provenance(s)
            }
        },
    }
}

/// What a standing argument says.
pub open spec fn standing_outcome(raw: Seq<char>) -> Result<Standing, Seq<char>> {
    let t = trim(raw);
    if t == "settled"@ {
        Ok(Standing::Settled)
    } else if t == "open"@ {
        Ok(Standing::Open)
    } else {
        Err(standing_refusal_msg(t))
    }
}

/// Parse the standing argument. **A silence is not decided here** — the
/// caller hands `None` through — and an unknown value is a client error.
pub fn parse_standing(raw: &str) -> (r: Result<Standing, McpError>)
    ensures
        gives(r, standing_outcome(raw@)),
{
    let t = trimmed_str(raw);
    if spells(&t, "settled") {
        Ok(Standing::Settled)
    } else if spells(&t, "open") {
        Ok(Standing::Open)
    } else {
        refuse(standing_refusal_text(&t))
    }
}

/// The zone a run resolves days against when it named none.
pub const FALLBACK_ZONE: &'static str = "UTC";

/// What `jiff` reads a text as when asked for a calendar day: the day, or
/// the account of why it is none.
pub uninterp spec fn civil_date(text: Seq<char>) -> Result<Day, Seq<char>>;

/// `<jiff::civil::Date as FromStr>::from_str`, with the day taken apart into
/// its year, month and day and the error into its message. The parse depends
/// on the text alone, so its result is named; jiff documents that a date's
/// month is in `1..=12`, its day in `1..=31` and its year in `-9999..=9999`.
#[verifier::external_body]
fn read_civil_date(s: &str) -> (r: Result<Day, String>)
    ensures
        match r {
            Ok(d) => civil_date(s@) == Ok::<Day, Seq<char>>(d) && 1 <= d.month <= 12 && 1 <= d.day <= 31
                && -9999 <= d.year <= 9999,
            Err(why) => civil_date(s@) == Err::<Day, Seq<char>>(why@),
        },
{
    match s.parse::<jiff::civil::Date>() {
        Ok(d) => Ok(Day { year: d.year(), month: d.month(), day: d.day() }),
        Err(e) => Err(e.to_string()),
    }
}

/// How `str`'s `Debug` writes a text: quoted, with its escapes.
pub uninterp spec fn debug_quoted(text: Seq<char>) -> Seq<char>;

/// `<str as core::fmt::Debug>::fmt`, through `format!`: the text quoted and
/// escaped, which depends on the text alone.
#[verifier::external_body]
fn quoted(s: &str) -> (q: String)
    ensures
        q@ == debug_quoted(s@),
{
    format!("{s:?}")
}

/// What a `today` argument says: nothing when it is blank, a day, or the
/// refusal that quotes what was sent.
pub open spec fn day_outcome(raw: Option<&str>) -> Result<Option<Day>, Seq<char>> {
    match given(raw) {
        None => Ok(None),
        Some(said) => match civil_date(said) {
            Ok(d) => Ok(Some(d)),
            Err(_) => Err(day_refusal_msg(debug_quoted(said))),
        },
    }
}

/// **What a run's day reads as, once the text has been read**: the day, or
/// the refusal quoting what was sent (`quoted` is the text as `Debug` writes
/// it).
pub fn day_read(read: Result<Day, String>, quoted: &str) -> (r: Result<Option<Day>, McpError>)
    ensures
        match read {
            Ok(d) => r == Ok::<Option<Day>, McpError>(Some(d)),
            Err(_) => refused(r, day_refusal_msg(quoted@)),
        },
{
    match read {
        Ok(d) => Ok(Some(d)),
        Err(_) => refuse(day_refusal_text(quoted)),
    }
}

/// **The day a caller says its run is in**, or nothing when it said none. A
/// day that is no day is refused rather than read as nothing.
pub fn parse_day(raw: Option<&str>) -> (r: Result<Option<Day>, McpError>)
    ensures
        gives(r, day_outcome(raw)),
{
    match given_exec(raw) {
        None => Ok(None),
        Some(said) => {
            let said = string_of(&said);
            let read = read_civil_date(said.as_str());
            let q = quoted(said.as_str());
            day_read(read, q.as_str())
        },
    }
}

/// What a date argument on a write says: nothing when it is blank — **and
/// nothing is filled in here** — a day, or the refusal.
pub open spec fn date_outcome(raw: Option<&str>) -> Result<Option<Day>, Seq<char>> {
    date_of(given(raw))
}

/// What a date's text says, once blank has been read as absent.
pub open spec fn date_of(said: Option<Seq<char>>) -> Result<Option<Day>, Seq<char>> {
    match said {
        None => Ok(None),
        Some(named) => match civil_date(named) {
            Ok(d) => Ok(Some(d)),
            Err(why) => Err(date_refusal_msg(named, why)),
        },
    }
}

/// **What a date named on a write reads as, once the text has been read**:
/// the day, or the refusal naming the text and why it is no day.
pub fn date_read(named: &[char], read: Result<Day, String>) -> (r: Result<Option<Day>, McpError>)
    ensures
        match read {
            Ok(d) => r == Ok::<Option<Day>, McpError>(Some(d)),
            Err(why) => refused(r, date_refusal_msg(named@, why@)),
        },
{
    match read {
        Ok(d) => Ok(Some(d)),
        Err(why) => refuse(date_refusal_text(named, why.as_str())),
    }
}

/// **The day a caller named on a write**, or nothing when it named none. An
/// empty string is naming none, and this is the only place that is decided.
pub fn parse_date(raw: Option<&str>) -> (r: Result<Option<Day>, McpError>)
    ensures
        gives(r, date_outcome(raw)),
{
    match given_exec(raw) {
        None => Ok(None),
        Some(named) => {
            let text_of_day = string_of(&named);
            date_read(&named, read_civil_date(text_of_day.as_str()))
        },
    }
}

/// `jiff::tz::TimeZone`, carried through and never looked inside.
#[verifier::external_type_specification]
#[verifier::external_body]
pub struct ExTimeZone(jiff::tz::TimeZone);

/// `jiff::tz::TimeZone::get`: a lookup in the time zone database this build
/// carries, with the error taken as its message. What it finds depends on that
/// database rather than on the name alone, so nothing is promised of it: not
/// whether a name is found, nor which zone a found name stands for.
#[verifier::external_body]
fn zone_named(name: &str) -> (r: Result<jiff::tz::TimeZone, String>) {
    match jiff::tz::TimeZone::get(name) {
        Ok(zone) => Ok(zone),
        Err(e) => Err(e.to_string()),
    }
}

/// `jiff::tz::TimeZone::UTC`, the fallback zone.
#[verifier::external_body]
fn utc_zone() -> jiff::tz::TimeZone {
    jiff::tz::TimeZone::UTC
}

/// **What a zone name reads as, once the database has been asked**: the zone
/// it found, handed on as it is, or the refusal naming the name, the
/// database's reason and the fallback.
pub fn zone_read(name: &[char], looked_up: Result<jiff::tz::TimeZone, String>) -> (r: Result<jiff::tz::TimeZone, McpError>)
    ensures
        match looked_up {
            Ok(z) => r == Ok::<jiff::tz::TimeZone, McpError>(z),
            Err(why) => refused(r, zone_refusal_msg(name@, why@, FALLBACK_ZONE@)),
        },
{
    match looked_up {
        Ok(zone) => Ok(zone),
        Err(why) => refuse(zone_refusal_text(name, why.as_str(), FALLBACK_ZONE)),
    }
}

/// **The zone a name says, or why it is no zone.** No name is the fallback,
/// UTC; a name is trimmed and looked up, and what the lookup gives back is
/// read by `zone_read`: a zone found is handed on, a name the database does
/// not hold is refused, quoting the name.
pub fn parse_zone(raw: Option<&str>) -> (r: Result<jiff::tz::TimeZone, McpError>)
    ensures
        match given(raw) {
            None => r is Ok,
            Some(name) => r is Ok || exists|why: Seq<char>| refused(r, zone_refusal_msg(name, why, FALLBACK_ZONE@)),
        },
{
    match given_exec(raw) {
        None => Ok(utc_zone()),
        Some(name) => {
            let n = string_of(&name);
            zone_read(&name, zone_named(n.as_str()))
        },
    }
}

} // verus!
