//! **The record a `capture` asks for**, typed. A capture settles its subject,
//! provenance, day, edge and source before any check-in runs, and the rest
//! once the check-in has computed its keys: the record written is what the
//! caller sent, with jojobot's own arithmetic beside it.

use vstd::prelude::*;
use crate::capture::{opt_text, CaptureArgs};
use crate::claims::{address_of, field_map, keys_unique, FactAddress};
use crate::due::overlay;
use crate::declined::{memory_error, BlockedAnswer};
use crate::parse::{
    date_of, edge_fault, given_text, object_without_shape_msg, one_provenance_outcome, parse_date,
    parse_edge, parse_provenance, parse_standing, refused, shape_refusal_msg,
    shape_without_object_msg, standing_outcome,
};
use crate::text::{string_of, trim, trimmed_str};
use crate::vocab::{shape_of, person_handle, Day, Edge, EdgeShape, EntityId, EntityMatch, McpError, Provenance, Standing};

verus! {

/// What a provenance argument's text says: **absent or blank is
/// `inference`**, and anything else must name one.
pub open spec fn provenance_said(raw: Option<Seq<char>>) -> Result<Provenance, Seq<char>> {
    match raw {
        None => Ok(Provenance::Inference),
        Some(s) => if trim(s).len() == 0 {
            Ok(Provenance::Inference)
        } else {
            one_provenance_outcome(s)
        },
    }
}

/// **What a write's edge arguments say**: no edge, an edge (its shape and
/// the handle it points at), or — under `Err` — either the advice a half
/// edge is answered with (`Ok`) or the refusal of a malformed one (`Err`).
pub open spec fn edge_said(shape: Option<Seq<char>>, object: Option<Seq<char>>) -> Result<Option<(EdgeShape, Seq<char>)>, Result<Seq<char>, Seq<char>>> {
    match (given_text(shape), given_text(object)) {
        (None, None) => Ok(None),
        (Some(s), Some(o)) => match shape_of(s) {
            None => Err(Err(shape_refusal_msg(s))),
            Some(sh) => match edge_fault(sh, o) {
                Some(why) => Err(Err("this is no edge jojobot can draw: "@ + why)),
                None => Ok(Some((sh, o))),
            },
        },
        (Some(_), None) => Err(Ok(shape_without_object_msg())),
        (None, Some(_)) => Err(Ok(object_without_shape_msg())),
    }
}

/// What a `derived_from` argument says: no source, the address of one, or
/// the refusal of a text that is no address.
pub open spec fn source_said(raw: Option<String>) -> Result<Option<(Seq<char>, Seq<char>)>, Seq<char>> {
    match raw {
        None => Ok(None),
        Some(d) => match address_of(d@) {
            Ok(a) => Ok(Some(a)),
            Err(why) => Err("this is no fact address: "@ + why),
        },
    }
}

/// **What a capture settles before any check-in runs**: the subject, the
/// provenance the caller named, the day (`None` is the run's day, which only
/// the edge reads), the edge and the source.
#[derive(Debug)]
pub struct CaptureOpening {
    pub subject: EntityId,
    pub provenance: Provenance,
    pub recorded_at: Option<Day>,
    pub edge: Option<Edge>,
    pub derived_from: Option<FactAddress>,
}

impl View for CaptureOpening {
    type V = (Seq<char>, Provenance, Option<Day>, Option<(EdgeShape, Seq<char>)>, Option<(Seq<char>, Seq<char>)>);

    open spec fn view(&self) -> Self::V {
        (
            self.subject@,
            self.provenance,
            self.recorded_at,
            match self.edge {
                Some(e) => Some((e.shape, e.object@)),
                None => None,
            },
            match self.derived_from {
                Some(a) => Some(a@),
                None => None,
            },
        )
    }
}

fn as_str_opt(s: &Option<String>) -> (r: Option<&str>)
    ensures
        match r {
            Some(t) => *s matches Some(u) && t@ == u@,
            None => s is None,
        },
{
    match s {
        Some(t) => Some(t.as_str()),
        None => None,
    }
}

/// **A capture's arguments, up to the check-in**: the provenance, the day,
/// the edge — half an edge is a misuse answered with a way forward — and the
/// source it was worked out from, each refused in that order when malformed.
pub fn capture_opening(args: &CaptureArgs) -> (r: Result<Result<CaptureOpening, BlockedAnswer>, McpError>)
    ensures
        match provenance_said(opt_text(args.provenance)) {
            Err(m) => refused(r, m),
            Ok(p) => match date_of(given_text(opt_text(args.recorded_at))) {
                Err(m) => refused(r, m),
                Ok(day) => match edge_said(opt_text(args.shape), opt_text(args.object)) {
                    Err(Err(m)) => refused(r, m),
                    Err(Ok(how)) => r matches Ok(Err(b)) && b.wf() && b@ == (
                        Seq::<char>::empty(),
                        Seq::<<EntityMatch as View>::V>::empty(),
                        how,
                    ),
                    Ok(edge) => match source_said(args.derived_from) {
                        Err(m) => refused(r, m),
                        Ok(source) => r matches Ok(Ok(o)) && o@ == (person_handle(args.subject@), p, day, edge, source),
                    },
                },
            },
        },
{
    let subject = EntityId::person(args.subject.as_str());
    let provenance = match parse_provenance(as_str_opt(&args.provenance)) {
        Ok(p) => p,
        Err(e) => return Err(e),
    };
    let recorded_at = match parse_date(as_str_opt(&args.recorded_at)) {
        Ok(d) => d,
        Err(e) => return Err(e),
    };
    let edge = match parse_edge(as_str_opt(&args.shape), as_str_opt(&args.object)) {
        Ok(Ok(edge)) => edge,
        Ok(Err(blocked)) => return Ok(Err(blocked)),
        Err(e) => return Err(e),
    };
    let derived_from = match &args.derived_from {
        None => None,
        Some(d) => match FactAddress::parse(d.as_str()) {
            Ok(a) => Some(a),
            Err(e) => return Err(memory_error(e)),
        },
    };
    Ok(Ok(CaptureOpening { subject, provenance, recorded_at, edge, derived_from }))
}

/// **The record a capture writes.** Its status is always active, and its
/// `recorded_at` is `None` when the run's day stands in.
#[derive(Debug)]
pub struct NewFact {
    pub subject: EntityId,
    pub content: String,
    pub details: Option<String>,
    pub provenance: Provenance,
    /// Left off, it follows the provenance.
    pub standing: Option<Standing>,
    pub recorded_at: Option<Day>,
    /// Only what the caller sent: never a default and never a derivation.
    pub happened_at: Option<Day>,
    pub edge: Option<Edge>,
    pub fields: Vec<(String, String)>,
    pub refs: Vec<EntityId>,
    pub derived_from: Option<FactAddress>,
    pub stale_after: Option<Day>,
}

/// The first of the arguments read after the check-in that is malformed:
/// the standing, the day it happened, the day it stops being good.
pub open spec fn fact_fault(args: CaptureArgs) -> Option<Seq<char>> {
    let standing_fault = match args.standing {
        Some(s) => match standing_outcome(s@) {
            Err(m) => Some(m),
            Ok(_) => None,
        },
        None => None,
    };
    let happened_fault = match date_of(given_text(opt_text(args.happened_at))) {
        Err(m) => Some(m),
        Ok(_) => None,
    };
    let stale_fault = match date_of(given_text(opt_text(args.stale_after))) {
        Err(m) => Some(m),
        Ok(_) => None,
    };
    if standing_fault is Some {
        standing_fault
    } else if happened_fault is Some {
        happened_fault
    } else {
        stale_fault
    }
}

/// The keys a capture sends.
pub open spec fn sent_fields(args: CaptureArgs) -> Seq<(String, String)> {
    match args.fields {
        Some(f) => f@,
        None => Seq::empty(),
    }
}

/// The entities a capture says it touches, each read as a handle.
pub open spec fn refs_said(args: CaptureArgs) -> Seq<Seq<char>> {
    match args.refs {
        Some(r) => r@.map_values(|t: String| person_handle(trim(t@))),
        None => Seq::empty(),
    }
}

/// A day a text names, once it is known to name one or none.
pub open spec fn day_named(raw: Option<String>) -> Option<Day> {
    match date_of(given_text(opt_text(raw))) {
        Ok(d) => d,
        Err(_) => None,
    }
}

fn refs_of(refs: &Option<Vec<String>>) -> (r: Vec<EntityId>)
    ensures
        r@.map_values(|id: EntityId| id@) == match *refs {
            Some(v) => v@.map_values(|t: String| person_handle(trim(t@))),
            None => Seq::empty(),
        },
{
    let mut out: Vec<EntityId> = Vec::new();
    match refs {
        None => {
            assert(out@.map_values(|id: EntityId| id@) =~= Seq::empty());
            out
        },
        Some(v) => {
            let mut i: usize = 0;
            assert(out@.map_values(|id: EntityId| id@) =~= v@.take(0).map_values(|t: String| person_handle(trim(t@))));
            while i < v.len()
                invariant
                    i <= v.len(),
                    out@.map_values(|id: EntityId| id@) == v@.take(i as int).map_values(|t: String| person_handle(trim(t@))),
                decreases v.len() - i,
            {
                let t = string_of(&trimmed_str(v[i].as_str()));
                let id = EntityId::person(t.as_str());
                proof {
                    assert(v@.take(i + 1) =~= v@.take(i as int).push(v@[i as int]));
                    assert(out@.push(id).map_values(|id: EntityId| id@) =~= out@.map_values(|id: EntityId| id@).push(id@));
                    assert(v@.take(i + 1).map_values(|t: String| person_handle(trim(t@))) =~= v@.take(i as int).map_values(|t: String| person_handle(trim(t@))).push(person_handle(trim(v@[i as int]@))));
                }
                out.push(id);
                i = i + 1;
            }
            assert(v@.take(v.len() as int) =~= v@);
            out
        },
    }
}

/// **The record a capture writes, once any check-in has computed its keys.**
/// `computed` is what the check-in computed, written over what the caller
/// sent — the record's fields are a map, and stay one; and **jojobot's own arithmetic is jojobot's, whatever the caller said
/// about their claim** — a record carrying a check-in's computed schedule is
/// written as an inference, because only half of it has anybody's word
/// behind it.
pub fn new_fact(args: CaptureArgs, opening: CaptureOpening, computed: Vec<(String, String)>) -> (r: Result<NewFact, McpError>)
    ensures
        match fact_fault(args) {
            Some(m) => refused(r, m),
            None => r matches Ok(f) && {
                &&& f.subject == opening.subject
                &&& f.content == args.content
                &&& f.details == args.details
                &&& f.provenance == if args.check_in is Some {
                    Provenance::Inference
                } else {
                    opening.provenance
                }
                &&& f.standing == match args.standing {
                    Some(s) => match standing_outcome(s@) {
                        Ok(v) => Some(v),
                        Err(_) => None,
                    },
                    None => None,
                }
                &&& f.recorded_at == opening.recorded_at
                &&& f.happened_at == day_named(args.happened_at)
                &&& f.edge == opening.edge
                &&& field_map(f.fields@) == field_map(sent_fields(args)).union_prefer_right(field_map(computed@))
                &&& (keys_unique(sent_fields(args)) && keys_unique(computed@) ==> keys_unique(f.fields@))
                &&& f.refs@.map_values(|id: EntityId| id@) == refs_said(args)
                &&& f.derived_from == opening.derived_from
                &&& f.stale_after == day_named(args.stale_after)
            },
        },
{
    let standing = match &args.standing {
        Some(s) => match parse_standing(s.as_str()) {
            Ok(v) => Some(v),
            Err(e) => return Err(e),
        },
        None => None,
    };
    let happened_at = match parse_date(as_str_opt(&args.happened_at)) {
        Ok(d) => d,
        Err(e) => return Err(e),
    };
    let stale_after = match parse_date(as_str_opt(&args.stale_after)) {
        Ok(d) => d,
        Err(e) => return Err(e),
    };
    let refs = refs_of(&args.refs);
    let provenance = if args.check_in.is_some() {
        Provenance::Inference
    } else {
        opening.provenance
    };
    let CaptureArgs { content, details, fields, .. } = args;
    let sent = match fields {
        Some(f) => f,
        None => Vec::new(),
    };
    let fields = overlay(&sent, &computed);
    let CaptureOpening { subject, provenance: _, recorded_at, edge, derived_from } = opening;
    Ok(NewFact {
        subject,
        content,
        details,
        provenance,
        standing,
        recorded_at,
        happened_at,
        edge,
        fields,
        refs,
        derived_from,
        stale_after,
    })
}

} // verus!
