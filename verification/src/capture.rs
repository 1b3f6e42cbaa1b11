//! `capture` — remember one fact about an entity. What is here is what the
//! verb decides around the store's write: what a caller declared that the
//! record does not carry, the gates in front of a check-in, and the sentence
//! that says what the capture left standing.

use vstd::prelude::*;
use crate::claims::{address_text_of, day_text, day_text_of, day_wf, keys_of, value_at, value_under, Fact, FactAddress};
use crate::declined::{blocked_body, BlockedAnswer};
use crate::parse::refused;
use crate::text::{
    chars_of, decimal, decimal_text, is_blank, join, push_str, same_text, spells, text, trimmed_str};
use crate::vocab::{handle_kind, EntityId, EntityMatch, FactStatus, McpError};

verus! {

/// Not a rhythm.
pub open spec fn not_a_rhythm_msg(subject: Seq<char>) -> Seq<char> {
    "Nothing was written. A check-in records a turn of a recurring loop, so its subject must be a rhythm, and '"@ + subject + "' is not one. Capture this as an ordinary claim without check_in, or name the rhythm this was a turn of."@
}

/// Doubled key.
pub open spec fn doubled_key_msg(key: Seq<char>) -> Seq<char> {
    "Nothing was written. This call sends '"@ + key + "' in fields AND asks for a check-in, and a check-in computes '"@ + key + "' itself. Send the check-in without that key, or send the fields without check_in and keep the arithmetic."@
}

/// Check in refused.
pub open spec fn check_in_refused_msg(why: Seq<char>) -> Seq<char> {
    "Nothing was written: "@ + why + "."@
}

/// Check in short.
pub open spec fn check_in_short_msg(why: Seq<char>, subject: Seq<char>) -> Seq<char> {
    "Nothing was written: "@ + why + ". Capture the missing key on '"@ + subject + "', then send this check-in again."@
}
fn not_a_rhythm_text(subject: &str) -> (m: String)
    ensures
        m@ == not_a_rhythm_msg(subject@),
{
    let mut m = text("Nothing was written. A check-in records a turn of a recurring loop, so its subject must be a rhythm, and '");
    push_str(&mut m, subject);
    push_str(&mut m, "' is not one. Capture this as an ordinary claim without check_in, or name the rhythm this was a turn of.");
    m
}

fn doubled_key_text(key: &str) -> (m: String)
    ensures
        m@ == doubled_key_msg(key@),
{
    let mut m = text("Nothing was written. This call sends '");
    push_str(&mut m, key);
    push_str(&mut m, "' in fields AND asks for a check-in, and a check-in computes '");
    push_str(&mut m, key);
    push_str(&mut m, "' itself. Send the check-in without that key, or send the fields without check_in and keep the arithmetic.");
    m
}

fn check_in_refused_text(why: &str) -> (m: String)
    ensures
        m@ == check_in_refused_msg(why@),
{
    let mut m = text("Nothing was written: ");
    push_str(&mut m, why);
    push_str(&mut m, ".");
    m
}

fn check_in_short_text(why: &str, subject: &str) -> (m: String)
    ensures
        m@ == check_in_short_msg(why@, subject@),
{
    let mut m = text("Nothing was written: ");
    push_str(&mut m, why);
    push_str(&mut m, ". Capture the missing key on '");
    push_str(&mut m, subject);
    push_str(&mut m, "', then send this check-in again.");
    m
}

/// Arguments to `capture`: one fact about an entity.
#[derive(Debug)]
pub struct CaptureArgs {
    /// The entity the fact is about — any `kind:slug` id (a bare handle is a
    /// person). It must already exist.
    pub subject: String,
    /// The crisp claim to remember.
    pub content: String,
    /// Nuance, the why — the description under the claim.
    pub details: Option<String>,
    /// `testimony`, `observation` or `inference` (the default).
    pub provenance: Option<String>,
    /// `settled` or `open`; left off, it follows the provenance.
    pub standing: Option<String>,
    /// The day the claim was made, `YYYY-MM-DD`; the run's day when omitted.
    pub recorded_at: Option<String>,
    /// The day the thing the claim is about happened — never filled in.
    pub happened_at: Option<String>,
    /// The shape of the edge this fact draws; requires `object`.
    pub shape: Option<String>,
    /// The entity the edge points at; requires `shape`.
    pub object: Option<String>,
    /// The claim this one was derived from, as its address.
    pub derived_from: Option<String>,
    /// The record's fields, a flat bag of key/value pairs.
    pub fields: Option<Vec<(String, String)>>,
    /// The entities this record touches, as `kind:slug`.
    pub refs: Option<Vec<String>>,
    /// Record this as a check-in on a rhythm: `ran`, `skipped` or `snoozed`.
    pub check_in: Option<String>,
    /// The day after which this reading stops being good.
    pub stale_after: Option<String>,
    /// The caller's session id.
    pub sid: Option<String>,
}

/// **One value a write declared that the record does not carry** — what was
/// sent, what is stored, and why, when this verb has a reason.
#[derive(Debug)]
pub struct Difference {
    pub field: String,
    pub sent: String,
    pub stored: String,
    pub because: Option<String>,
}

impl View for Difference {
    type V = (Seq<char>, Seq<char>, Seq<char>, Option<Seq<char>>);

    open spec fn view(&self) -> Self::V {
        (
            self.field@,
            self.sent@,
            self.stored@,
            match self.because {
                Some(b) => Some(b@),
                None => None,
            },
        )
    }
}

/// The difference between what was sent and what is stored, when there is
/// one. **Only what the caller SENT is compared**: a value left off was
/// defaulted, not overruled.
pub open spec fn difference_of(
    field: Seq<char>,
    sent: Option<Seq<char>>,
    stored: Seq<char>,
    because: Option<Seq<char>>,
) -> Option<(Seq<char>, Seq<char>, Seq<char>, Option<Seq<char>>)> {
    match sent {
        Some(s) => if s != stored {
            Some((field, s, stored, because))
        } else {
            None
        },
        None => None,
    }
}

/// The text of an optional string.
pub open spec fn opt_text(s: Option<String>) -> Option<Seq<char>> {
    match s {
        Some(t) => Some(t@),
        None => None,
    }
}

/// The text of an optional `&str`.
pub open spec fn opt_str(s: Option<&str>) -> Option<Seq<char>> {
    match s {
        Some(t) => Some(t@),
        None => None,
    }
}

impl Difference {
    /// The difference between what was sent and what is stored, with no
    /// reason given.
    pub fn between(field: &str, sent: Option<&str>, stored: &str) -> (d: Option<Difference>)
        ensures
            match difference_of(field@, opt_str(sent), stored@, None) {
                Some(v) => d matches Some(got) && got@ == v,
                None => d is None,
            },
    {
        Difference::converted(field, sent, stored, None)
    }

    /// The difference between what was sent and what is stored, with the
    /// reason this verb replaced the value, when it has one.
    pub fn converted(field: &str, sent: Option<&str>, stored: &str, because: Option<&str>) -> (d: Option<Difference>)
        ensures
            match difference_of(field@, opt_str(sent), stored@, opt_str(because)) {
                Some(v) => d matches Some(got) && got@ == v,
                None => d is None,
            },
    {
        match sent {
            Some(s) => {
                if same_text(s, stored) {
                    None
                } else {
                    Some(Difference {
                        field: text(field),
                        sent: text(s),
                        stored: text(stored),
                        because: match because {
                            Some(b) => Some(text(b)),
                            None => None,
                        },
                    })
                }
            },
            None => None,
        }
    }
}

/// The `Some`s of a sequence of options, in order.
pub open spec fn somes<T>(s: Seq<Option<T>>) -> Seq<T>
    decreases s.len(),
{
    if s.len() == 0 {
        Seq::empty()
    } else {
        let rest = somes(s.drop_first());
        match s[0] {
            Some(v) => seq![v] + rest,
            None => rest,
        }
    }
}

/// **Why a check-in stores a derivation whatever the caller declared**: it
/// holds a schedule jojobot worked out beside the caller's sentence.
pub const WHY_A_CHECK_IN_DERIVES: &'static str = "a check-in stores the schedule jojobot worked out beside your sentence, and a record carrying both is a derivation";

/// **The other direction**: absent a check-in, a rhythm's basis stands
/// exactly as the caller typed it.
pub const WHY_THIS_BASIS_IS_HAND_TYPED: &'static str = "counts_from on this record is exactly what you sent — hand-typed, not derived, because this capture asked for no check_in. A check-in is what stores the schedule jojobot works out beside your sentence; capture one on this rhythm and jojobot computes it instead.";

/// **The mirror**: the one check-in where the basis came from the check-in
/// itself.
pub const WHY_THIS_BASIS_WAS_DERIVED: &'static str = "This check-in opened the loop: it held a cadence and no basis, so counts_from was derived from this check-in's own date,";

/// What a capture declared, taken before the record is assembled.
#[derive(Debug)]
pub struct Declared {
    pub subject: String,
    pub provenance: Option<String>,
    pub standing: Option<String>,
    pub recorded_at: Option<String>,
}

fn copy_text(s: &Option<String>) -> (r: Option<String>)
    ensures
        opt_text(r) == opt_text(*s),
{
    match s {
        Some(t) => Some(t.clone()),
        None => None,
    }
}

fn as_str_opt(s: &Option<String>) -> (r: Option<&str>)
    ensures
        opt_str(r) == opt_text(*s),
{
    match s {
        Some(t) => Some(t.as_str()),
        None => None,
    }
}

/// What a capture declared that the stored record does not carry.
pub open spec fn not_stored_of(
    d: (Seq<char>, Option<Seq<char>>, Option<Seq<char>>, Option<Seq<char>>),
    fact: Fact,
    converted: Option<Seq<char>>,
) -> Seq<(Seq<char>, Seq<char>, Seq<char>, Option<Seq<char>>)> {
    somes(
        seq![
            difference_of("subject"@, Some(d.0), fact.subject@, None),
            difference_of("provenance"@, d.1, fact.provenance.token(), converted),
            difference_of("standing"@, d.2, fact.standing.token(), None),
            difference_of("recorded_at"@, d.3, fact.recorded_at_text(), None),
        ],
    )
}

impl Fact {
    /// The day the claim was made, as an answer writes it.
    pub open spec fn recorded_at_text(self) -> Seq<char> {
        day_text_of(self.recorded_at)
    }
}

impl Declared {
    /// The four declared values, as text.
    pub open spec fn values(self) -> (Seq<char>, Option<Seq<char>>, Option<Seq<char>>, Option<Seq<char>>) {
        (self.subject@, opt_text(self.provenance), opt_text(self.standing), opt_text(self.recorded_at))
    }

    /// Taken before the record is assembled, because assembling it consumes
    /// what the caller sent.
    pub fn of(args: &CaptureArgs) -> (d: Declared)
        ensures
            d.values() == (args.subject@, opt_text(args.provenance), opt_text(args.standing), opt_text(args.recorded_at)),
    {
        Declared {
            subject: args.subject.clone(),
            provenance: copy_text(&args.provenance),
            standing: copy_text(&args.standing),
            recorded_at: copy_text(&args.recorded_at),
        }
    }

    /// **Every value this capture declared that the record does not carry.**
    /// `converted` is the check-in's reason, given only when this call asked
    /// for one.
    pub fn not_stored(&self, fact: &Fact, converted: Option<&'static str>) -> (found: Vec<Difference>)
        requires
            day_wf(fact.recorded_at),
        ensures
            found@.map_values(|d: Difference| d@) == not_stored_of(self.values(), *fact, opt_str(converted)),
    {
        let recorded = day_text(fact.recorded_at);
        let subject = Difference::between("subject", Some(self.subject.as_str()), fact.subject.0.as_str());
        let provenance = Difference::converted(
            "provenance",
            as_str_opt(&self.provenance),
            fact.provenance.as_token(),
            converted,
        );
        let standing = Difference::between("standing", as_str_opt(&self.standing), fact.standing.as_token());
        let recorded_at = Difference::between("recorded_at", as_str_opt(&self.recorded_at), recorded.as_str());
        let ghost all = seq![
            difference_of("subject"@, Some(self.subject@), fact.subject@, None),
            difference_of("provenance"@, opt_text(self.provenance), fact.provenance.token(), opt_str(converted)),
            difference_of("standing"@, opt_text(self.standing), fact.standing.token(), None),
            difference_of("recorded_at"@, opt_text(self.recorded_at), fact.recorded_at_text(), None),
        ];
        let mut found: Vec<Difference> = Vec::new();
        let ghost last = all.subrange(3, 4);
        assert(last.drop_first() =~= Seq::<Option<(Seq<char>, Seq<char>, Seq<char>, Option<Seq<char>>)>>::empty());
        assert(somes(last.drop_first()) =~= Seq::empty());
        assert(last[0] == all[3]);
        if let Some(d) = recorded_at {
            found.push(d);
        }
        assert(found@.map_values(|d: Difference| d@) =~= somes(all.subrange(3, 4)));
        let ghost after_standing = all.subrange(2, 4);
        assert(after_standing.drop_first() =~= all.subrange(3, 4));
        if let Some(d) = standing {
            found.insert(0, d);
        }
        assert(found@.map_values(|d: Difference| d@) =~= somes(after_standing));
        let ghost after_provenance = all.subrange(1, 4);
        assert(after_provenance.drop_first() =~= after_standing);
        if let Some(d) = provenance {
            found.insert(0, d);
        }
        assert(found@.map_values(|d: Difference| d@) =~= somes(after_provenance));
        assert(all.drop_first() =~= after_provenance);
        if let Some(d) = subject {
            found.insert(0, d);
        }
        assert(found@.map_values(|d: Difference| d@) =~= somes(all));
        found
    }
}

/// A turn of a rhythm: whether it happened, and whether the cycle is consumed.
#[derive(Debug, Clone, Copy, PartialEq, Eq, Structural)]
pub enum Outcome {
    /// It happened.
    Ran,
    /// It did not happen, and the cycle advances anyway.
    Skipped,
    /// It did not happen, and the rhythm comes back at its own date.
    Snoozed,
}

/// The outcome a token names.
pub open spec fn outcome_of(t: Seq<char>) -> Option<Outcome> {
    if t == "ran"@ {
        Some(Outcome::Ran)
    } else if t == "skipped"@ {
        Some(Outcome::Skipped)
    } else if t == "snoozed"@ {
        Some(Outcome::Snoozed)
    } else {
        None
    }
}

/// The keys a check-in computes, which a caller therefore does not send.
pub open spec fn computed_keys() -> Seq<Seq<char>> {
    seq!["outcome"@, "last_check_in"@, "counts_from"@]
}

/// The first computed key the caller sent too, if any.
pub open spec fn doubled_key(sent: Seq<Seq<char>>) -> Option<Seq<char>> {
    if sent.contains("outcome"@) {
        Some("outcome"@)
    } else if sent.contains("last_check_in"@) {
        Some("last_check_in"@)
    } else if sent.contains("counts_from"@) {
        Some("counts_from"@)
    } else {
        None
    }
}

/// The refusal of a token that is no outcome.
pub open spec fn no_outcome_msg() -> Seq<char> {
    "check_in takes one of: ran, skipped, snoozed"@
}

fn sent_key(fields: &Vec<(String, String)>, key: &str) -> (b: bool)
    ensures
        b == keys_of(fields@).contains(key@),
{
    let mut i: usize = 0;
    while i < fields.len()
        invariant
            i <= fields.len(),
            forall|j: int| 0 <= j < i ==> keys_of(fields@)[j] != key@,
        decreases fields.len() - i,
    {
        if same_text(fields[i].0.as_str(), key) {
            assert(keys_of(fields@)[i as int] == key@);
            return true;
        }
        i = i + 1;
    }
    assert(!keys_of(fields@).contains(key@)) by {
        if keys_of(fields@).contains(key@) {
            let j = choose|j: int| 0 <= j < keys_of(fields@).len() && keys_of(fields@)[j] == key@;
            assert(keys_of(fields@)[j] != key@);
        }
    }
    false
}

/// **The gates in front of a check-in's arithmetic**: a token that is no
/// outcome is a malformed call; a subject that is no rhythm, or a call that
/// sends a key the check-in computes, is refused with nothing written.
pub fn check_in_gate(subject: &EntityId, outcome: &str, sent: &Vec<(String, String)>) -> (r: Result<Result<Outcome, BlockedAnswer>, McpError>)
    ensures
        match outcome_of(outcome@) {
            None => refused(r, no_outcome_msg()),
            Some(o) => if handle_kind(subject@) != Some("rhythm"@) {
                r matches Ok(Err(b)) && b.wf() && b@ == (subject@, Seq::<<EntityMatch as View>::V>::empty(), not_a_rhythm_msg(subject@))
            } else {
                match doubled_key(keys_of(sent@)) {
                    Some(key) => r matches Ok(Err(b)) && b.wf() && b@ == (
                        subject@,
                        Seq::<<EntityMatch as View>::V>::empty(),
                        doubled_key_msg(key),
                    ),
                    None => r == Ok::<Result<Outcome, BlockedAnswer>, McpError>(Ok(o)),
                }
            },
        },
{
    let token = chars_of(outcome);
    let o = if spells(&token, "ran") {
        Outcome::Ran
    } else if spells(&token, "skipped") {
        Outcome::Skipped
    } else if spells(&token, "snoozed") {
        Outcome::Snoozed
    } else {
        return Err(McpError::invalid_params(text("check_in takes one of: ran, skipped, snoozed")));
    };
    let is_rhythm = match subject.kind() {
        Some(k) => spells(&chars_of(k.0.as_str()), "rhythm"),
        None => false,
    };
    if !is_rhythm {
        let how = not_a_rhythm_text(subject.0.as_str());
        proof {
            reveal_strlit("Nothing was written. A check-in records a turn of a recurring loop, so its subject must be a rhythm, and '");
        }
        return Ok(Err(blocked_body(subject, Vec::new(), how)));
    }
    let doubled = if sent_key(sent, "outcome") {
        Some("outcome")
    } else if sent_key(sent, "last_check_in") {
        Some("last_check_in")
    } else if sent_key(sent, "counts_from") {
        Some("counts_from")
    } else {
        None
    };
    match doubled {
        Some(key) => {
            let how = doubled_key_text(key);
            proof {
                reveal_strlit("Nothing was written. This call sends '");
            }
            Ok(Err(blocked_body(subject, Vec::new(), how)))
        },
        None => Ok(Ok(o)),
    }
}

/// **A refusal the schedule arithmetic gave**, as the answer. One that names
/// its own way through is carried as it is; one short of a key sends the
/// caller to capture that key on the rhythm.
pub fn check_in_refusal(subject: &EntityId, why: &str, names_its_own_way_through: bool) -> (b: BlockedAnswer)
    ensures
        b.wf(),
        b@ == (
            subject@,
            Seq::<<EntityMatch as View>::V>::empty(),
            if names_its_own_way_through {
                check_in_refused_msg(why@)
            } else {
                check_in_short_msg(why@, subject@)
            },
        ),
{
    proof {
        reveal_strlit("Nothing was written: ");
    }
    let how = if names_its_own_way_through {
        check_in_refused_text(why)
    } else {
        check_in_short_text(why, subject.0.as_str())
    };
    blocked_body(subject, Vec::new(), how)
}

/// Whether a check-in opened the loop: the thing held no basis — none, or
/// only blank space — and the check-in computed one.
pub open spec fn opened_the_loop_of(held_basis: Option<Seq<char>>, computed_basis: bool) -> bool {
    let had_a_basis = held_basis matches Some(b) && !is_blank(b);
    !had_a_basis && computed_basis
}

/// **Observed rather than restated**: whether this check-in opened the loop
/// is read off what changed.
pub fn opened_the_loop(held: &Vec<(String, String)>, computed: &Vec<(String, String)>) -> (b: bool)
    ensures
        b == opened_the_loop_of(value_under(held@, "counts_from"@), value_under(computed@, "counts_from"@) is Some),
{
    let had_a_basis = match value_at(held, "counts_from") {
        Some(v) => trimmed_str(v.as_str()).len() > 0,
        None => false,
    };
    !had_a_basis && value_at(computed, "counts_from").is_some()
}

/// The count of accounts standing, when the store could say.
pub open spec fn standing_note_of(subject: Seq<char>, standing: Option<nat>) -> Seq<char> {
    match standing {
        Some(n) => " "@ + decimal(n) + " accounts now stand on "@ + subject + "."@,
        None => Seq::empty(),
    }
}

/// The keys the record carries, and what that moved.
pub open spec fn keys_note_of(subject: Seq<char>, fields: Seq<(String, String)>) -> Seq<char> {
    if fields.len() == 0 {
        Seq::empty()
    } else {
        " This record carries "@ + join(keys_of(fields), ", "@) + ", so what those keys answer for "@ + subject
            + " has moved to it; the records that set them are untouched and still say what they said."@
    }
}

/// Where the rhythm's basis came from, when that is worth saying.
pub open spec fn basis_note_of(subject: Seq<char>, fields: Seq<(String, String)>, checked_in: bool, opened: bool) -> Seq<char> {
    if opened {
        let derived = match value_under(fields, "counts_from"@) {
            Some(v) => v,
            None => Seq::empty(),
        };
        " "@ + WHY_THIS_BASIS_WAS_DERIVED@ + " "@ + derived + ". Later cycles advance from it."@
    } else if !checked_in && handle_kind(subject) == Some("rhythm"@) && value_under(fields, "counts_from"@) is Some {
        " "@ + WHY_THIS_BASIS_IS_HAND_TYPED@
    } else {
        Seq::empty()
    }
}

/// That the claim cited as the source is archived, when it is.
pub open spec fn source_note_of(archived_source: Option<Seq<char>>) -> Seq<char> {
    match archived_source {
        Some(source) => " The claim this was derived from, "@ + source
            + ", is archived — read it to judge whether the citation still holds."@,
        None => Seq::empty(),
    }
}

/// **What a caller's own capture did to the thing it named.** It appended;
/// it edited and removed nothing — and the keys it carries have moved what
/// the thing holds, which is named so that "nothing was changed" is never a
/// promise this verb cannot keep.
pub open spec fn capture_left_standing(
    subject: Seq<char>,
    standing: Option<nat>,
    fields: Seq<(String, String)>,
    checked_in: bool,
    opened: bool,
    archived_source: Option<Seq<char>>,
) -> Seq<char> {
    "Recorded as an additional claim."@ + standing_note_of(subject, standing)
        + " No record was edited and none was removed."@ + keys_note_of(subject, fields)
        + basis_note_of(subject, fields, checked_in, opened) + source_note_of(archived_source)
}

fn keys_text(fields: &Vec<(String, String)>) -> (s: String)
    ensures
        s@ == join(keys_of(fields@), ", "@),
{
    let ghost all = keys_of(fields@);
    let mut s = String::new();
    let mut i: usize = 0;
    while i < fields.len()
        invariant
            i <= fields.len(),
            all == keys_of(fields@),
            s@ == join(all.subrange(0, i as int), ", "@),
        decreases fields.len() - i,
    {
        let ghost before = all.subrange(0, i as int);
        if i > 0 {
            push_str(&mut s, ", ");
        }
        push_str(&mut s, fields[i].0.as_str());
        i = i + 1;
        proof {
            let now = all.subrange(0, i as int);
            assert(now.drop_last() =~= before);
            if i > 1 {
                assert(join(now, ", "@) == join(before, ", "@) + ", "@ + now.last());
            } else {
                assert(join(now, ", "@) == now[0]);
                assert(s@ =~= now[0]);
            }
        }
    }
    assert(all.subrange(0, fields@.len() as int) =~= all);
    s
}

fn standing_note(subject: &str, standing: Option<usize>) -> (s: String)
    ensures
        s@ == standing_note_of(subject@, match standing {
            Some(n) => Some(n as nat),
            None => None,
        }),
{
    match standing {
        Some(n) => {
            let mut s = text(" ");
            let count = decimal_text(n);
            push_str(&mut s, count.as_str());
            push_str(&mut s, " accounts now stand on ");
            push_str(&mut s, subject);
            push_str(&mut s, ".");
            s
        },
        None => String::new(),
    }
}

fn keys_note(subject: &str, fields: &Vec<(String, String)>) -> (s: String)
    ensures
        s@ == keys_note_of(subject@, fields@),
{
    if fields.len() == 0 {
        String::new()
    } else {
        let mut s = text(" This record carries ");
        let keys = keys_text(fields);
        push_str(&mut s, keys.as_str());
        push_str(&mut s, ", so what those keys answer for ");
        push_str(&mut s, subject);
        push_str(&mut s, " has moved to it; the records that set them are untouched and still say what they said.");
        s
    }
}

fn basis_note(subject: &EntityId, fields: &Vec<(String, String)>, checked_in: bool, opened: bool) -> (s: String)
    ensures
        s@ == basis_note_of(subject@, fields@, checked_in, opened),
{
    let basis = value_at(fields, "counts_from");
    if opened {
        let mut s = text(" ");
        push_str(&mut s, WHY_THIS_BASIS_WAS_DERIVED);
        push_str(&mut s, " ");
        if let Some(v) = basis {
            push_str(&mut s, v.as_str());
        } else {
            assert(s@ =~= s@ + Seq::<char>::empty());
        }
        push_str(&mut s, ". Later cycles advance from it.");
        s
    } else {
        let is_rhythm = match subject.kind() {
            Some(k) => spells(&chars_of(k.0.as_str()), "rhythm"),
            None => false,
        };
        if !checked_in && is_rhythm && basis.is_some() {
            let mut s = text(" ");
            push_str(&mut s, WHY_THIS_BASIS_IS_HAND_TYPED);
            s
        } else {
            String::new()
        }
    }
}

fn source_note(archived_source: Option<&FactAddress>) -> (s: String)
    ensures
        s@ == source_note_of(match archived_source {
            Some(a) => Some(address_text_of(a@)),
            None => None,
        }),
{
    match archived_source {
        Some(source) => {
            let mut s = text(" The claim this was derived from, ");
            let at = source.to_text();
            push_str(&mut s, at.as_str());
            push_str(&mut s, ", is archived — read it to judge whether the citation still holds.");
            s
        },
        None => String::new(),
    }
}

/// **What a caller's own capture did to the thing it named**, given what the
/// store said after the write: how many accounts stand on the subject (none
/// when the store could not say), and the address of the claim this one was
/// derived from when that claim is archived.
pub fn what_a_capture_left_standing(
    fact: &Fact,
    standing: Option<usize>,
    checked_in: bool,
    opened_the_loop: bool,
    archived_source: Option<&FactAddress>,
) -> (s: String)
    ensures
        s@ == capture_left_standing(
            fact.subject@,
            match standing {
                Some(n) => Some(n as nat),
                None => None,
            },
            fact.fields@,
            checked_in,
            opened_the_loop,
            match archived_source {
                Some(a) => Some(address_text_of(a@)),
                None => None,
            },
        ),
{
    let subject = fact.subject.0.as_str();
    let mut s = text("Recorded as an additional claim.");
    let count = standing_note(subject, standing);
    push_str(&mut s, count.as_str());
    push_str(&mut s, " No record was edited and none was removed.");
    let keys = keys_note(subject, &fact.fields);
    push_str(&mut s, keys.as_str());
    let basis = basis_note(&fact.subject, &fact.fields, checked_in, opened_the_loop);
    push_str(&mut s, basis.as_str());
    let source = source_note(archived_source);
    push_str(&mut s, source.as_str());
    s
}

/// How many of a subject's records are active.
pub open spec fn active_in(statuses: Seq<FactStatus>) -> nat
    decreases statuses.len(),
{
    if statuses.len() == 0 {
        0
    } else {
        active_in(statuses.drop_last()) + if statuses.last() == FactStatus::Active {
            1nat
        } else {
            0nat
        }
    }
}

/// **How many accounts now stand on a subject**: its active records, counted
/// from the statuses the store read back — nothing when the store could not
/// say.
pub fn accounts_standing(recalled: Option<&[FactStatus]>) -> (n: Option<usize>)
    ensures
        match recalled {
            Some(s) => n == Some(active_in(s@) as usize) && active_in(s@) <= s@.len(),
            None => n is None,
        },
{
    match recalled {
        None => None,
        Some(s) => {
            let mut count: usize = 0;
            let mut i: usize = 0;
            while i < s.len()
                invariant
                    i <= s.len(),
                    count == active_in(s@.take(i as int)),
                    count <= i,
                decreases s.len() - i,
            {
                proof {
                    assert(s@.take(i + 1).drop_last() =~= s@.take(i as int));
                    assert(s@.take(i + 1).last() == s@[i as int]);
                }
                if s[i] == FactStatus::Active {
                    count = count + 1;
                }
                i = i + 1;
            }
            assert(s@.take(s.len() as int) =~= s@);
            Some(count)
        },
    }
}

} // verus!
