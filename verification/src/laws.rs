//! **What holds of the memory surface as a whole** — across every input, or
//! across two of its functions. Each is stated over the same spec functions
//! the functions' own contracts use, and proved from them.

use vstd::prelude::*;
use crate::claims::{address_of, address_text_of};
use crate::entities::box_for;
use crate::claims::value_under;
use crate::capture::difference_of;
use crate::declare_type::{field_said, fields_said, fields_view, pairs_view, sent_sets_of, set_label, trimmed_set, trimmed_sets_of, FieldArgs};
use crate::types::Field;
use crate::text::join;
use crate::due::projected_of;
use crate::capture::doubled_key;
use crate::declare_type::{holds_of, value_type_named};
use crate::types::ValueType;
use crate::search::{both_types_msg, mail_excluded, query_fault, unnarrowed_msg, MailExcluded, SearchQuery};
use crate::parse::{compare_of, edge_fault};
use crate::vocab::{Boot, Clock, Compare, Direction, Scope};
use crate::capture::{outcome_of, Outcome};
use crate::declare_type::fold_said;
use crate::types::Fold;
use crate::parse::{boot_of, clock_of, direction_of, scope_of};
use crate::claims::{field_map, keys_of, keys_unique};
use crate::declined::{declined_answer, error_code_of, error_message_of, is_failure, store_failed_text, MemoryError};
use crate::new_fact::{edge_said, provenance_said};
use crate::parse::{
    boot_outcome, bot_handle, clock_outcome, compare_outcome, date_outcome, day_outcome,
    direction_outcome, one_provenance_outcome, scope_outcome, standing_outcome, status_outcome,
};
use crate::text::{first_index, holds, is_blank, is_space, lemma_first_index, split_once, trim, trim_end, trim_start};
use crate::vocab::{handle_kind, is_word, person_handle, shape_of, word_char, EdgeShape, ErrorCode, FactStatus, Provenance, Standing};

verus! {

/// **Blank is absent**, on every argument that reads this way: an argument
/// sent as white space says exactly what the argument left off says — for a
/// direction, a scope, a comparison, a boot, a date on a write, a run's day,
/// a clock, a provenance and either half of an edge.
pub proof fn law_blank_is_absent(s: &str, other: Option<Seq<char>>)
    requires
        is_blank(s@),
    ensures
        direction_outcome(Some(s)) == direction_outcome(None),
        scope_outcome(Some(s)) == scope_outcome(None),
        compare_outcome(Some(s)) == compare_outcome(None),
        boot_outcome(Some(s)) == boot_outcome(None),
        date_outcome(Some(s)) == date_outcome(None),
        day_outcome(Some(s)) == day_outcome(None),
        clock_outcome(Some(s)) == clock_outcome(None),
        provenance_said(Some(s@)) == provenance_said(None),
        edge_said(Some(s@), other) == edge_said(None, other),
        edge_said(other, Some(s@)) == edge_said(other, None),
{
}

/// A text whose ends are not white space trims to itself.
proof fn lemma_trim_unspaced(s: Seq<char>)
    requires
        s.len() > 0,
        !is_space(s[0]),
        !is_space(s.last()),
    ensures
        trim(s) == s,
{
    assert(trim_start(s) == s);
    assert(trim_end(s) == s);
}

/// **Every token a value is written with reads back as that value**: a
/// provenance, a standing, an edge shape, and each lifecycle status a caller
/// may name. `superseded` is left out: it is written on answers, and a caller
/// who sends it is told the status is retired.
pub proof fn law_every_token_reads_back(p: Provenance, s: Standing, shape: EdgeShape, status: FactStatus)
    requires
        status != FactStatus::Superseded,
    ensures
        one_provenance_outcome(p.token()) == Ok::<Provenance, Seq<char>>(p),
        standing_outcome(s.token()) == Ok::<Standing, Seq<char>>(s),
        shape_of(shape.token()) == Some(shape),
        status_outcome(status.token()) == Ok::<FactStatus, Seq<char>>(status),
{
    reveal_strlit("testimony");
    reveal_strlit("observation");
    reveal_strlit("inference");
    reveal_strlit("settled");
    reveal_strlit("open");
    reveal_strlit("active");
    reveal_strlit("archived");
    reveal_strlit("location");
    reveal_strlit("membership");
    reveal_strlit("attendance");
    reveal_strlit("about");
    reveal_strlit("connection");
    assert("location"@[0] == 'l' && "membership"@[0] == 'm' && "attendance"@[0] == 'a');
    assert("about"@[0] == 'a' && "about"@.len() == 5 && "attendance"@.len() == 10);
    assert("connection"@[0] == 'c');
    lemma_trim_unspaced(p.token());
    lemma_trim_unspaced(s.token());
    lemma_trim_unspaced(status.token());
}

/// **A store failure does not carry the store's own words**: whatever the
/// store said, the caller is told the same thing — that it was the store, and
/// to try once more — as an internal error.
pub proof fn law_a_store_failure_says_only_that_it_failed(detail: MemoryError, other: MemoryError)
    requires
        detail is Store,
        other is Store,
    ensures
        error_message_of(detail) == error_message_of(other),
        error_message_of(detail) == store_failed_text("this call"@),
        error_code_of(detail) == ErrorCode::InternalError,
{
}

/// **A miss and a block speak one shape, and a failure stays an error**:
/// every refusal of the store is answered as a blocked answer, except the
/// store or the build failing, which is answered as a protocol error.
pub proof fn law_a_refusal_is_an_answer_and_a_failure_an_error(verb: Seq<char>, e: MemoryError)
    ensures
        declined_answer(verb, e) is None <==> is_failure(e),
        !is_failure(e) ==> error_code_of(e) == ErrorCode::InvalidParams,
{
}

/// **A handle read twice is the same handle**: reading a bare name as a
/// person's handle gives a handle, which reads as itself.
pub proof fn law_a_handle_reads_as_itself(s: Seq<char>)
    ensures
        person_handle(person_handle(s)) == person_handle(s),
{
    if !holds(s, ':') {
        reveal_strlit("person:");
        let h = "person:"@ + s;
        assert(h[6] == ':');
        assert(holds(h, ':'));
    }
}

/// Where the first `sep` of `a + [sep] + b` stands, when `a` holds none.
proof fn lemma_first_after(a: Seq<char>, sep: char, b: Seq<char>)
    requires
        !holds(a, sep),
    ensures
        first_index(a + seq![sep] + b, sep) == Some(a.len() as int),
{
    let s = a + seq![sep] + b;
    lemma_first_index(s, sep);
    assert(s[a.len() as int] == sep);
    match first_index(s, sep) {
        Some(i) => {
            if i < a.len() {
                assert(s[i] == a[i]);
                assert(holds(a, sep));
            } else if i > a.len() {
                assert(s[a.len() as int] != sep);
            }
        },
        None => {
            assert(s[a.len() as int] != sep);
        },
    }
}

/// **An address reads back as the address that wrote it**: what a fact's
/// address is written as (`kind:slug#local-id`) parses to that home and that
/// local id. Homes and local ids holding a `#` are left out, since the first
/// `#` is what separates the two.
pub proof fn law_an_address_reads_back(home: Seq<char>, local: Seq<char>)
    requires
        handle_kind(home) is Some,
        !holds(home, '#'),
        local.len() > 0,
        !holds(local, '#'),
    ensures
        address_of(address_text_of((home, local))) == Ok::<(Seq<char>, Seq<char>), Seq<char>>((home, local)),
{
    reveal_strlit("#");
    let s = address_text_of((home, local));
    assert("#"@ =~= seq!['#']);
    assert(s =~= home + seq!['#'] + local);
    lemma_first_after(home, '#', local);
    assert(s.subrange(0, home.len() as int) =~= home);
    assert(s.subrange(home.len() as int + 1, s.len() as int) =~= local);
}

/// **A bot's name always names a bot**: whatever a name reads as at the
/// bot door, when it reads as a handle at all, its kind is `bot`. Names whose
/// slug is no word are left out: they are no handle of any kind.
pub proof fn law_a_bot_name_names_a_bot(name: Seq<char>)
    requires
        bot_handle(name) is Ok,
        is_word(
            match split_once(trim(name), ':') {
                Some((_, slug)) => slug,
                None => trim(name),
            },
        ),
    ensures
        handle_kind(bot_handle(name)->Ok_0) == Some("bot"@),
{
    reveal_strlit("bot:");
    reveal_strlit("bot");
    let n = trim(name);
    let slug = match split_once(n, ':') {
        Some((_, slug)) => slug,
        None => n,
    };
    assert("bot:"@ =~= seq!['b', 'o', 't'] + seq![':']);
    let h = "bot:"@ + slug;
    assert(h =~= seq!['b', 'o', 't'] + seq![':'] + slug);
    assert(!holds(seq!['b', 'o', 't'], ':')) by {
        if holds(seq!['b', 'o', 't'], ':') {
            let i = choose|i: int| 0 <= i < 3 && seq!['b', 'o', 't'][i] == ':';
        }
    }
    lemma_first_after(seq!['b', 'o', 't'], ':', slug);
    assert(h.subrange(0, 3) =~= "bot"@);
    assert(h.subrange(4, h.len() as int) =~= slug);
    assert(is_word("bot"@)) by {
        assert(word_char('b'));
        assert(word_char('o'));
        assert(word_char('t'));
    }
}

/// **The box that comes with a bot is named by its slug**, and nothing else
/// comes with one: a bot's handle names its box, a person's names none.
pub proof fn law_a_bots_box_is_named_by_its_slug(slug: Seq<char>)
    requires
        is_word(slug),
    ensures
        box_for("bot:"@ + slug) == Some(slug),
        box_for("person:"@ + slug) is None,
{
    reveal_strlit("bot:");
    reveal_strlit("bot");
    reveal_strlit("person:");
    reveal_strlit("person");
    let b = "bot:"@ + slug;
    assert(b =~= seq!['b', 'o', 't'] + seq![':'] + slug);
    assert(!holds(seq!['b', 'o', 't'], ':')) by {
        if holds(seq!['b', 'o', 't'], ':') {
            let i = choose|i: int| 0 <= i < 3 && seq!['b', 'o', 't'][i] == ':';
        }
    }
    lemma_first_after(seq!['b', 'o', 't'], ':', slug);
    assert(b.subrange(0, 3) =~= "bot"@);
    assert(b.subrange(4, b.len() as int) =~= slug);
    assert(is_word("bot"@)) by {
        assert(word_char('b'));
        assert(word_char('o'));
        assert(word_char('t'));
    }
    let p = "person:"@ + slug;
    let w = seq!['p', 'e', 'r', 's', 'o', 'n'];
    assert(p =~= w + seq![':'] + slug);
    assert(!holds(w, ':')) by {
        if holds(w, ':') {
            let i = choose|i: int| 0 <= i < 6 && w[i] == ':';
        }
    }
    lemma_first_after(w, ':', slug);
    assert(p.subrange(0, 6) =~= "person"@);
    assert(is_word("person"@)) by {
        assert(word_char('p'));
        assert(word_char('e'));
        assert(word_char('r'));
        assert(word_char('s'));
        assert(word_char('o'));
        assert(word_char('n'));
    }
    assert(handle_kind(p) == Some("person"@));
    assert("person"@ != "bot"@) by {
        assert("person"@.len() != "bot"@.len());
    }
}

/// **A write moves only what it touches**: once it lands, a key it writes
/// holds what it wrote, a key it clears and does not write is gone, and every
/// other key holds what it held.
pub proof fn law_a_write_moves_only_what_it_touches(
    held: Seq<(String, String)>,
    cleared: Seq<String>,
    incoming: Seq<(String, String)>,
    key: Seq<char>,
)
    ensures
        field_map(incoming).contains_key(key) ==> projected_of(held, cleared, incoming).contains_key(key)
            && projected_of(held, cleared, incoming)[key] == field_map(incoming)[key],
        !field_map(incoming).contains_key(key) && crate::declined::texts(cleared).contains(key)
            ==> !projected_of(held, cleared, incoming).contains_key(key),
        !field_map(incoming).contains_key(key) && !crate::declined::texts(cleared).contains(key) ==> (
            projected_of(held, cleared, incoming).contains_key(key) == field_map(held).contains_key(key)
            && (field_map(held).contains_key(key) ==> projected_of(held, cleared, incoming)[key] == field_map(held)[key])
        ),
{
}

/// Whether every value of every closed set a declaration sends is already
/// trimmed.
pub open spec fn sets_arrive_trimmed(fs: Seq<FieldArgs>) -> bool {
    forall|i: int, j: int|
        #![trigger fs[i].one_of, fs[i].one_of->Some_0@[j]]
        0 <= i < fs.len() && fs[i].one_of is Some && 0 <= j < fs[i].one_of->Some_0@.len()
            ==> trim(fs[i].one_of->Some_0@[j]@) == fs[i].one_of->Some_0@[j]@
}

/// Whether no two keys of a declaration share a name.
pub open spec fn keys_distinct(fs: Seq<FieldArgs>) -> bool {
    forall|i: int, j: int| 0 <= i < j < fs.len() ==> #[trigger] fs[i].key@ != #[trigger] fs[j].key@
}

proof fn lemma_each_field_said(fs: Seq<FieldArgs>, kinds: Seq<Seq<char>>, out: Seq<<Field as View>::V>)
    requires
        fields_said(fs, kinds) == Ok::<Seq<<Field as View>::V>, Seq<char>>(out),
    ensures
        out.len() == fs.len(),
        forall|i: int| 0 <= i < fs.len() ==> field_said(#[trigger] fs[i], kinds) == Ok::<<Field as View>::V, Seq<char>>(out[i]),
    decreases fs.len(),
{
    if fs.len() > 0 {
        let before = match fields_said(fs.drop_last(), kinds) {
            Ok(b) => b,
            Err(_) => Seq::empty(),
        };
        assert(fields_said(fs.drop_last(), kinds) is Ok);
        assert(field_said(fs.last(), kinds) is Ok);
        assert(out == before.push(field_said(fs.last(), kinds)->Ok_0));
        assert(out.drop_last() =~= before);
        lemma_each_field_said(fs.drop_last(), kinds, before);
        assert forall|i: int| 0 <= i < fs.len() implies field_said(#[trigger] fs[i], kinds) == Ok::<<Field as View>::V, Seq<char>>(out[i]) by {
            if i < fs.len() - 1 {
                assert(fs.drop_last()[i] == fs[i]);
                assert(before[i] == out[i]);
            }
        }
    }
}

proof fn lemma_value_under_push(a: Seq<(String, String)>, e: (String, String), k: Seq<char>)
    ensures
        value_under(a.push(e), k) == match value_under(a, k) {
            Some(x) => Some(x),
            None => if e.0@ == k {
                Some(e.1@)
            } else {
                None
            },
        },
    decreases a.len(),
{
    if a.len() > 0 {
        assert(a.push(e)[0] == a[0]);
        assert(a.push(e).drop_first() =~= a.drop_first().push(e));
        lemma_value_under_push(a.drop_first(), e, k);
    } else {
        assert(a.push(e)[0] == e);
        assert(a.push(e).drop_first().len() == 0);
        assert(value_under(a.push(e).drop_first(), k) is None);
    }
}

/// The sets a declaration sent, one field at a time from its end.
proof fn lemma_sent_sets_step(fs: Seq<FieldArgs>, sent: Seq<(String, String)>)
    requires
        fs.len() > 0,
        pairs_view(sent) == sent_sets_of(fs),
    ensures
        fs.last().one_of is Some ==> sent.len() > 0 && pairs_view(sent.drop_last()) == sent_sets_of(fs.drop_last())
            && sent.drop_last().push(sent.last()) == sent
            && sent.last().0@ == fs.last().key@
            && sent.last().1@ == join(fs.last().one_of->Some_0@.map_values(|t: String| t@), ", "@),
        fs.last().one_of is None ==> pairs_view(sent) == sent_sets_of(fs.drop_last()),
{
    assert(pairs_view(sent).len() == sent.len());
    match fs.last().one_of {
        Some(v) => {
            let e = (fs.last().key@, join(v@.map_values(|t: String| t@), ", "@));
            assert(sent_sets_of(fs) == sent_sets_of(fs.drop_last()).push(e));
            assert(sent.len() == sent_sets_of(fs.drop_last()).len() + 1);
            assert(pairs_view(sent)[sent.len() - 1] == e);
            assert(pairs_view(sent.drop_last()) =~= sent_sets_of(fs.drop_last())) by {
                assert forall|j: int| 0 <= j < sent.len() - 1 implies pairs_view(sent.drop_last())[j] == sent_sets_of(fs.drop_last())[j] by {
                    assert(pairs_view(sent)[j] == sent_sets_of(fs)[j]);
                }
            }
            assert(sent.drop_last().push(sent.last()) =~= sent);
        },
        None => {},
    }
}

proof fn lemma_sent_for_key(fs: Seq<FieldArgs>, sent: Seq<(String, String)>, k: Seq<char>)
    requires
        pairs_view(sent) == sent_sets_of(fs),
    ensures
        (forall|i: int| 0 <= i < fs.len() ==> #[trigger] fs[i].key@ != k) ==> value_under(sent, k) is None,
    decreases fs.len(),
{
    if fs.len() == 0 {
        assert(pairs_view(sent).len() == sent.len());
        assert(sent.len() == 0);
    } else {
        let n = fs.len() - 1;
        lemma_sent_sets_step(fs, sent);
        assert forall|i: int| 0 <= i < fs.drop_last().len() implies #[trigger] fs.drop_last()[i] == fs[i] by {}
        match fs[n].one_of {
            Some(v) => {
                lemma_sent_for_key(fs.drop_last(), sent.drop_last(), k);
                lemma_value_under_push(sent.drop_last(), sent.last(), k);
            },
            None => {
                lemma_sent_for_key(fs.drop_last(), sent, k);
            },
        }
    }
}

proof fn lemma_sent_set(fs: Seq<FieldArgs>, sent: Seq<(String, String)>, i: int)
    requires
        pairs_view(sent) == sent_sets_of(fs),
        keys_distinct(fs),
        0 <= i < fs.len(),
        fs[i].one_of is Some,
    ensures
        value_under(sent, fs[i].key@) == Some(join(fs[i].one_of->Some_0@.map_values(|t: String| t@), ", "@)),
    decreases fs.len(),
{
    let n = fs.len() - 1;
    let front = fs.drop_last();
    lemma_sent_sets_step(fs, sent);
    assert forall|a: int, b: int| 0 <= a < b < front.len() implies #[trigger] front[a].key@ != #[trigger] front[b].key@ by {
        assert(front[a] == fs[a] && front[b] == fs[b]);
        assert(fs[a].key@ != fs[b].key@);
    }
    match fs[n].one_of {
        Some(v) => {
            lemma_value_under_push(sent.drop_last(), sent.last(), fs[i].key@);
            if i < n {
                assert(front[i] == fs[i]);
                lemma_sent_set(front, sent.drop_last(), i);
            } else {
                assert forall|m: int| 0 <= m < front.len() implies #[trigger] front[m].key@ != fs[n].key@ by {
                    assert(front[m] == fs[m]);
                    assert(fs[m].key@ != fs[n].key@);
                }
                lemma_sent_for_key(front, sent.drop_last(), fs[n].key@);
            }
        },
        None => {
            assert(i < n);
            assert(front[i] == fs[i]);
            lemma_sent_set(front, sent, i);
        },
    }
}

proof fn lemma_no_receipt_before(
    fs: Seq<FieldArgs>,
    kinds: Seq<Seq<char>>,
    declared: Seq<Field>,
    sent: Seq<(String, String)>,
    n: int,
)
    requires
        0 <= n <= declared.len(),
        declared.len() == fs.len(),
        forall|i: int| 0 <= i < fs.len() ==> field_said(#[trigger] fs[i], kinds) == Ok::<<Field as View>::V, Seq<char>>(fields_view(declared)[i]),
        pairs_view(sent) == sent_sets_of(fs),
        sets_arrive_trimmed(fs),
        keys_distinct(fs),
    ensures
        trimmed_sets_of(declared.take(n), sent).len() == 0,
    decreases n,
{
    if n == 0 {
        assert(declared.take(0) =~= Seq::<Field>::empty());
    } else {
        let m = n - 1;
        lemma_no_receipt_before(fs, kinds, declared, sent, m);
        let d = declared[m];
        assert(declared.take(n).drop_last() =~= declared.take(m));
        assert(declared.take(n).last() == d);
        assert(fields_view(declared)[m] == d@);
        assert(field_said(fs[m], kinds) == Ok::<<Field as View>::V, Seq<char>>(d@));
        assert(d.key@ == fs[m].key@);
        match d.one_of {
            Some(values) => {
                assert(trimmed_set(fs[m].one_of) == Some(values@.map_values(|t: String| t@)));
                let v = fs[m].one_of->Some_0;
                assert(v@.map_values(|t: String| trim(t@)) == values@.map_values(|t: String| t@));
                assert(v@.map_values(|t: String| trim(t@)) =~= v@.map_values(|t: String| t@)) by {
                    assert forall|j: int| 0 <= j < v@.len() implies trim(v@[j]@) == v@[j]@ by {
                        assert(fs[m].one_of->Some_0@[j] == v@[j]);
                    }
                }
                lemma_sent_set(fs, sent, m);
                assert(difference_of(set_label(d.key@), value_under(sent, d.key@), join(values@.map_values(|t: String| t@), ", "@), None) is None);
            },
            None => {},
        }
    }
}

/// **A closed set that needed no trimming carries no receipt**: when every
/// value a declaration sends is already trimmed, the keys it declares hold
/// their sets exactly as they were sent, and the receipt names none of them.
/// Declarations naming one key twice are left out: the receipt finds a
/// key's sent set by its name.
pub proof fn law_a_clean_set_leaves_no_receipt(
    fs: Seq<FieldArgs>,
    kinds: Seq<Seq<char>>,
    declared: Seq<Field>,
    sent: Seq<(String, String)>,
)
    requires
        fields_said(fs, kinds) == Ok::<Seq<<Field as View>::V>, Seq<char>>(fields_view(declared)),
        pairs_view(sent) == sent_sets_of(fs),
        sets_arrive_trimmed(fs),
        keys_distinct(fs),
    ensures
        trimmed_sets_of(declared, sent).len() == 0,
{
    lemma_each_field_said(fs, kinds, fields_view(declared));
    lemma_no_receipt_before(fs, kinds, declared, sent, declared.len() as int);
    assert(declared.take(declared.len() as int) =~= declared);
}

/// **A record's fields read as the map they are**: where no key appears
/// twice, the value found under a key is the one its map holds, and a key the
/// map lacks reads as nothing. Records naming a key twice are left out: the
/// first write of it would be read rather than the last.
pub proof fn law_a_record_reads_as_its_map(fs: Seq<(String, String)>, key: Seq<char>)
    requires
        keys_unique(fs),
    ensures
        value_under(fs, key) == if field_map(fs).contains_key(key) {
            Some(field_map(fs)[key])
        } else {
            None
        },
    decreases fs.len(),
{
    if fs.len() > 0 {
        let front = fs.drop_last();
        let e = fs.last();
        assert forall|i: int, j: int| 0 <= i < j < front.len() implies #[trigger] front[i].0@ != #[trigger] front[j].0@ by {
            assert(front[i] == fs[i] && front[j] == fs[j]);
        }
        law_a_record_reads_as_its_map(front, key);
        assert(front.push(e) =~= fs);
        lemma_value_under_push(front, e, key);
        if e.0@ == key {
            crate::claims::lemma_field_map_keys(front);
            if field_map(front).contains_key(key) {
                assert(keys_of(front).contains(key));
                let j = choose|j: int| 0 <= j < keys_of(front).len() && keys_of(front)[j] == key;
                assert(front[j] == fs[j]);
                assert(fs[j].0@ != fs[fs.len() - 1].0@);
            }
        }
    }
}

/// **A check-in computes its own three keys**: a call that sends any of
/// `outcome`, `last_check_in` or `counts_from` alongside it is refused over
/// that key, and a call that sends none of them is not refused over a key.
pub proof fn law_a_check_in_refuses_every_key_it_computes(sent: Seq<Seq<char>>)
    ensures
        (doubled_key(sent) is Some) == (sent.contains("outcome"@) || sent.contains("last_check_in"@) || sent.contains("counts_from"@)),
        doubled_key(sent) matches Some(k) ==> sent.contains(k) && (k == "outcome"@ || k == "last_check_in"@ || k == "counts_from"@),
{
}

/// **Each edge shape points at its own kind**: a location edge at a place,
/// a membership at an org, an attendance at an event; an about edge or a
/// connection at a handle of any kind. Whatever is no handle is refused.
pub proof fn law_each_edge_shape_points_at_its_kind(shape: EdgeShape, object: Seq<char>)
    ensures
        (edge_fault(shape, object) is None) == match handle_kind(object) {
            None => false,
            Some(k) => match shape {
                EdgeShape::Location => k == "place"@,
                EdgeShape::Membership => k == "org"@,
                EdgeShape::Attendance => k == "event"@,
                EdgeShape::About => true,
                EdgeShape::Connection => true,
            },
        },
{
}

/// The word a value type is declared with.
pub open spec fn value_type_word(v: ValueType) -> Seq<char> {
    match v {
        ValueType::Text => "text"@,
        ValueType::Number => "number"@,
        ValueType::Date => "date"@,
        ValueType::DateRange => "date_range"@,
        ValueType::Boolean => "boolean"@,
        ValueType::Reference => "reference"@,
    }
}

/// **Each value-type word declares the type it names, and only that word
/// does**: a key declared to hold `date` holds dates, one single value, and
/// points at no kind, and `list:date` holds zero or more of them; no other
/// word reads as that type.
pub proof fn law_every_value_type_word_reads_back(v: ValueType, t: Seq<char>, kinds: Seq<Seq<char>>)
    ensures
        value_type_named(value_type_word(v)) == Some(v),
        holds_of(value_type_word(v), kinds) == Some((v, false, None::<Seq<char>>)),
        holds_of("list:"@ + value_type_word(v), kinds) == Some((v, true, None::<Seq<char>>)),
        value_type_named(t) == Some(v) ==> t == value_type_word(v),
{
    reveal_strlit("text");
    reveal_strlit("number");
    reveal_strlit("date");
    reveal_strlit("date_range");
    reveal_strlit("boolean");
    reveal_strlit("reference");
    reveal_strlit("list:");
    let w = value_type_word(v);
    assert(w.len() < 5 || w.take(5) != "list:"@) by {
        if w.len() >= 5 {
            assert(w.take(5)[4] != "list:"@[4]);
        }
    }
    lemma_trim_unspaced(w);
    let l = "list:"@ + w;
    assert(l.take(5) =~= "list:"@);
    assert(l.skip(5) =~= w);
}

/// **A fact filter narrows a search on its own**: a status, provenance,
/// standing, subject or edge filter is a question about facts, so a search
/// carrying one needs no words, and is valid wherever it names at most one
/// type filter, a positive limit and well-formed handles.
pub proof fn law_a_fact_filter_narrows_a_search(q: SearchQuery)
    requires
        q.status is Some || q.provenance is Some || q.standing is Some || q.subject is Some || q.edge is Some,
    ensures
        query_fault(q) != Some(unnarrowed_msg()),
        ({
            &&& !(q.answers_type is Some && q.fits_type is Some)
            &&& q.limit > 0
            &&& (q.subject matches Some(s) ==> handle_kind(s@) is Some)
            &&& (q.edge matches Some(e) ==> handle_kind(e.object@) is Some)
        }) ==> query_fault(q) is None,
{
    reveal_strlit("a search needs words or a filter: pass query, or one of kind, status, provenance, standing, subject, edge, answers_type or fits_type — include_mail says what to search, not what to narrow to");
    reveal_strlit("answers_type and fits_type are one question asked two ways: pass one of them, never both");
    reveal_strlit("limit must be at least 1: a search that may return nothing asks nothing");
    reveal_strlit("subject '");
    reveal_strlit("edge object '");
    assert(unnarrowed_msg()[1] != both_types_msg()[1]);
    assert(unnarrowed_msg()[0] != crate::search::no_limit_msg()[0]);
    if let Some(s) = q.subject {
        assert(unnarrowed_msg()[0] != crate::search::bad_subject_msg(s@)[0]);
    }
    if let Some(e) = q.edge {
        assert(unnarrowed_msg()[0] != crate::search::bad_edge_object_msg(e.object@)[0]);
    }
}

/// **A search for facts leaves mail out, and says so as that**: mail asked
/// for is left out as fact-scoped exactly when the query carries a status,
/// provenance, standing, subject or edge filter.
pub proof fn law_a_fact_search_leaves_mail_out(q: SearchQuery)
    ensures
        (mail_excluded(q) == Some(MailExcluded::FactScoped)) == (q.include_mail && (q.status is Some
            || q.provenance is Some || q.standing is Some || q.subject is Some || q.edge is Some)),
{
}

/// The word a comparison is asked for with.
pub open spec fn compare_word(c: Compare) -> Seq<char> {
    match c {
        Compare::Equals => "equals"@,
        Compare::Before => "before"@,
        Compare::After => "after"@,
        Compare::Less => "less"@,
        Compare::Greater => "greater"@,
    }
}

/// **Each comparison word reads as the comparison it names, and only that
/// word does** (absent is equality): `after` keeps what comes after, never
/// what comes before.
pub proof fn law_every_compare_word_reads_back(c: Compare, t: Seq<char>)
    ensures
        compare_of(Some(compare_word(c))) == Ok::<Compare, Seq<char>>(c),
        compare_of(Some(t)) == Ok::<Compare, Seq<char>>(c) ==> t == compare_word(c),
{
    reveal_strlit("equals");
    reveal_strlit("before");
    reveal_strlit("after");
    reveal_strlit("less");
    reveal_strlit("greater");
    assert("equals"@[0] == 'e' && "before"@[0] == 'b' && "after"@[0] == 'a');
    assert("less"@[0] == 'l' && "greater"@[0] == 'g');
}

/// The word a check-in outcome is sent as.
pub open spec fn outcome_word(o: Outcome) -> Seq<char> {
    match o {
        Outcome::Ran => "ran"@,
        Outcome::Skipped => "skipped"@,
        Outcome::Snoozed => "snoozed"@,
    }
}

/// The word a walk direction is sent as.
pub open spec fn direction_word(d: Direction) -> Seq<char> {
    match d {
        Direction::Out => "out"@,
        Direction::In => "in"@,
    }
}

/// The word a key filter's scope is sent as.
pub open spec fn scope_word(s: Scope) -> Seq<char> {
    match s {
        Scope::Thing => "thing"@,
        Scope::Record => "record"@,
    }
}

/// The word a clock is sent as.
pub open spec fn clock_word(c: Clock) -> Seq<char> {
    match c {
        Clock::TrueOf => "true_of"@,
        Clock::TakenIn => "taken_in"@,
    }
}

/// The word a boot is sent as.
pub open spec fn boot_word(b: Boot) -> Seq<char> {
    match b {
        Boot::Always => "always"@,
        Boot::OnDemand => "on-demand"@,
    }
}

/// The word a fold is declared with.
pub open spec fn fold_word(f: Fold) -> Seq<char> {
    match f {
        Fold::Newest => "newest"@,
        Fold::Sum => "sum"@,
    }
}

/// **Each word of the smaller vocabularies reads as what it names, and only
/// that word does**: a check-in outcome, a walk direction, a key filter's
/// scope, a clock, a boot and a fold (a blank clock or fold is its default).
pub proof fn law_every_small_word_reads_back(
    o: Outcome,
    d: Direction,
    sc: Scope,
    cl: Clock,
    b: Boot,
    f: Fold,
    t: Seq<char>,
    folds: String,
)
    ensures
        outcome_of(outcome_word(o)) == Some(o),
        outcome_of(t) == Some(o) ==> t == outcome_word(o),
        direction_of(Some(direction_word(d))) == Ok::<Direction, Seq<char>>(d),
        direction_of(Some(t)) == Ok::<Direction, Seq<char>>(d) ==> t == direction_word(d),
        scope_of(Some(scope_word(sc))) == Ok::<Scope, Seq<char>>(sc),
        scope_of(Some(t)) == Ok::<Scope, Seq<char>>(sc) ==> t == scope_word(sc),
        clock_of(Some(clock_word(cl))) == Ok::<Clock, Seq<char>>(cl),
        clock_of(Some(t)) == Ok::<Clock, Seq<char>>(Clock::TakenIn) ==> trim(t) == "taken_in"@,
        boot_of(Some(boot_word(b))) == Ok::<Boot, Seq<char>>(b),
        boot_of(Some(t)) == Ok::<Boot, Seq<char>>(b) ==> t == boot_word(b),
        folds@ == fold_word(f) ==> fold_said(Some(folds)) == Ok::<Fold, Seq<char>>(f),
        fold_said(Some(folds)) == Ok::<Fold, Seq<char>>(Fold::Sum) ==> trim(folds@) == "sum"@,
{
    reveal_strlit("ran");
    reveal_strlit("skipped");
    reveal_strlit("snoozed");
    reveal_strlit("out");
    reveal_strlit("in");
    reveal_strlit("thing");
    reveal_strlit("record");
    reveal_strlit("true_of");
    reveal_strlit("taken_in");
    reveal_strlit("always");
    reveal_strlit("on-demand");
    reveal_strlit("newest");
    reveal_strlit("sum");
    assert("ran"@[0] == 'r' && "skipped"@[1] == 'k' && "snoozed"@[1] == 'n');
    assert("out"@[0] == 'o' && "in"@[0] == 'i');
    assert("thing"@[0] == 't' && "record"@[0] == 'r');
    assert("true_of"@[1] == 'r' && "taken_in"@[1] == 'a');
    assert("always"@[0] == 'a' && "on-demand"@[0] == 'o');
    assert("newest"@[0] == 'n' && "sum"@[0] == 's');
    lemma_trim_unspaced(clock_word(cl));
    lemma_trim_unspaced(fold_word(f));
}

/// **Mail asked for is left out by the first reason that holds, and by no
/// other**: a fact filter before a type filter before a kind filter; a query
/// with none of them, asking for mail, searches it.
pub proof fn law_mail_is_left_out_by_the_first_reason(q: SearchQuery)
    ensures
        !q.include_mail ==> mail_excluded(q) == Some(MailExcluded::NotAsked),
        (mail_excluded(q) == Some(MailExcluded::TypeFiltered)) == (q.include_mail && !(q.status is Some
            || q.provenance is Some || q.standing is Some || q.subject is Some || q.edge is Some)
            && (q.answers_type is Some || q.fits_type is Some)),
        (mail_excluded(q) == Some(MailExcluded::KindFiltered)) == (q.include_mail && !(q.status is Some
            || q.provenance is Some || q.standing is Some || q.subject is Some || q.edge is Some)
            && q.answers_type is None && q.fits_type is None && q.kind is Some),
        (mail_excluded(q) is None) == (q.include_mail && q.status is None && q.provenance is None
            && q.standing is None && q.subject is None && q.edge is None && q.answers_type is None
            && q.fits_type is None && q.kind is None),
{
}

/// **Which searches are valid, in the query's own fields**: one that
/// carries words or any filter — kind, status, provenance, standing,
/// subject, edge, answers_type or fits_type, but not include_mail alone —
/// names at most one type filter, asks for at least one result and writes
/// each handle it names as a handle.
pub proof fn law_a_search_is_valid_exactly_when(q: SearchQuery)
    ensures
        (query_fault(q) is None) == ({
            &&& (q.terms_of() is Some || q.kind is Some || q.status is Some || q.provenance is Some
                || q.standing is Some || q.subject is Some || q.edge is Some || q.answers_type is Some
                || q.fits_type is Some)
            &&& !(q.answers_type is Some && q.fits_type is Some)
            &&& q.limit > 0
            &&& (q.subject matches Some(s) ==> handle_kind(s@) is Some)
            &&& (q.edge matches Some(e) ==> handle_kind(e.object@) is Some)
        }),
{
}

} // verus!
