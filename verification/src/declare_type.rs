//! **`declare_type`**: say what a type's keys are, so a writer knows what to
//! fill. A declaration describes and admits nothing; what is here is how the
//! keys a caller sends become the declaration — each key's value type, how
//! its writes fold, its closed set — and the receipt naming every set whose
//! values were trimmed.

use vstd::prelude::*;
use crate::capture::{difference_of, Difference};
use crate::claims::{value_at, value_under};
use crate::parse::refused;
use crate::text::{join, push_chars, push_str, slice_of, spells, split_at_char, split_once, string_of, text, trim, trimmed, trimmed_str};
use crate::types::{DeclaredType, Field, Fold, ValueType};
use crate::vocab::{join_strings, resolve_kind, Kinds, McpError};

verus! {

/// One key of a type, and what it holds.
#[derive(Debug)]
pub struct FieldArgs {
    /// The key a thing carries, exactly as the writes on it spell it.
    pub key: String,
    /// What the value holds: `text`, `number`, `date`, `date_range`,
    /// `boolean` or `reference` (optionally `reference:kind`), with `list:` in
    /// front for zero or more. Text when omitted — a number for a counter.
    pub holds: Option<String>,
    /// How the key's writes come down to one value: `newest` (the default)
    /// or `sum`.
    pub folds: Option<String>,
    /// Whether a thing has to hold this key to be one of these at all.
    pub required: bool,
    /// The named set this key holds one of.
    pub one_of: Option<Vec<String>>,
}

/// Arguments to `declare_type`.
#[derive(Debug)]
pub struct DeclareTypeArgs {
    /// What the type is called.
    pub name: String,
    /// The keys a thing of this type carries; at least one.
    pub fields: Vec<FieldArgs>,
    /// The caller's session id.
    pub sid: Option<String>,
}

/// The value type a token names.
pub open spec fn value_type_named(t: Seq<char>) -> Option<ValueType> {
    if t == "text"@ {
        Some(ValueType::Text)
    } else if t == "number"@ {
        Some(ValueType::Number)
    } else if t == "date"@ {
        Some(ValueType::Date)
    } else if t == "date_range"@ {
        Some(ValueType::DateRange)
    } else if t == "boolean"@ {
        Some(ValueType::Boolean)
    } else if t == "reference"@ {
        Some(ValueType::Reference)
    } else {
        None
    }
}

/// What follows a `list:` prefix, when the token carries one.
pub open spec fn list_part(t: Seq<char>) -> Option<Seq<char>> {
    if t.len() >= 5 && t.take(5) == "list:"@ {
        Some(t.skip(5))
    } else {
        None
    }
}

/// The token with any `list:` prefix taken off.
pub open spec fn unlisted(t: Seq<char>) -> Seq<char> {
    match list_part(t) {
        Some(rest) => rest,
        None => t,
    }
}

/// A reference that names a kind: the kind half, trimmed.
pub open spec fn reference_kind(held: Seq<char>) -> Option<Seq<char>> {
    match split_once(held, ':') {
        Some((h, k)) => if trim(h) == "reference"@ {
            Some(trim(k))
        } else {
            None
        },
        None => None,
    }
}

/// **What a `holds` token declares**: a value type, whether the key is a
/// list, and the kind a reference points at — or nothing, when the token is
/// no value type or names a kind the instance does not hold.
pub open spec fn holds_of(token: Seq<char>, kinds: Seq<Seq<char>>) -> Option<(ValueType, bool, Option<Seq<char>>)> {
    let list = list_part(token) is Some;
    let held = trim(unlisted(token));
    match value_type_named(held) {
        Some(v) => Some((v, list, None)),
        None => match reference_kind(held) {
            Some(k) => match resolve_kind(kinds, k) {
                Ok(kind) => Some((ValueType::Reference, list, Some(kind))),
                Err(_) => None,
            },
            None => None,
        },
    }
}

/// The refusal of a fold token.
pub open spec fn no_fold_msg(token: Seq<char>) -> Seq<char> {
    "'"@ + token + "' is no fold: use newest or sum"@
}

/// The refusal of a value-type token that names no type.
pub open spec fn no_value_type_msg(token: Seq<char>) -> Seq<char> {
    "'"@ + token + "' is no value type: use text, number, date, date_range, boolean or reference — and a reference may name the kind it points at, as 'reference:place', using one of the kinds add_entity takes. Put 'list:' in front of any of them for a key holding zero or more, as 'list:reference:person'"@
}

/// **Why a `holds` token is no field**, in the token's own terms: a
/// reference to a kind the instance does not hold gets the kinds' own answer
/// — the list prefix comes off first, because what is wrong with
/// `list:reference:nonsense` is the kind — and anything else the sentence
/// about value types.
pub open spec fn no_field_msg(token: Seq<char>, kinds: Seq<Seq<char>>) -> Seq<char> {
    match reference_kind(trim(unlisted(trim(token)))) {
        Some(k) => match resolve_kind(kinds, k) {
            Err(why) => "'"@ + token + "': "@ + why,
            Ok(_) => no_value_type_msg(token),
        },
        None => no_value_type_msg(token),
    }
}

/// What a `folds` argument says.
pub open spec fn fold_said(folds: Option<String>) -> Result<Fold, Seq<char>> {
    match folds {
        None => Ok(Fold::Newest),
        Some(f) => {
            let t = trim(f@);
            if t.len() == 0 || t == "newest"@ {
                Ok(Fold::Newest)
            } else if t == "sum"@ {
                Ok(Fold::Sum)
            } else {
                Err(no_fold_msg(t))
            }
        },
    }
}

/// A closed set's values, trimmed.
pub open spec fn trimmed_set(one_of: Option<Vec<String>>) -> Option<Seq<Seq<char>>> {
    match one_of {
        Some(v) => Some(v@.map_values(|t: String| trim(t@))),
        None => None,
    }
}

/// **What one key of a declaration says**: its fold first, then its value
/// type — **a counter holds a number unless the caller says otherwise**, any
/// other key text — with its closed set trimmed; or the refusal.
pub open spec fn field_said(f: FieldArgs, kinds: Seq<Seq<char>>) -> Result<(Seq<char>, ValueType, bool, Option<Seq<char>>, Fold, bool, Option<Seq<Seq<char>>>), Seq<char>> {
    match fold_said(f.folds) {
        Err(m) => Err(m),
        Ok(folds) => {
            let holds = match f.holds {
                Some(h) => if trim(h@).len() == 0 {
                    None
                } else {
                    Some(trim(h@))
                },
                None => None,
            };
            match holds {
                None => Ok((
                    f.key@,
                    if folds == Fold::Sum {
                        ValueType::Number
                    } else {
                        ValueType::Text
                    },
                    false,
                    None,
                    folds,
                    f.required,
                    trimmed_set(f.one_of),
                )),
                Some(t) => match holds_of(t, kinds) {
                    Some((v, list, points_at)) => Ok((f.key@, v, list, points_at, folds, f.required, trimmed_set(f.one_of))),
                    None => Err(no_field_msg(t, kinds)),
                },
            }
        },
    }
}

/// What every key says, in order, or the refusal of the first that is
/// malformed.
pub open spec fn fields_said(fs: Seq<FieldArgs>, kinds: Seq<Seq<char>>) -> Result<Seq<<Field as View>::V>, Seq<char>>
    decreases fs.len(),
{
    if fs.len() == 0 {
        Ok(Seq::empty())
    } else {
        match fields_said(fs.drop_last(), kinds) {
            Err(m) => Err(m),
            Ok(before) => match field_said(fs.last(), kinds) {
                Err(m) => Err(m),
                Ok(v) => Ok(before.push(v)),
            },
        }
    }
}

/// **What each closed set was sent as**: its key and its values joined, as
/// they arrived — taken before they are trimmed, because trimming is what
/// the receipt reports.
pub open spec fn sent_sets_of(fs: Seq<FieldArgs>) -> Seq<(Seq<char>, Seq<char>)>
    decreases fs.len(),
{
    if fs.len() == 0 {
        Seq::empty()
    } else {
        let before = sent_sets_of(fs.drop_last());
        match fs.last().one_of {
            Some(v) => before.push((fs.last().key@, join(v@.map_values(|t: String| t@), ", "@))),
            None => before,
        }
    }
}

/// The keys, as values.
pub open spec fn fields_view(fs: Seq<Field>) -> Seq<<Field as View>::V> {
    fs.map_values(|f: Field| f@)
}

/// The sent sets, as values.
pub open spec fn pairs_view(ps: Seq<(String, String)>) -> Seq<(Seq<char>, Seq<char>)> {
    ps.map_values(|p: (String, String)| (p.0@, p.1@))
}

proof fn lemma_fields_refused(fs: Seq<FieldArgs>, kinds: Seq<Seq<char>>, k: int, m: Seq<char>)
    requires
        0 <= k <= fs.len(),
        fields_said(fs.take(k), kinds) == Err::<Seq<<Field as View>::V>, Seq<char>>(m),
    ensures
        fields_said(fs, kinds) == Err::<Seq<<Field as View>::V>, Seq<char>>(m),
    decreases fs.len() - k,
{
    if k == fs.len() {
        assert(fs.take(k) =~= fs);
    } else {
        assert(fs.take(k + 1).drop_last() =~= fs.take(k));
        lemma_fields_refused(fs, kinds, k + 1, m);
    }
}

fn value_type_token(t: &[char]) -> (r: Option<ValueType>)
    ensures
        r == value_type_named(t@),
{
    if spells(t, "text") {
        Some(ValueType::Text)
    } else if spells(t, "number") {
        Some(ValueType::Number)
    } else if spells(t, "date") {
        Some(ValueType::Date)
    } else if spells(t, "date_range") {
        Some(ValueType::DateRange)
    } else if spells(t, "boolean") {
        Some(ValueType::Boolean)
    } else if spells(t, "reference") {
        Some(ValueType::Reference)
    } else {
        None
    }
}

fn without_list(t: &[char]) -> (r: (bool, Vec<char>))
    ensures
        r.0 == (list_part(t@) is Some),
        r.1@ == unlisted(t@),
{
    if t.len() >= 5 {
        let head = slice_of(t, 0, 5);
        if spells(&head, "list:") {
            proof {
                assert(head@ =~= t@.take(5));
            }
            let rest = slice_of(t, 5, t.len());
            assert(rest@ =~= t@.skip(5));
            return (true, rest);
        }
        assert(head@ =~= t@.take(5));
    }
    (false, slice_of(t, 0, t.len()))
}

fn reference_kind_of(held: &[char]) -> (r: Option<Vec<char>>)
    ensures
        match reference_kind(held@) {
            Some(k) => r matches Some(got) && got@ == k,
            None => r is None,
        },
{
    match split_at_char(held, ':') {
        Some((h, k)) => {
            let h = trimmed(&h);
            if spells(&h, "reference") {
                Some(trimmed(&k))
            } else {
                None
            }
        },
        None => None,
    }
}

fn no_field_text(token: &[char], kinds: &Kinds) -> (m: String)
    ensures
        m@ == no_field_msg(token@, kinds@),
{
    let t = trimmed(token);
    let (_, inner) = without_list(&t);
    let held = trimmed(&inner);
    let mut m = text("'");
    push_chars(&mut m, token);
    match reference_kind_of(&held) {
        Some(k) => match kinds.resolve(&k) {
            Err(why) => {
                push_str(&mut m, "': ");
                push_str(&mut m, why.as_str());
                return m;
            },
            Ok(_) => {},
        },
        None => {},
    }
    push_str(&mut m, "' is no value type: use text, number, date, date_range, boolean or reference — and a reference may name the kind it points at, as 'reference:place', using one of the kinds add_entity takes. Put 'list:' in front of any of them for a key holding zero or more, as 'list:reference:person'");
    m
}

fn fold_token(folds: &Option<String>) -> (r: Result<Fold, McpError>)
    ensures
        match fold_said(*folds) {
            Ok(f) => r == Ok::<Fold, McpError>(f),
            Err(m) => refused(r, m),
        },
{
    match folds {
        None => Ok(Fold::Newest),
        Some(f) => {
            let t = trimmed_str(f.as_str());
            if t.len() == 0 || spells(&t, "newest") {
                Ok(Fold::Newest)
            } else if spells(&t, "sum") {
                Ok(Fold::Sum)
            } else {
                let mut m = text("'");
                push_chars(&mut m, &t);
                push_str(&mut m, "' is no fold: use newest or sum");
                Err(McpError::invalid_params(m))
            }
        },
    }
}

fn trimmed_values(values: &Vec<String>) -> (r: Vec<String>)
    ensures
        r@.map_values(|t: String| t@) == values@.map_values(|t: String| trim(t@)),
{
    let mut r: Vec<String> = Vec::new();
    let mut i: usize = 0;
    while i < values.len()
        invariant
            i <= values.len(),
            r@.map_values(|t: String| t@) == values@.take(i as int).map_values(|t: String| trim(t@)),
        decreases values.len() - i,
    {
        let t = string_of(&trimmed_str(values[i].as_str()));
        proof {
            assert(values@.take(i + 1) =~= values@.take(i as int).push(values@[i as int]));
            assert(r@.push(t).map_values(|t: String| t@) =~= r@.map_values(|t: String| t@).push(t@));
            assert(values@.take(i + 1).map_values(|t: String| trim(t@)) =~= values@.take(i as int).map_values(|t: String| trim(t@)).push(trim(values@[i as int]@)));
        }
        r.push(t);
        i = i + 1;
    }
    assert(values@.take(values.len() as int) =~= values@);
    r
}

fn copy_values(values: &Vec<String>) -> (r: Vec<String>)
    ensures
        r@.map_values(|t: String| t@) == values@.map_values(|t: String| t@),
{
    let mut r: Vec<String> = Vec::new();
    let mut i: usize = 0;
    while i < values.len()
        invariant
            i <= values.len(),
            r@.map_values(|t: String| t@) == values@.take(i as int).map_values(|t: String| t@),
        decreases values.len() - i,
    {
        let t = text(values[i].as_str());
        proof {
            assert(values@.take(i + 1) =~= values@.take(i as int).push(values@[i as int]));
            assert(r@.push(t).map_values(|t: String| t@) =~= r@.map_values(|t: String| t@).push(t@));
            assert(values@.take(i + 1).map_values(|t: String| t@) =~= values@.take(i as int).map_values(|t: String| t@).push(values@[i as int]@));
        }
        r.push(t);
        i = i + 1;
    }
    assert(values@.take(values.len() as int) =~= values@);
    r
}

fn one_field(f: &FieldArgs, kinds: &Kinds) -> (r: Result<Field, McpError>)
    ensures
        match field_said(*f, kinds@) {
            Ok(v) => r matches Ok(got) && got@ == v,
            Err(m) => refused(r, m),
        },
{
    let folds = match fold_token(&f.folds) {
        Ok(folds) => folds,
        Err(e) => return Err(e),
    };
    let one_of = match &f.one_of {
        Some(values) => Some(trimmed_values(values)),
        None => None,
    };
    let holds = match &f.holds {
        Some(h) => {
            let t = trimmed_str(h.as_str());
            if t.len() == 0 {
                None
            } else {
                Some(t)
            }
        },
        None => None,
    };
    let key = text(f.key.as_str());
    match holds {
        None => {
            let v = if folds == Fold::Sum {
                ValueType::Number
            } else {
                ValueType::Text
            };
            Ok(Field { key, holds: v, list: false, points_at: None, folds, required: f.required, one_of })
        },
        Some(t) => {
            let (list, inner) = without_list(&t);
            let held = trimmed(&inner);
            match value_type_token(&held) {
                Some(v) => Ok(Field { key, holds: v, list, points_at: None, folds, required: f.required, one_of }),
                None => {
                    let refusal = no_field_text(&t, kinds);
                    match reference_kind_of(&held) {
                        Some(k) => match kinds.resolve(&k) {
                            Ok(kind) => Ok(Field {
                                key,
                                holds: ValueType::Reference,
                                list,
                                points_at: Some(kind.0),
                                folds,
                                required: f.required,
                                one_of,
                            }),
                            Err(_) => Err(McpError::invalid_params(refusal)),
                        },
                        None => Err(McpError::invalid_params(refusal)),
                    }
                },
            }
        },
    }
}

/// **Every key a declaration sends, as the keys it declares**, with what
/// each closed set was sent as — or the refusal of the first key that is
/// malformed.
pub fn declared_fields(fields: &Vec<FieldArgs>, kinds: &Kinds) -> (r: Result<(Vec<Field>, Vec<(String, String)>), McpError>)
    ensures
        match fields_said(fields@, kinds@) {
            Ok(v) => r matches Ok((got, sent)) && fields_view(got@) == v && pairs_view(sent@) == sent_sets_of(fields@),
            Err(m) => refused(r, m),
        },
{
    let mut out: Vec<Field> = Vec::new();
    let mut sent: Vec<(String, String)> = Vec::new();
    let mut i: usize = 0;
    assert(fields@.take(0) =~= Seq::<FieldArgs>::empty());
    assert(fields_view(out@) =~= Seq::empty());
    assert(pairs_view(sent@) =~= Seq::empty());
    while i < fields.len()
        invariant
            i <= fields.len(),
            fields_said(fields@.take(i as int), kinds@) == Ok::<Seq<<Field as View>::V>, Seq<char>>(fields_view(out@)),
            pairs_view(sent@) == sent_sets_of(fields@.take(i as int)),
        decreases fields.len() - i,
    {
        let f = &fields[i];
        proof {
            assert(fields@.take(i + 1).drop_last() =~= fields@.take(i as int));
            assert(fields@.take(i + 1).last() == fields@[i as int]);
        }
        match one_field(f, kinds) {
            Ok(field) => {
                proof {
                    assert(fields_view(out@.push(field)) =~= fields_view(out@).push(field@));
                }
                out.push(field);
            },
            Err(e) => {
                proof {
                    lemma_fields_refused(fields@, kinds@, i + 1, e.message@);
                }
                return Err(e);
            },
        }
        match &f.one_of {
            Some(values) => {
                let joined = join_strings(values, ", ");
                let pair = (text(f.key.as_str()), joined);
                proof {
                    assert(pairs_view(sent@.push(pair)) =~= pairs_view(sent@).push((pair.0@, pair.1@)));
                }
                sent.push(pair);
            },
            None => {},
        }
        i = i + 1;
    }
    assert(fields@.take(fields.len() as int) =~= fields@);
    Ok((out, sent))
}

/// The receipt's name for a key's closed set.
pub open spec fn set_label(key: Seq<char>) -> Seq<char> {
    "one_of on '"@ + key + "'"@
}

/// **Every closed set the store holds in a form other than the one it was
/// sent in**, named by the key it belongs to: the values as stored, joined,
/// beside what was sent for that key. No reason is given — a trimmed value is
/// what the argument means.
pub open spec fn trimmed_sets_of(declared: Seq<Field>, sent: Seq<(String, String)>) -> Seq<<Difference as View>::V>
    decreases declared.len(),
{
    if declared.len() == 0 {
        Seq::empty()
    } else {
        let before = trimmed_sets_of(declared.drop_last(), sent);
        let f = declared.last();
        match f.one_of {
            Some(values) => match value_under(sent, f.key@) {
                Some(s) => match difference_of(set_label(f.key@), Some(s), join(values@.map_values(|t: String| t@), ", "@), None) {
                    Some(d) => before.push(d),
                    None => before,
                },
                None => before,
            },
            None => before,
        }
    }
}

fn set_label_text(key: &str) -> (s: String)
    ensures
        s@ == set_label(key@),
{
    let mut s = text("one_of on '");
    push_str(&mut s, key);
    push_str(&mut s, "'");
    s
}

/// **The receipt of a declaration**: each closed set whose values were
/// trimmed, named per key, because a set belongs to one.
pub fn trimmed_sets(declared: &DeclaredType, sent: &Vec<(String, String)>) -> (found: Vec<Difference>)
    ensures
        found@.map_values(|d: Difference| d@) == trimmed_sets_of(declared.fields@, sent@),
{
    let fs = &declared.fields;
    let mut found: Vec<Difference> = Vec::new();
    let mut i: usize = 0;
    assert(fs@.take(0) =~= Seq::<Field>::empty());
    assert(found@.map_values(|d: Difference| d@) =~= Seq::empty());
    while i < fs.len()
        invariant
            i <= fs.len(),
            fs == declared.fields,
            found@.map_values(|d: Difference| d@) == trimmed_sets_of(fs@.take(i as int), sent@),
        decreases fs.len() - i,
    {
        let f = &fs[i];
        proof {
            assert(fs@.take(i + 1).drop_last() =~= fs@.take(i as int));
            assert(fs@.take(i + 1).last() == fs@[i as int]);
        }
        match &f.one_of {
            Some(values) => match value_at(sent, f.key.as_str()) {
                Some(s) => {
                    let stored = join_strings(values, ", ");
                    let label = set_label_text(f.key.as_str());
                    match Difference::between(label.as_str(), Some(s.as_str()), stored.as_str()) {
                        Some(d) => {
                            proof {
                                assert(found@.push(d).map_values(|d: Difference| d@) =~= found@.map_values(|d: Difference| d@).push(d@));
                            }
                            found.push(d);
                        },
                        None => {},
                    }
                },
                None => {},
            },
            None => {},
        }
        i = i + 1;
    }
    assert(fs@.take(fs.len() as int) =~= fs@);
    found
}

} // verus!
