//! **Claims**: a fact as memory holds it, the address that edits it, and the
//! day it carries, written the way every answer writes it.

use vstd::prelude::*;
use crate::declined::MemoryError;
use crate::text::{
    chars_of, decimal, decimal_text, holds, push_str, split_at_char,
    split_once, string_of, text};
use crate::vocab::{handle_kind, kind_half, Day, EntityId, FactStatus, Provenance, Standing};

verus! {

/// A calendar day memory can hold: jiff's range.
pub open spec fn day_wf(d: Day) -> bool {
    &&& -9999 <= d.year <= 9999
    &&& 1 <= d.month <= 12
    &&& 1 <= d.day <= 31
}

/// `n` in decimal, with leading zeros to at least `width` digits.
pub open spec fn padded(n: nat, width: nat) -> Seq<char>
    decreases width,
{
    if width <= decimal(n).len() || width == 0 {
        decimal(n)
    } else {
        seq!['0'] + padded(n, (width - 1) as nat)
    }
}

/// **A day as every answer writes it**: `YYYY-MM-DD`, and a year before the
/// first written with `-00` in front.
pub open spec fn day_text_of(d: Day) -> Seq<char> {
    let y: int = d.year as int;
    let magnitude: nat = if y < 0 {
        (-y) as nat
    } else {
        y as nat
    };
    (if y < 0 {
        "-00"@
    } else {
        Seq::empty()
    }) + padded(magnitude, 4) + "-"@ + padded(d.month as nat, 2) + "-"@ + padded(d.day as nat, 2)
}

fn padded_text(n: u32, width: u32) -> (s: String)
    requires
        width <= 8,
    ensures
        s@ == padded(n as nat, width as nat),
    decreases width,
{
    let digits = decimal_text(n as usize);
    if (width as usize) <= digits.as_str().unicode_len() || width == 0 {
        digits
    } else {
        let rest = padded_text(n, width - 1);
        let mut s = text("0");
        push_str(&mut s, rest.as_str());
        proof {
            reveal_strlit("0");
            assert("0"@ =~= seq!['0']);
        }
        s
    }
}

/// The day, written as every answer writes it.
pub fn day_text(d: Day) -> (s: String)
    requires
        day_wf(d),
    ensures
        s@ == day_text_of(d),
{
    let mut s = String::new();
    let magnitude: u32 = if d.year < 0 {
        push_str(&mut s, "-00");
        (0 - (d.year as i32)) as u32
    } else {
        d.year as u32
    };
    proof {
        if d.year >= 0 {
            assert(s@ =~= Seq::<char>::empty());
        }
    }
    let y = padded_text(magnitude, 4);
    push_str(&mut s, y.as_str());
    push_str(&mut s, "-");
    let m = padded_text(d.month as u32, 2);
    push_str(&mut s, m.as_str());
    push_str(&mut s, "-");
    let dd = padded_text(d.day as u32, 2);
    push_str(&mut s, dd.as_str());
    s
}

/// A fact's global address: the handle of the entity that holds it, and its
/// local id there — `kind:slug#local-id`.
#[derive(Debug, Clone, PartialEq, Eq)]
pub struct FactAddress {
    pub home: EntityId,
    pub local: String,
}

impl View for FactAddress {
    type V = (Seq<char>, Seq<char>);

    open spec fn view(&self) -> (Seq<char>, Seq<char>) {
        (self.home@, self.local@)
    }
}

/// An address as it is written.
pub open spec fn address_text_of(a: (Seq<char>, Seq<char>)) -> Seq<char> {
    a.0 + "#"@ + a.1
}

/// What a written address names: a home handle and a local id, or why it is
/// no address.
pub open spec fn address_of(s: Seq<char>) -> Result<(Seq<char>, Seq<char>), Seq<char>> {
    match split_once(s, '#') {
        Some((home, local)) => if handle_kind(home) is Some && local.len() > 0 && !holds(local, '#') {
            Ok((home, local))
        } else {
            Err(bad_address_msg(s))
        },
        None => Err(bad_address_msg(s)),
    }
}

/// Why a text is no address.
pub open spec fn bad_address_msg(s: Seq<char>) -> Seq<char> {
    "'"@ + s + "' is no fact address — write it kind:slug#local-id, exactly as a read returned it"@
}

fn holds_char(v: &[char], c: char) -> (b: bool)
    ensures
        b == holds(v@, c),
{
    let mut i: usize = 0;
    while i < v.len()
        invariant
            i <= v.len(),
            forall|j: int| 0 <= j < i ==> v@[j] != c,
        decreases v.len() - i,
    {
        if v[i] == c {
            return true;
        }
        i = i + 1;
    }
    false
}

impl FactAddress {
    /// Read an address, `kind:slug#local-id`. A text that is no address is a
    /// malformed call.
    pub fn parse(s: &str) -> (r: Result<FactAddress, MemoryError>)
        ensures
            match address_of(s@) {
                Ok(a) => r matches Ok(got) && got@ == a,
                Err(why) => r matches Err(e) && e matches MemoryError::InvalidAddress(m) && m@ == why,
            },
    {
        let v = chars_of(s);
        let refused = {
            let mut m = text("'");
            push_str(&mut m, s);
            push_str(&mut m, "' is no fact address — write it kind:slug#local-id, exactly as a read returned it");
            m
        };
        match split_at_char(&v, '#') {
            Some((home, local)) => {
                if kind_half(&home).is_some() && local.len() > 0 && !holds_char(&local, '#') {
                    Ok(FactAddress { home: EntityId(string_of(&home)), local: string_of(&local) })
                } else {
                    Err(MemoryError::InvalidAddress(refused))
                }
            },
            None => Err(MemoryError::InvalidAddress(refused)),
        }
    }

    /// The address as it is written.
    pub fn to_text(&self) -> (s: String)
        ensures
            s@ == address_text_of(self@),
    {
        let mut s = self.home.0.clone();
        push_str(&mut s, "#");
        push_str(&mut s, self.local.as_str());
        s
    }
}

/// **A fact as memory holds it**: the claim, who backs it, how sure anyone is,
/// the day it was made, and the keys it carries.
#[derive(Debug)]
pub struct Fact {
    /// The local id, unique within the home entity.
    pub id: String,
    /// The entity the fact is stored on.
    pub home: EntityId,
    /// The entity the fact is about.
    pub subject: EntityId,
    pub content: String,
    pub provenance: Provenance,
    pub standing: Standing,
    pub status: FactStatus,
    pub recorded_at: Day,
    /// The keys and values the record carries, in the order the store holds
    /// them.
    pub fields: Vec<(String, String)>,
    /// The claim this one was worked out from.
    pub derived_from: Option<FactAddress>,
}

/// The keys of a record's fields.
pub open spec fn keys_of(fields: Seq<(String, String)>) -> Seq<Seq<char>> {
    fields.map_values(|p: (String, String)| p.0@)
}

/// The value a record's fields hold under `key`: the first that names it.
pub open spec fn value_under(fields: Seq<(String, String)>, key: Seq<char>) -> Option<Seq<char>>
    decreases fields.len(),
{
    if fields.len() == 0 {
        None
    } else if fields[0].0@ == key {
        Some(fields[0].1@)
    } else {
        value_under(fields.drop_first(), key)
    }
}

/// The value a record's fields hold under `key`.
pub fn value_at<'a>(fields: &'a Vec<(String, String)>, key: &str) -> (r: Option<&'a String>)
    ensures
        match value_under(fields@, key@) {
            Some(v) => r matches Some(got) && got@ == v,
            None => r is None,
        },
{
    let mut i: usize = 0;
    assert(fields@.subrange(0, fields@.len() as int) =~= fields@);
    while i < fields.len()
        invariant
            i <= fields.len(),
            value_under(fields@, key@) == value_under(fields@.subrange(i as int, fields@.len() as int), key@),
        decreases fields.len() - i,
    {
        let ghost rest = fields@.subrange(i as int, fields@.len() as int);
        proof {
            assert(rest.drop_first() =~= fields@.subrange(i + 1, fields@.len() as int));
        }
        let k = chars_of(fields[i].0.as_str());
        let w = chars_of(key);
        if crate::text::same_chars(&k, &w) {
            return Some(&fields[i].1);
        }
        i = i + 1;
    }
    None
}

/// What a record's fields hold, as a map: **the last write of a key wins**.
pub open spec fn field_map(fs: Seq<(String, String)>) -> Map<Seq<char>, Seq<char>>
    decreases fs.len(),
{
    if fs.len() == 0 {
        Map::empty()
    } else {
        field_map(fs.drop_last()).insert(fs.last().0@, fs.last().1@)
    }
}

/// **A record's fields are a map**: no key appears twice, so reading a key
/// by its first occurrence and by its last give the same value.
pub open spec fn keys_unique(fields: Seq<(String, String)>) -> bool {
    forall|i: int, j: int| 0 <= i < j < fields.len() ==> #[trigger] fields[i].0@ != #[trigger] fields[j].0@
}

/// The keys a record's map holds are the keys its fields name.
pub proof fn lemma_field_map_keys(fs: Seq<(String, String)>)
    ensures
        forall|k: Seq<char>| #[trigger] field_map(fs).contains_key(k) <==> keys_of(fs).contains(k),
    decreases fs.len(),
{
    if fs.len() > 0 {
        lemma_field_map_keys(fs.drop_last());
        assert(keys_of(fs) =~= keys_of(fs.drop_last()).push(fs.last().0@));
        let n = fs.len() - 1;
        assert(field_map(fs) == field_map(fs.drop_last()).insert(fs.last().0@, fs.last().1@));
        assert(keys_of(fs)[n] == fs.last().0@);
        assert forall|k: Seq<char>| #[trigger] field_map(fs).contains_key(k) <==> keys_of(fs).contains(k) by {
            if keys_of(fs).contains(k) {
                let j = choose|j: int| 0 <= j < keys_of(fs).len() && keys_of(fs)[j] == k;
                if j < n {
                    assert(keys_of(fs.drop_last())[j] == k);
                    assert(keys_of(fs.drop_last()).contains(k));
                }
            }
            if keys_of(fs.drop_last()).contains(k) {
                let j = choose|j: int| 0 <= j < keys_of(fs.drop_last()).len() && keys_of(fs.drop_last())[j] == k;
                assert(keys_of(fs)[j] == k);
            }
            if k == fs.last().0@ {
                assert(keys_of(fs).contains(k));
            }
        }
    }
}

} // verus!
