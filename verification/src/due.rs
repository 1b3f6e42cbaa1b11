//! **The stored due moment, kept current by any write that could move it.**
//! A write is only looked at when it touches a key some carrier falls due
//! on; then the thing's fields are projected to what they will read once the
//! write lands — what it clears gone, what it writes in place — and that
//! projection is what the due moment is computed from.

use vstd::prelude::*;
use crate::claims::{field_map, keys_of, keys_unique, lemma_field_map_keys};
use crate::declined::texts;
use crate::text::same_text;

verus! {

/// Whether a write touches any key a carrier falls due on: one it writes,
/// or one it clears.
pub open spec fn touches_of(keys: Seq<Seq<char>>, incoming: Seq<(String, String)>, cleared: Seq<String>) -> bool {
    exists|i: int| 0 <= i < keys.len() && (keys_of(incoming).contains(keys[i]) || texts(cleared).contains(keys[i]))
}

fn names(items: &Vec<String>, key: &str) -> (b: bool)
    ensures
        b == texts(items@).contains(key@),
{
    let mut i: usize = 0;
    while i < items.len()
        invariant
            i <= items.len(),
            forall|j: int| 0 <= j < i ==> texts(items@)[j] != key@,
        decreases items.len() - i,
    {
        if same_text(items[i].as_str(), key) {
            assert(texts(items@)[i as int] == key@);
            return true;
        }
        i = i + 1;
    }
    assert(!texts(items@).contains(key@)) by {
        if texts(items@).contains(key@) {
            let j = choose|j: int| 0 <= j < texts(items@).len() && texts(items@)[j] == key@;
            assert(texts(items@)[j] != key@);
        }
    }
    false
}

fn writes(fields: &Vec<(String, String)>, key: &str) -> (b: bool)
    ensures
        b == keys_of(fields@).contains(key@),
{
    let mut i: usize = 0;
    while i < fields.len()
        invariant
            i <= fields.len(),
            forall|j: int| 0 <= j < i ==> keys_of(fields@)[j] != key@,
        decreases fields.len() - i,
    {
        if same_text(fields[i].0.as_str(), key) {
            assert(keys_of(fields@)[i as int] == key@);
            return true;
        }
        i = i + 1;
    }
    assert(!keys_of(fields@).contains(key@)) by {
        if keys_of(fields@).contains(key@) {
            let j = choose|j: int| 0 <= j < keys_of(fields@).len() && keys_of(fields@)[j] == key@;
            assert(keys_of(fields@)[j] != key@);
        }
    }
    false
}

/// **Whether this write could move a due moment at all**: it writes or
/// clears a key some carrier's interface names. A write that touches none is
/// answered before anything is read.
pub fn write_touches(keys: &Vec<String>, incoming: &Vec<(String, String)>, cleared: &Vec<String>) -> (b: bool)
    ensures
        b == touches_of(texts(keys@), incoming@, cleared@),
{
    let mut i: usize = 0;
    while i < keys.len()
        invariant
            i <= keys.len(),
            forall|j: int| 0 <= j < i ==> !keys_of(incoming@).contains(texts(keys@)[j]) && !texts(cleared@).contains(texts(keys@)[j]),
        decreases keys.len() - i,
    {
        let k = keys[i].as_str();
        if writes(incoming, k) || names(cleared, k) {
            assert(texts(keys@)[i as int] == keys@[i as int]@);
            return true;
        }
        i = i + 1;
    }
    false
}

/// The keys a write clears, as a set.
pub open spec fn cleared_set(cleared: Seq<String>) -> Set<Seq<char>> {
    Set::new(|k: Seq<char>| texts(cleared).contains(k))
}

/// **What a thing will hold once a write lands**: what it held, less every
/// key the write clears, with every key the write carries at its new value.
pub open spec fn projected_of(held: Seq<(String, String)>, cleared: Seq<String>, incoming: Seq<(String, String)>) -> Map<Seq<char>, Seq<char>> {
    field_map(held).remove_keys(cleared_set(cleared)).union_prefer_right(field_map(incoming))
}

/// **One record written over another**: every key `over` carries at the
/// value it carries there, and every other key of `base` as it was. Written
/// over two maps, the answer is a map.
pub fn overlay(base: &Vec<(String, String)>, over: &Vec<(String, String)>) -> (out: Vec<(String, String)>)
    ensures
        field_map(out@) == field_map(base@).union_prefer_right(field_map(over@)),
        keys_unique(base@) && keys_unique(over@) ==> keys_unique(out@),
{
    let ghost written = Set::new(|k: Seq<char>| keys_of(over@).contains(k));
    let mut out: Vec<(String, String)> = Vec::new();
    let mut i: usize = 0;
    assert(base@.take(0) =~= Seq::<(String, String)>::empty());
    assert(field_map(out@) =~= field_map(base@.take(0)).remove_keys(written));
    while i < base.len()
        invariant
            i <= base.len(),
            written == Set::new(|k: Seq<char>| keys_of(over@).contains(k)),
            field_map(out@) == field_map(base@.take(i as int)).remove_keys(written),
            forall|m: int| 0 <= m < out@.len() ==> !keys_of(over@).contains(#[trigger] out@[m].0@),
            forall|m: int| 0 <= m < out@.len() ==> exists|j: int| 0 <= j < i && base@[j].0@ == #[trigger] out@[m].0@,
            keys_unique(base@) ==> keys_unique(out@),
        decreases base.len() - i,
    {
        let ghost before = base@.take(i as int);
        proof {
            assert(base@.take(i + 1).drop_last() =~= before);
            assert(base@.take(i + 1).last() == base@[i as int]);
        }
        if writes(over, base[i].0.as_str()) {
            proof {
                assert(written.contains(base@[i as int].0@));
                assert(field_map(base@.take(i + 1)).remove_keys(written) =~= field_map(before).remove_keys(written));
            }
        } else {
            let entry = (base[i].0.clone(), base[i].1.clone());
            let ghost was = out@;
            out.push(entry);
            proof {
                assert(out@.drop_last() =~= was);
                assert(!written.contains(base@[i as int].0@));
                assert(field_map(base@.take(i + 1)).remove_keys(written) =~= field_map(before).remove_keys(written).insert(base@[i as int].0@, base@[i as int].1@));
                assert forall|m: int| 0 <= m < out@.len() implies exists|j: int| 0 <= j < i + 1 && base@[j].0@ == #[trigger] out@[m].0@ by {
                    if m < was.len() {
                        assert(out@[m] == was[m]);
                    } else {
                        assert(base@[i as int].0@ == out@[m].0@);
                    }
                }
                if keys_unique(base@) {
                    assert forall|x: int, y: int| 0 <= x < y < out@.len() implies #[trigger] out@[x].0@ != #[trigger] out@[y].0@ by {
                        if y == out@.len() - 1 {
                            assert(out@[x] == was[x]);
                            let j = choose|j: int| 0 <= j < i && base@[j].0@ == was[x].0@;
                            assert(base@[j].0@ != base@[i as int].0@);
                        } else {
                            assert(out@[x] == was[x] && out@[y] == was[y]);
                        }
                    }
                }
            }
        }
        i = i + 1;
    }
    assert(base@.take(base.len() as int) =~= base@);
    let ghost kept = out@.len();
    let ghost rest = field_map(base@).remove_keys(written);
    let mut j: usize = 0;
    assert(over@.take(0) =~= Seq::<(String, String)>::empty());
    assert(field_map(out@) =~= rest.union_prefer_right(field_map(over@.take(0))));
    while j < over.len()
        invariant
            j <= over.len(),
            written == Set::new(|k: Seq<char>| keys_of(over@).contains(k)),
            field_map(out@) == rest.union_prefer_right(field_map(over@.take(j as int))),
            out@.len() == kept + j,
            forall|m: int| 0 <= m < kept ==> !keys_of(over@).contains(#[trigger] out@[m].0@),
            forall|m: int| kept <= m < out@.len() ==> #[trigger] out@[m].0@ == over@[m - kept].0@,
            keys_unique(base@) ==> keys_unique(out@.take(kept as int)),
            keys_unique(base@) && keys_unique(over@) ==> keys_unique(out@),
        decreases over.len() - j,
    {
        let ghost before = over@.take(j as int);
        proof {
            assert(over@.take(j + 1).drop_last() =~= before);
            assert(over@.take(j + 1).last() == over@[j as int]);
        }
        let entry = (over[j].0.clone(), over[j].1.clone());
        let ghost was = out@;
        out.push(entry);
        proof {
            assert(out@.drop_last() =~= was);
            assert(rest.union_prefer_right(field_map(over@.take(j + 1))) =~= rest.union_prefer_right(field_map(before)).insert(over@[j as int].0@, over@[j as int].1@));
            assert(out@.take(kept as int) =~= was.take(kept as int));
            assert forall|m: int| 0 <= m < kept implies !keys_of(over@).contains(#[trigger] out@[m].0@) by {
                assert(out@[m] == was[m]);
            }
            assert forall|m: int| kept <= m < out@.len() implies #[trigger] out@[m].0@ == over@[m - kept].0@ by {
                if m < was.len() {
                    assert(out@[m] == was[m]);
                }
            }
            assert(keys_of(over@)[j as int] == over@[j as int].0@);
            if keys_unique(base@) && keys_unique(over@) {
                assert forall|x: int, y: int| 0 <= x < y < out@.len() implies #[trigger] out@[x].0@ != #[trigger] out@[y].0@ by {
                    if y == out@.len() - 1 {
                        if x < kept {
                            assert(out@[x] == was[x]);
                            assert(!keys_of(over@).contains(out@[x].0@));
                            assert(keys_of(over@).contains(out@[y].0@));
                        } else {
                            assert(out@[x] == was[x]);
                            assert(out@[x].0@ == over@[x - kept].0@);
                            assert(over@[x - kept].0@ != over@[j as int].0@);
                        }
                    } else {
                        assert(out@[x] == was[x] && out@[y] == was[y]);
                    }
                }
            }
        }
        j = j + 1;
    }
    assert(over@.take(over.len() as int) =~= over@);
    proof {
        lemma_field_map_keys(over@);
        assert(rest.union_prefer_right(field_map(over@)) =~= field_map(base@).union_prefer_right(field_map(over@)));
    }
    out
}

/// **The fields a due moment is computed from**, projected: the thing's
/// current fields with the write's clears taken off and its keys written in.
pub fn projected_fields(held: &Vec<(String, String)>, cleared: &Vec<String>, incoming: &Vec<(String, String)>) -> (p: Vec<(String, String)>)
    ensures
        field_map(p@) == projected_of(held@, cleared@, incoming@),
        keys_unique(held@) && keys_unique(incoming@) ==> keys_unique(p@),
{
    let ghost gone = cleared_set(cleared@);
    let mut out: Vec<(String, String)> = Vec::new();
    let mut i: usize = 0;
    assert(held@.take(0) =~= Seq::<(String, String)>::empty());
    assert(field_map(out@) =~= field_map(held@.take(0)).remove_keys(gone));
    while i < held.len()
        invariant
            i <= held.len(),
            gone == cleared_set(cleared@),
            field_map(out@) == field_map(held@.take(i as int)).remove_keys(gone),
            forall|m: int| 0 <= m < out@.len() ==> exists|j: int| 0 <= j < i && held@[j].0@ == #[trigger] out@[m].0@,
            keys_unique(held@) ==> keys_unique(out@),
        decreases held.len() - i,
    {
        let k = held[i].0.as_str();
        let ghost before = held@.take(i as int);
        proof {
            assert(held@.take(i + 1).drop_last() =~= before);
            assert(held@.take(i + 1).last() == held@[i as int]);
        }
        if names(cleared, k) {
            proof {
                assert(gone.contains(held@[i as int].0@));
                assert(field_map(held@.take(i + 1)).remove_keys(gone) =~= field_map(before).remove_keys(gone));
            }
        } else {
            let entry = (held[i].0.clone(), held[i].1.clone());
            let ghost was = out@;
            out.push(entry);
            proof {
                assert(out@.drop_last() =~= was);
                assert(!gone.contains(held@[i as int].0@));
                assert(field_map(held@.take(i + 1)).remove_keys(gone) =~= field_map(before).remove_keys(gone).insert(held@[i as int].0@, held@[i as int].1@));
                assert forall|m: int| 0 <= m < out@.len() implies exists|j: int| 0 <= j < i + 1 && held@[j].0@ == #[trigger] out@[m].0@ by {
                    if m < was.len() {
                        assert(out@[m] == was[m]);
                    } else {
                        assert(held@[i as int].0@ == out@[m].0@);
                    }
                }
                if keys_unique(held@) {
                    assert forall|x: int, y: int| 0 <= x < y < out@.len() implies #[trigger] out@[x].0@ != #[trigger] out@[y].0@ by {
                        if y == out@.len() - 1 {
                            assert(out@[x] == was[x]);
                            let j = choose|j: int| 0 <= j < i && held@[j].0@ == was[x].0@;
                            assert(held@[j].0@ != held@[i as int].0@);
                        } else {
                            assert(out@[x] == was[x] && out@[y] == was[y]);
                        }
                    }
                }
            }
        }
        i = i + 1;
    }
    assert(held@.take(held.len() as int) =~= held@);
    overlay(&out, incoming)
}

} // verus!
