use vstd::prelude::*;
use crate::scan::texts;
use crate::text::{chars_of, owned};

verus! {

/// `c` with an ASCII capital letter made small.
pub open spec fn ascii_lower(c: char) -> char {
    if 'A' <= c <= 'Z' {
        ((c as u8) + 32u8) as char
    } else {
        c
    }
}

/// `str::eq_ignore_ascii_case`: equal once ASCII letters are made small.
pub open spec fn same_ignoring_case(a: Seq<char>, b: Seq<char>) -> bool {
    &&& a.len() == b.len()
    &&& forall|i: int| 0 <= i < a.len() ==> ascii_lower(#[trigger] a[i]) == ascii_lower(b[i])
}

/// Whether `list` holds `t` up to ASCII case.
pub open spec fn listed_ignoring_case(list: Seq<Seq<char>>, t: Seq<char>) -> bool {
    exists|i: int| 0 <= i < list.len() && same_ignoring_case(#[trigger] list[i], t)
}

/// `base` followed by each tag of `extra` that is not listed yet (up to
/// ASCII case), in order.
pub open spec fn merged_tags(base: Seq<Seq<char>>, extra: Seq<Seq<char>>) -> Seq<Seq<char>>
    decreases extra.len(),
{
    if extra.len() == 0 {
        base
    } else {
        let m = merged_tags(base, extra.drop_last());
        if listed_ignoring_case(m, extra.last()) {
            m
        } else {
            m.push(extra.last())
        }
    }
}

fn lower(c: char) -> (r: char)
    ensures
        r == ascii_lower(c),
{
    if 'A' <= c && c <= 'Z' {
        ((c as u8) + 32u8) as char
    } else {
        c
    }
}

/// Whether `a` and `b` are equal up to ASCII case.
pub fn eq_ignore_case(a: &str, b: &str) -> (r: bool)
    ensures
        r == same_ignoring_case(a@, b@),
{
    let x = chars_of(a);
    let y = chars_of(b);
    if x.len() != y.len() {
        return false;
    }
    for i in 0..x.len()
        invariant
            x@ == a@,
            y@ == b@,
            x@.len() == y@.len(),
            forall|j: int| 0 <= j < i ==> ascii_lower(#[trigger] x@[j]) == ascii_lower(y@[j]),
    {
        if lower(x[i]) != lower(y[i]) {
            return false;
        }
    }
    true
}

/// Whether `list` holds `t` up to ASCII case.
pub fn has_tag(list: &Vec<String>, t: &str) -> (r: bool)
    ensures
        r == listed_ignoring_case(texts(list@), t@),
{
    for i in 0..list.len()
        invariant
            forall|j: int| 0 <= j < i ==> !same_ignoring_case(#[trigger] texts(list@)[j], t@),
    {
        if eq_ignore_case(list[i].as_str(), t) {
            assert(same_ignoring_case(texts(list@)[i as int], t@));
            return true;
        }
    }
    false
}

/// A copy of a list of strings.
pub fn copy_texts(v: &Vec<String>) -> (r: Vec<String>)
    ensures
        texts(r@) == texts(v@),
{
    let mut r: Vec<String> = Vec::new();
    for i in 0..v.len()
        invariant
            texts(r@) == texts(v@).take(i as int),
    {
        let ghost prev = texts(r@);
        r.push(owned(v[i].as_str()));
        assert(texts(r@) =~= prev.push(v@[i as int]@));
        assert(texts(r@) =~= texts(v@).take(i + 1));
    }
    assert(texts(v@).take(v.len() as int) =~= texts(v@));
    r
}

/// Adds to `base` each tag of `extra` that it does not hold yet, ignoring
/// ASCII case.
pub fn merge_tags(base: &Vec<String>, extra: &Vec<String>) -> (r: Vec<String>)
    ensures
        texts(r@) == merged_tags(texts(base@), texts(extra@)),
{
    let mut r = copy_texts(base);
    for i in 0..extra.len()
        invariant
            texts(r@) == merged_tags(texts(base@), texts(extra@).take(i as int)),
    {
        assert(texts(extra@).take(i + 1).drop_last() =~= texts(extra@).take(i as int));
        if !has_tag(&r, extra[i].as_str()) {
            let ghost prev = texts(r@);
            r.push(owned(extra[i].as_str()));
            assert(texts(r@) =~= prev.push(extra@[i as int]@));
        }
    }
    assert(texts(extra@).take(extra.len() as int) =~= texts(extra@));
    r
}

/// Merging tags keeps the base list in front and then lists every extra
/// tag, up to ASCII case; it adds nothing else.
pub proof fn law_merge_keeps_all(base: Seq<Seq<char>>, extra: Seq<Seq<char>>)
    ensures
        merged_tags(base, extra).len() >= base.len(),
        merged_tags(base, extra).take(base.len() as int) == base,
        forall|j: int|
            0 <= j < extra.len() ==> listed_ignoring_case(merged_tags(base, extra), #[trigger] extra[j]),
        forall|k: int|
            base.len() <= k < merged_tags(base, extra).len() ==> extra.contains(
                #[trigger] merged_tags(base, extra)[k],
            ),
    decreases extra.len(),
{
    if extra.len() == 0 {
        assert(base.take(base.len() as int) =~= base);
    } else {
        let d = extra.drop_last();
        law_merge_keeps_all(base, d);
        let m = merged_tags(base, d);
        let r = merged_tags(base, extra);
        let t = extra.last();
        if listed_ignoring_case(m, t) {
            assert(r == m);
        } else {
            assert(r == m.push(t));
            assert(r.take(base.len() as int) =~= m.take(base.len() as int));
            assert(same_ignoring_case(r[m.len() as int], t));
        }
        assert forall|j: int| 0 <= j < extra.len() implies listed_ignoring_case(r, #[trigger] extra[j]) by {
            if j < d.len() {
                assert(extra[j] == d[j]);
                assert(listed_ignoring_case(m, d[j]));
                let i = choose|i: int| 0 <= i < m.len() && same_ignoring_case(#[trigger] m[i], d[j]);
                assert(r[i] == m[i]);
            } else if listed_ignoring_case(m, t) {
            } else {
                assert(same_ignoring_case(r[m.len() as int], t));
            }
        }
        assert forall|k: int| base.len() <= k < r.len() implies extra.contains(#[trigger] r[k]) by {
            if k < m.len() {
                assert(r[k] == m[k]);
                assert(d.contains(m[k]));
                let j = choose|j: int| 0 <= j < d.len() && d[j] == m[k];
                assert(extra[j] == d[j]);
            } else {
                assert(r[k] == t);
                assert(extra[extra.len() - 1] == t);
            }
        }
    }
}

} // verus!
