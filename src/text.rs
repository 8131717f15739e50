//! Strings as the protocol sees them: the order in which `str` values compare,
//! prefixes, space-joined lists and order-preserving de-duplication.
use core::cmp::Ordering;
use vstd::prelude::*;
use vstd::utf8::*;

verus! {

/// Lexicographic order of two byte strings, looking from position `i` on
/// (the positions before `i` are taken to be equal).
pub open spec fn bytes_lt_from(a: Seq<u8>, b: Seq<u8>, i: int) -> bool
    decreases a.len() - i,
{
    if i < 0 || i >= b.len() {
        false
    } else if i >= a.len() {
        true
    } else if a[i] != b[i] {
        a[i] < b[i]
    } else {
        bytes_lt_from(a, b, i + 1)
    }
}

/// The order of `str`: lexicographic over the UTF-8 encoding.
pub open spec fn str_lt(a: Seq<char>, b: Seq<char>) -> bool {
    bytes_lt_from(encode_utf8(a), encode_utf8(b), 0)
}

/// Every element is smaller than each element after it (so there are no duplicates).
pub open spec fn strictly_sorted(s: Seq<Seq<char>>) -> bool {
    forall|i: int, j: int| 0 <= i < j < s.len() ==> str_lt(#[trigger] s[i], #[trigger] s[j])
}

/// `p` is a prefix of `s`.
pub open spec fn is_prefix(p: Seq<char>, s: Seq<char>) -> bool {
    p.len() <= s.len() && s.subrange(0, p.len() as int) == p
}

/// The elements of `s` joined by single spaces.
pub open spec fn join_with_spaces(s: Seq<Seq<char>>) -> Seq<char>
    decreases s.len(),
{
    if s.len() == 0 {
        Seq::empty()
    } else if s.len() == 1 {
        s[0]
    } else {
        join_with_spaces(s.drop_last()) + seq![' '] + s.last()
    }
}

/// `s` with every element after its first occurrence removed; the order of first
/// occurrences is kept.
pub open spec fn dedup_keep_first(s: Seq<Seq<char>>) -> Seq<Seq<char>>
    decreases s.len(),
{
    if s.len() == 0 {
        Seq::empty()
    } else {
        let d = dedup_keep_first(s.drop_last());
        if d.contains(s.last()) {
            d
        } else {
            d.push(s.last())
        }
    }
}

pub proof fn lemma_bytes_lt_irreflexive(a: Seq<u8>, i: int)
    requires
        0 <= i,
    ensures
        !bytes_lt_from(a, a, i),
    decreases a.len() - i,
{
    if i < a.len() {
        lemma_bytes_lt_irreflexive(a, i + 1);
    }
}

pub proof fn lemma_bytes_lt_asymmetric(a: Seq<u8>, b: Seq<u8>, i: int)
    requires
        0 <= i,
        bytes_lt_from(a, b, i),
    ensures
        !bytes_lt_from(b, a, i),
    decreases a.len() - i,
{
    if i < a.len() && i < b.len() && a[i] == b[i] {
        lemma_bytes_lt_asymmetric(a, b, i + 1);
    }
}

pub proof fn lemma_bytes_lt_transitive(a: Seq<u8>, b: Seq<u8>, c: Seq<u8>, i: int)
    requires
        0 <= i,
        bytes_lt_from(a, b, i),
        bytes_lt_from(b, c, i),
    ensures
        bytes_lt_from(a, c, i),
    decreases a.len() - i,
{
    if i < a.len() && a[i] == b[i] && b[i] == c[i] {
        lemma_bytes_lt_transitive(a, b, c, i + 1);
    }
}

pub proof fn lemma_encode_utf8_injective(a: Seq<char>, b: Seq<char>)
    requires
        encode_utf8(a) == encode_utf8(b),
    ensures
        a == b,
{
    encode_utf8_decode_utf8(a);
    encode_utf8_decode_utf8(b);
}

pub proof fn lemma_str_lt_irreflexive(a: Seq<char>)
    ensures
        !str_lt(a, a),
{
    lemma_bytes_lt_irreflexive(encode_utf8(a), 0);
}

pub proof fn lemma_str_lt_asymmetric(a: Seq<char>, b: Seq<char>)
    requires
        str_lt(a, b),
    ensures
        !str_lt(b, a),
{
    lemma_bytes_lt_asymmetric(encode_utf8(a), encode_utf8(b), 0);
}

pub proof fn lemma_str_lt_transitive(a: Seq<char>, b: Seq<char>, c: Seq<char>)
    requires
        str_lt(a, b),
        str_lt(b, c),
    ensures
        str_lt(a, c),
{
    lemma_bytes_lt_transitive(encode_utf8(a), encode_utf8(b), encode_utf8(c), 0);
}

/// Compares two strings as `str` does.
pub fn compare_str(a: &str, b: &str) -> (r: Ordering)
    ensures
        (r == Ordering::Less) == str_lt(a@, b@),
        (r == Ordering::Equal) == (a@ == b@),
        (r == Ordering::Greater) == str_lt(b@, a@),
{
    let x = a.as_bytes();
    let y = b.as_bytes();
    proof {
        assert(x@.subrange(0, 0) == y@.subrange(0, 0));
    }
    let mut i: usize = 0;
    while i < x.len() && i < y.len()
        invariant
            x@ == encode_utf8(a@),
            y@ == encode_utf8(b@),
            i <= x@.len(),
            i <= y@.len(),
            x@.subrange(0, i as int) == y@.subrange(0, i as int),
            bytes_lt_from(x@, y@, 0) == bytes_lt_from(x@, y@, i as int),
            bytes_lt_from(y@, x@, 0) == bytes_lt_from(y@, x@, i as int),
        decreases x@.len() - i,
    {
        if x[i] != y[i] {
            proof {
                if a@ == b@ {
                    assert(x@ == y@);
                }
            }
            if x[i] < y[i] {
                return Ordering::Less;
            } else {
                return Ordering::Greater;
            }
        }
        proof {
            assert(x@.subrange(0, i + 1) == x@.subrange(0, i as int).push(x@[i as int]));
            assert(y@.subrange(0, i + 1) == y@.subrange(0, i as int).push(y@[i as int]));
        }
        i = i + 1;
    }
    if i < y.len() {
        proof {
            if a@ == b@ {
                assert(x@ == y@);
            }
        }
        Ordering::Less
    } else if i < x.len() {
        proof {
            if a@ == b@ {
                assert(x@ == y@);
            }
        }
        Ordering::Greater
    } else {
        proof {
            assert(x@ == x@.subrange(0, i as int));
            assert(y@ == y@.subrange(0, i as int));
            lemma_encode_utf8_injective(a@, b@);
            lemma_str_lt_irreflexive(a@);
        }
        Ordering::Equal
    }
}

/// Relies on `str::starts_with`: whether `prefix` matches the start of `s`.
#[verifier::external_body]
pub fn starts_with(s: &str, prefix: &str) -> (r: bool)
    ensures
        r == is_prefix(prefix@, s@),
{
    s.starts_with(prefix)
}

/// Whether `items` holds a string equal to `s`.
pub fn contains_str(items: &Vec<String>, s: &str) -> (r: bool)
    ensures
        r == items.deep_view().contains(s@),
{
    let mut i: usize = 0;
    while i < items.len()
        invariant
            i <= items@.len(),
            forall|k: int| 0 <= k < i ==> items@[k]@ != s@,
        decreases items@.len() - i,
    {
        match compare_str(items[i].as_str(), s) {
            Ordering::Equal => {
                assert(items.deep_view()[i as int] == s@);
                return true;
            },
            _ => {},
        }
        i = i + 1;
    }
    assert forall|k: int| 0 <= k < items.deep_view().len() implies items.deep_view()[k] != s@ by {
        assert(items.deep_view()[k] == items@[k]@);
    }
    false
}

/// The strings of `items` joined by single spaces.
pub fn join_spaced(items: &Vec<String>) -> (r: String)
    ensures
        r@ == join_with_spaces(items.deep_view()),
{
    let mut out = String::new();
    let mut i: usize = 0;
    proof {
        reveal_strlit(" ");
        assert(items.deep_view().subrange(0, 0) == Seq::<Seq<char>>::empty());
    }
    while i < items.len()
        invariant
            i <= items@.len(),
            out@ == join_with_spaces(items.deep_view().subrange(0, i as int)),
            " "@ == seq![' '],
        decreases items@.len() - i,
    {
        let ghost before = items.deep_view().subrange(0, i as int);
        let ghost after = items.deep_view().subrange(0, i + 1);
        assert(after.drop_last() == before);
        assert(after.last() == items@[i as int]@);
        if i > 0 {
            out.append(" ");
        }
        out.append(items[i].as_str());
        i = i + 1;
    }
    assert(items.deep_view().subrange(0, items@.len() as int) == items.deep_view());
    out
}

/// `items` without repeated strings, each kept where it first occurs.
pub fn dedup_in_order(items: &Vec<String>) -> (r: Vec<String>)
    ensures
        r.deep_view() == dedup_keep_first(items.deep_view()),
{
    let mut out: Vec<String> = Vec::new();
    let mut i: usize = 0;
    proof {
        assert(items.deep_view().subrange(0, 0) == Seq::<Seq<char>>::empty());
        assert(out.deep_view() == Seq::<Seq<char>>::empty());
    }
    while i < items.len()
        invariant
            i <= items@.len(),
            out.deep_view() == dedup_keep_first(items.deep_view().subrange(0, i as int)),
        decreases items@.len() - i,
    {
        let ghost after = items.deep_view().subrange(0, i + 1);
        assert(after.drop_last() == items.deep_view().subrange(0, i as int));
        assert(after.last() == items@[i as int]@);
        if !contains_str(&out, items[i].as_str()) {
            let ghost old_out = out.deep_view();
            out.push(items[i].clone());
            assert(out.deep_view() == old_out.push(items@[i as int]@));
        }
        i = i + 1;
    }
    assert(items.deep_view().subrange(0, items@.len() as int) == items.deep_view());
    out
}

/// Two strictly sorted sequences with the same elements are the same sequence.
pub proof fn lemma_sorted_unique(a: Seq<Seq<char>>, b: Seq<Seq<char>>)
    requires
        strictly_sorted(a),
        strictly_sorted(b),
        forall|x: Seq<char>| a.contains(x) <==> b.contains(x),
    ensures
        a == b,
    decreases a.len(),
{
    if a.len() == 0 {
        if b.len() > 0 {
            assert(b.contains(b[0]));
        }
        assert(a == b);
    } else {
        assert(a.contains(a[0]));
        assert(b.contains(b[0]));
        let j = choose|j: int| 0 <= j < b.len() && b[j] == a[0];
        let i = choose|i: int| 0 <= i < a.len() && a[i] == b[0];
        if j > 0 {
            if i > 0 {
                lemma_str_lt_asymmetric(a[0], a[i]);
            } else {
                lemma_str_lt_irreflexive(b[0]);
            }
        }
        assert(a[0] == b[0]);
        let a1 = a.drop_first();
        let b1 = b.drop_first();
        assert forall|x: Seq<char>| a1.contains(x) implies b1.contains(x) by {
            let k = choose|k: int| 0 <= k < a1.len() && a1[k] == x;
            assert(a.contains(x)) by { assert(a[k + 1] == x); }
            let m = choose|m: int| 0 <= m < b.len() && b[m] == x;
            if m == 0 {
                assert(str_lt(a[0], a[k + 1]));
                lemma_str_lt_irreflexive(x);
            }
            assert(b1[m - 1] == x);
        }
        assert forall|x: Seq<char>| b1.contains(x) implies a1.contains(x) by {
            let k = choose|k: int| 0 <= k < b1.len() && b1[k] == x;
            assert(b.contains(x)) by { assert(b[k + 1] == x); }
            let m = choose|m: int| 0 <= m < a.len() && a[m] == x;
            if m == 0 {
                assert(str_lt(b[0], b[k + 1]));
                lemma_str_lt_irreflexive(x);
            }
            assert(a1[m - 1] == x);
        }
        assert(strictly_sorted(a1)) by {
            assert forall|p: int, q: int| 0 <= p < q < a1.len() implies str_lt(a1[p], a1[q]) by {
                assert(a1[p] == a[p + 1] && a1[q] == a[q + 1]);
            }
        }
        assert(strictly_sorted(b1)) by {
            assert forall|p: int, q: int| 0 <= p < q < b1.len() implies str_lt(b1[p], b1[q]) by {
                assert(b1[p] == b[p + 1] && b1[q] == b[q + 1]);
            }
        }
        lemma_sorted_unique(a1, b1);
        assert(a == seq![a[0]] + a1);
        assert(b == seq![b[0]] + b1);
    }
}

/// Puts `s` into the strictly sorted `items` unless an equal string is there already.
pub fn insert_sorted(items: &mut Vec<String>, s: String)
    requires
        strictly_sorted(old(items).deep_view()),
    ensures
        strictly_sorted(final(items).deep_view()),
        forall|x: Seq<char>|
            final(items).deep_view().contains(x) <==> (old(items).deep_view().contains(x) || x
                == s@),
{
    let ghost v0 = items.deep_view();
    let mut p: usize = 0;
    let mut found_greater = false;
    while p < items.len() && !found_greater
        invariant
            items.deep_view() == v0,
            strictly_sorted(v0),
            p <= items@.len(),
            forall|k: int| 0 <= k < p ==> str_lt(#[trigger] v0[k], s@),
            found_greater ==> p < v0.len() && str_lt(s@, v0[p as int]),
        decreases items@.len() - p, if found_greater { 0int } else { 1int },
    {
        assert(v0[p as int] == items@[p as int]@);
        match compare_str(items[p].as_str(), s.as_str()) {
            Ordering::Less => {
                p = p + 1;
            },
            Ordering::Equal => {
                assert(v0.contains(s@));
                return ;
            },
            Ordering::Greater => {
                found_greater = true;
            },
        }
    }
    proof {
        if p < v0.len() {
            assert forall|k: int| p < k < v0.len() implies str_lt(s@, #[trigger] v0[k]) by {
                lemma_str_lt_transitive(s@, v0[p as int], v0[k]);
            }
        }
    }
    let ghost sv = s@;
    items.insert(p, s);
    let ghost v1 = items.deep_view();
    assert(v1 == v0.insert(p as int, sv));
    assert forall|i: int, j: int| 0 <= i < j < v1.len() implies str_lt(
        #[trigger] v1[i],
        #[trigger] v1[j],
    ) by {
        if j < p {
        } else if j == p {
        } else if i < p {
            assert(v1[j] == v0[j - 1]);
            lemma_str_lt_transitive(v0[i], sv, v0[j - 1]);
        } else if i == p {
        } else {
            assert(v1[i] == v0[i - 1]);
        }
    }
    assert forall|x: Seq<char>| v1.contains(x) <==> (v0.contains(x) || x == sv) by {
        if v1.contains(x) {
            let k = choose|k: int| 0 <= k < v1.len() && v1[k] == x;
            if k < p {
                assert(v0[k] == x);
            } else if k > p {
                assert(v0[k - 1] == x);
            }
        }
        if v0.contains(x) {
            let k = choose|k: int| 0 <= k < v0.len() && v0[k] == x;
            if k < p {
                assert(v1[k] == x);
            } else {
                assert(v1[k + 1] == x);
            }
        }
        if x == sv {
            assert(v1[p as int] == x);
        }
    }
}

} // verus!

verus! {

/// A copy of `items`.
pub fn clone_strings(items: &Vec<String>) -> (r: Vec<String>)
    ensures
        r.deep_view() == items.deep_view(),
{
    let mut out: Vec<String> = Vec::new();
    let mut i: usize = 0;
    while i < items.len()
        invariant
            i <= items@.len(),
            out@.len() == i,
            forall|k: int| 0 <= k < i ==> #[trigger] out@[k]@ == items@[k]@,
        decreases items@.len() - i,
    {
        out.push(items[i].clone());
        i = i + 1;
    }
    assert(out.deep_view() =~= items.deep_view());
    out
}

/// A copy of `items`, if there are any.
pub fn clone_optional_strings(items: &Option<Vec<String>>) -> (r: Option<Vec<String>>)
    ensures
        r.deep_view() == items.deep_view(),
{
    match items {
        Some(v) => Some(clone_strings(v)),
        None => None,
    }
}

/// A copy of `s`, if there is one.
pub fn clone_optional_string(s: &Option<String>) -> (r: Option<String>)
    ensures
        r.deep_view() == s.deep_view(),
{
    match s {
        Some(v) => Some(v.clone()),
        None => None,
    }
}

} // verus!
