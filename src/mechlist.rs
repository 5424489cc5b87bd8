//! Membership of a mechanism name in the advertised, comma-separated list.

use vstd::prelude::*;

verus! {

/// The separator of the advertised mechanism list.
pub const COMMA: u8 = 0x2c;

/// `s` holds no separator.
pub open spec fn has_no_comma(s: Seq<u8>) -> bool {
    forall|k: int| 0 <= k < s.len() ==> s[k] != COMMA
}

/// `list[i..j]` is delimited by separators or by the ends of `list`.
pub open spec fn is_delimited(list: Seq<u8>, i: int, j: int) -> bool {
    &&& 0 <= i <= j <= list.len()
    &&& (i == 0 || list[i - 1] == COMMA)
    &&& (j == list.len() || list[j] == COMMA)
}

/// `name` is one of the non-empty elements of the comma-separated `list`,
/// byte for byte.
pub open spec fn mech_offered(list: Seq<u8>, name: Seq<u8>) -> bool {
    &&& name.len() > 0
    &&& has_no_comma(name)
    &&& exists|i: int, j: int| #[trigger] is_delimited(list, i, j) && list.subrange(i, j) == name
}

/// In valid UTF-8, a separator starts a character, and so does the end.
pub(crate) proof fn lemma_boundary_at_comma(b: Seq<u8>, k: int)
    requires
        vstd::utf8::valid_utf8(b),
        0 <= k <= b.len(),
        k == b.len() || b[k] == COMMA,
    ensures
        vstd::utf8::is_char_boundary(b, k),
{
    vstd::utf8::is_char_boundary_start_end_of_seq(b);
    if k < b.len() {
        vstd::utf8::is_char_boundary_iff_not_is_continuation_byte(b, k);
    }
}

/// In valid UTF-8 that starts with a separator, the next character starts
/// right after it.
pub(crate) proof fn lemma_boundary_after_comma(b: Seq<u8>)
    requires
        vstd::utf8::valid_utf8(b),
        b.len() >= 1,
        b[0] == COMMA,
    ensures
        vstd::utf8::is_char_boundary(b, 1),
{
    assert(vstd::utf8::length_of_first_scalar(b) == 1);
    reveal_with_fuel(vstd::utf8::is_char_boundary, 2);
}

/// Whether `s` holds a separator.
pub(crate) fn has_comma(s: &[u8]) -> (r: bool)
    ensures
        r == !has_no_comma(s@),
{
    let mut i: usize = 0;
    while i < s.len()
        invariant
            i <= s@.len(),
            forall|k: int| 0 <= k < i ==> s@[k] != COMMA,
        decreases s@.len() - i,
    {
        if s[i] == COMMA {
            return true;
        }
        i += 1;
    }
    false
}

/// Whether `list[start..end]` equals `name`.
fn segment_equals(list: &[u8], start: usize, end: usize, name: &[u8]) -> (r: bool)
    requires
        start <= end <= list@.len(),
    ensures
        r == (list@.subrange(start as int, end as int) == name@),
{
    if end - start != name.len() {
        return false;
    }
    let mut k: usize = 0;
    while k < name.len()
        invariant
            end - start == name@.len(),
            start <= end <= list@.len(),
            k <= name@.len(),
            forall|m: int| 0 <= m < k ==> list@[start + m] == name@[m],
        decreases name@.len() - k,
    {
        if list[start + k] != name[k] {
            assert(list@.subrange(start as int, end as int)[k as int] != name@[k as int]);
            return false;
        }
        k += 1;
    }
    assert(list@.subrange(start as int, end as int) =~= name@);
    true
}

/// Position of `name` among the elements of the comma-separated `list`.
pub(crate) fn find_mech(list: &[u8], name: &[u8]) -> (r: Option<(usize, usize)>)
    requires
        has_no_comma(name@),
    ensures
        match r {
            Some((i, j)) => is_delimited(list@, i as int, j as int) && list@.subrange(
                i as int,
                j as int,
            ) == name@,
            None => forall|i: int, j: int| #[trigger]
                is_delimited(list@, i, j) ==> list@.subrange(i, j) != name@,
        },
{
    let n = list.len();
    let mut start: usize = 0;
    let mut i: usize = 0;
    while i < n
        invariant
            n == list@.len(),
            has_no_comma(name@),
            start <= i <= n,
            start == 0 || list@[start - 1] == COMMA,
            forall|k: int| start <= k < i ==> list@[k] != COMMA,
            forall|a: int, b: int|
                #![trigger is_delimited(list@, a, b)]
                a < start && is_delimited(list@, a, b) ==> list@.subrange(a, b) != name@,
        decreases n - i,
    {
        if list[i] == COMMA {
            if segment_equals(list, start, i, name) {
                return Some((start, i));
            }
            assert forall|a: int, b: int|
                #![trigger is_delimited(list@, a, b)]
                a < i + 1 && is_delimited(list@, a, b) implies list@.subrange(a, b) != name@ by {
                if a >= start && list@.subrange(a, b) == name@ {
                    if a > start {
                        assert(list@[a - 1] == COMMA);
                    }
                    if b < i {
                        assert(list@[b] == COMMA);
                    }
                    if b > i {
                        assert(list@.subrange(a, b)[i - a] == list@[i as int]);
                    }
                    assert(b == i);
                }
            }
            start = i + 1;
        }
        i += 1;
    }
    if segment_equals(list, start, n, name) {
        return Some((start, n));
    }
    assert forall|a: int, b: int| #[trigger]
        is_delimited(list@, a, b) implies list@.subrange(a, b) != name@ by {
        if a >= start && list@.subrange(a, b) == name@ {
            if a > start {
                assert(list@[a - 1] == COMMA);
            }
            if b < n {
                assert(list@[b] == COMMA);
            }
        }
    }
    None
}

} // verus!
