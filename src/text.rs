//! Byte-level text inspection of captured command output.

use vstd::prelude::*;
use vstd::string::StringSliceAdditionalSpecFns;

verus! {

/// `needle` occurs in `hay` starting at position `i`.
pub open spec fn occurs_at(hay: Seq<u8>, needle: Seq<u8>, i: int) -> bool {
    0 <= i && i + needle.len() <= hay.len() && hay.subrange(i, i + needle.len()) == needle
}

/// `needle` occurs somewhere in `hay`.
pub open spec fn contains_spec(hay: Seq<u8>, needle: Seq<u8>) -> bool {
    exists|i: int| occurs_at(hay, needle, i)
}

/// The UTF-8 bytes of a phrase.
pub open spec fn phrase(s: &str) -> Seq<u8> {
    s.spec_bytes()
}

/// Does `needle` occur in `hay`?
pub fn contains(hay: &[u8], needle: &[u8]) -> (r: bool)
    ensures
        r == contains_spec(hay@, needle@),
{
    if needle.len() > hay.len() {
        return false;
    }
    if needle.len() == 0 {
        assert(occurs_at(hay@, needle@, 0)) by {
            assert(hay@.subrange(0, 0) =~= needle@);
        }
        return true;
    }
    let n: usize = hay.len();
    let last: usize = n - needle.len();
    let mut i: usize = 0;
    while i <= last
        invariant
            needle@.len() <= hay@.len(),
            last == hay@.len() - needle@.len(),
            last < usize::MAX,
            n == hay@.len(),
            0 <= i <= last + 1,
            forall|k: int| 0 <= k < i ==> !occurs_at(hay@, needle@, k),
        decreases last + 1 - i,
    {
        let mut j: usize = 0;
        let mut same: bool = true;
        while j < needle.len()
            invariant
                i <= last,
                needle@.len() <= hay@.len(),
                i + needle@.len() <= hay@.len(),
                n == hay@.len(),
                last == hay@.len() - needle@.len(),
                0 <= j <= needle@.len(),
                same == (forall|m: int| 0 <= m < j ==> hay@[i + m] == needle@[m]),
            decreases needle@.len() - j,
        {
            if hay[i + j] != needle[j] {
                same = false;
            }
            j = j + 1;
        }
        if same {
            assert(hay@.subrange(i as int, i + needle@.len()) =~= needle@);
            assert(occurs_at(hay@, needle@, i as int));
            return true;
        }
        assert(!occurs_at(hay@, needle@, i as int)) by {
            if occurs_at(hay@, needle@, i as int) {
                assert(forall|m: int| 0 <= m < needle@.len() ==> hay@[i + m] == #[trigger] hay@.subrange(i as int, i + needle@.len())[m]);
            }
        }
        i = i + 1;
    }
    false
}

/// `k` is where the first line of `s` ends: the first line feed, or the end.
pub open spec fn is_first_line_end(s: Seq<u8>, k: int) -> bool {
    &&& 0 <= k <= s.len()
    &&& forall|i: int| 0 <= i < k ==> s[i] != LINE_FEED
    &&& k < s.len() ==> s[k] == LINE_FEED
}

/// `s` without one trailing carriage return.
pub open spec fn strip_cr(s: Seq<u8>) -> Seq<u8> {
    if s.len() > 0 && s.last() == CARRIAGE_RETURN {
        s.drop_last()
    } else {
        s
    }
}

/// The first line of `s`, without its line terminator.
pub open spec fn first_line_spec(s: Seq<u8>) -> Seq<u8> {
    strip_cr(s.subrange(0, choose|k: int| is_first_line_end(s, k)))
}

pub const LINE_FEED: u8 = 10;

pub const CARRIAGE_RETURN: u8 = 13;

/// Position of the first line feed in `s`, or its length.
pub fn first_line_end(s: &[u8]) -> (r: usize)
    ensures
        is_first_line_end(s@, r as int),
{
    let mut i: usize = 0;
    while i < s.len()
        invariant
            0 <= i <= s@.len(),
            forall|j: int| 0 <= j < i ==> s@[j] != LINE_FEED,
        decreases s@.len() - i,
    {
        if s[i] == LINE_FEED {
            return i;
        }
        i = i + 1;
    }
    i
}

/// The first line of `s` (the text before the first line feed, without a
/// trailing carriage return).
pub fn first_line(s: &[u8]) -> (r: Vec<u8>)
    ensures
        r@ == first_line_spec(s@),
{
    let k = first_line_end(s);
    proof {
        let c = choose|c: int| is_first_line_end(s@, c);
        if c < k {
            assert(s@[c] == LINE_FEED);
        } else if k < c {
            assert(s@[k as int] == LINE_FEED);
        }
        assert(c == k);
    }
    let mut end: usize = k;
    if k > 0 && s[k - 1] == CARRIAGE_RETURN {
        end = k - 1;
    }
    let mut r: Vec<u8> = Vec::new();
    let mut i: usize = 0;
    while i < end
        invariant
            end <= k <= s@.len(),
            0 <= i <= end,
            r@ == s@.subrange(0, i as int),
        decreases end - i,
    {
        r.push(s[i]);
        i = i + 1;
        assert(r@ =~= s@.subrange(0, i as int));
    }
    assert(r@ =~= strip_cr(s@.subrange(0, k as int)));
    r
}

/// Are the two byte strings equal?
pub fn same_bytes(a: &[u8], b: &[u8]) -> (r: bool)
    ensures
        r == (a@ == b@),
{
    if a.len() != b.len() {
        return false;
    }
    let mut i: usize = 0;
    while i < a.len()
        invariant
            a@.len() == b@.len(),
            0 <= i <= a@.len(),
            forall|j: int| 0 <= j < i ==> a@[j] == b@[j],
        decreases a@.len() - i,
    {
        if a[i] != b[i] {
            return false;
        }
        i = i + 1;
    }
    assert(a@ =~= b@);
    true
}

} // verus!
