//! Small text helpers.

use vstd::prelude::*;
use vstd::string::*;
use vstd::utf8::{decode_utf8, encode_utf8, encode_utf8_decode_utf8, is_char_boundary};

verus! {

/// The byte at which a text that is too long is cut: one short of the
/// limit, to leave room for the ellipsis.
pub open spec fn cut_at(max_len: usize) -> int {
    if max_len == 0 {
        0
    } else {
        max_len - 1
    }
}

/// Every character takes at least one byte of UTF-8.
proof fn lemma_encoding_at_least_one_byte_per_char(chars: Seq<char>)
    ensures
        encode_utf8(chars).len() >= chars.len(),
    decreases chars.len(),
{
    if chars.len() > 0 {
        lemma_encoding_at_least_one_byte_per_char(chars.drop_first());
    }
}

/// Truncates a string to a maximum length: a string whose UTF-8 encoding is
/// longer than `max_len` bytes keeps its first `max_len - 1` bytes and gains
/// an ellipsis, so that it holds at most `max_len` characters; with
/// `max_len` 0 nothing of it is left.
pub fn truncate_string(s: &str, max_len: usize) -> (r: String)
    requires
        s.spec_bytes().len() <= usize::MAX,
        s.spec_bytes().len() > max_len ==> is_char_boundary(s.spec_bytes(), cut_at(max_len)),
    ensures
        s.spec_bytes().len() <= max_len ==> r@ == s@,
        s.spec_bytes().len() > max_len && max_len == 0 ==> r@ == Seq::<char>::empty(),
        s.spec_bytes().len() > max_len && max_len > 0 ==> {
            &&& r@ == decode_utf8(s.spec_bytes().subrange(0, cut_at(max_len))) + seq!['…']
            &&& encode_utf8(r@.drop_last()) == s.spec_bytes().subrange(0, cut_at(max_len))
        },
        r@.len() <= max_len,
{
    if s.len() > max_len {
        if max_len == 0 {
            return String::new();
        }
        let cut = max_len - 1;
        let (head, _tail) = s.split_at(cut);
        let mut r = head.to_owned();
        proof {
            encode_utf8_decode_utf8(head@);
            reveal_strlit("…");
        }
        r.append("…");

        assert(r@.drop_last() =~= head@);
        proof {
            lemma_encoding_at_least_one_byte_per_char(r@.drop_last());
        }
        r
    } else {
        proof {
            lemma_encoding_at_least_one_byte_per_char(s@);
        }
        s.to_owned()
    }
}

/// The length that a binary search over the prefix lengths `1..=n` settles
/// on, asking `fits` whether the prefix of a given length fits: 0, or a
/// length for which `fits` answered yes; and `n`, or a length one short of
/// one for which `fits` answered no. Where `fits` says yes exactly up to
/// some length, that length is the longest prefix that fits.
pub fn longest_fitting_prefix<F: Fn(usize) -> bool>(n: usize, fits: &F) -> (r: usize)
    requires
        forall|k: usize| 1 <= k <= n ==> call_requires(*fits, (k,)),
    ensures
        r <= n,
        r > 0 ==> call_ensures(*fits, (r,), true),
        r < n ==> call_ensures(*fits, ((r + 1) as usize,), false),
{
    let mut lo: usize = 0;
    let mut hi: usize = n;
    while lo < hi
        invariant
            lo <= hi <= n,
            forall|k: usize| 1 <= k <= n ==> call_requires(*fits, (k,)),
            lo > 0 ==> call_ensures(*fits, (lo,), true),
            hi < n ==> call_ensures(*fits, ((hi + 1) as usize,), false),
        decreases hi - lo,
    {
        let mid = lo + (hi - lo) / 2 + (hi - lo) % 2;
        if fits(mid) {
            lo = mid;
        } else {
            hi = mid - 1;
        }
    }
    lo
}

/// The first `n` characters of `s` followed by an ellipsis; the ellipsis
/// alone when `n` is 0.
pub fn prefix_with_ellipsis(s: &str, n: usize) -> (r: String)
    requires
        n <= s@.len(),
    ensures
        r@ == s@.take(n as int).push('…'),
{
    let mut r = s.substring_char(0, n).to_owned();
    proof {
        reveal_strlit("…");
    }
    r.append("…");
    assert(s@.subrange(0, n as int) == s@.take(n as int));
    r
}

} // verus!
