//! Byte-string helpers.
//!
//! Window titles and executable names arrive from the platform layer as
//! byte strings, some of them padded with trailing zero bytes from
//! fixed-size buffers. The locator needs a substring test on titles and
//! the process scan an exact comparison that ignores the padding.

use vstd::prelude::*;

verus! {

/// `needle` occurs in `hay` starting at position `i`.
pub open spec fn match_at(hay: Seq<u8>, needle: Seq<u8>, i: int) -> bool {
    &&& 0 <= i
    &&& i + needle.len() <= hay.len()
    &&& hay.subrange(i, i + needle.len() as int) == needle
}

/// `needle` occurs somewhere in `hay` (every string contains the empty one).
pub open spec fn contains_seq(hay: Seq<u8>, needle: Seq<u8>) -> bool {
    exists|i: int| match_at(hay, needle, i)
}

/// `s` with all trailing zero bytes removed.
pub open spec fn trim_trailing_nuls(s: Seq<u8>) -> Seq<u8>
    decreases s.len(),
{
    if s.len() == 0 {
        s
    } else if s[s.len() - 1] == 0 {
        trim_trailing_nuls(s.drop_last())
    } else {
        s
    }
}

/// Whether `needle` occurs in `hay` starting exactly at `i`.
fn is_match_at(hay: &Vec<u8>, needle: &Vec<u8>, i: usize) -> (r: bool)
    requires
        i + needle@.len() <= hay@.len(),
    ensures
        r == match_at(hay@, needle@, i as int),
{
    let hl = hay.len();
    let mut j: usize = 0;
    while j < needle.len()
        invariant
            hl == hay@.len(),
            i + needle@.len() <= hay@.len(),
            j <= needle@.len(),
            forall|k: int| 0 <= k < j ==> hay@[i + k] == needle@[k],
        decreases needle@.len() - j,
    {
        if hay[i + j] != needle[j] {
            proof {
                assert(hay@.subrange(i as int, i + needle@.len() as int)[j as int]
                    == hay@[i + j]);
            }
            return false;
        }
        j += 1;
    }
    proof {
        assert(hay@.subrange(i as int, i + needle@.len() as int) =~= needle@);
    }
    true
}

/// Whether `needle` occurs anywhere in `hay`, as `contains_seq` says.
pub fn contains_bytes(hay: &Vec<u8>, needle: &Vec<u8>) -> (r: bool)
    ensures
        r == contains_seq(hay@, needle@),
{
    let nl = needle.len();
    let hl = hay.len();
    if nl > hl {
        return false;
    }
    if nl == 0 {
        proof {
            assert(hay@.subrange(0, 0) =~= needle@);
            assert(match_at(hay@, needle@, 0));
        }
        return true;
    }
    let mut i: usize = 0;
    while i <= hl - nl
        invariant
            nl == needle@.len(),
            hl == hay@.len(),
            1 <= nl <= hl,
            i <= hl - nl + 1,
            forall|k: int| 0 <= k < i ==> !match_at(hay@, needle@, k),
        decreases hl - nl + 1 - i,
    {
        if is_match_at(hay, needle, i) {
            return true;
        }
        i += 1;
    }
    proof {
        assert forall|k: int| !match_at(hay@, needle@, k) by {
            if 0 <= k < i {
            } else if k >= i {
                assert(k + needle@.len() > hay@.len());
            }
        }
    }
    false
}

/// Whether `buffer`, read up to its trailing zero padding, equals `name`.
pub fn equals_trimmed(buffer: &Vec<u8>, name: &Vec<u8>) -> (r: bool)
    ensures
        r == (trim_trailing_nuls(buffer@) == name@),
{
    let mut end = buffer.len();
    proof {
        assert(buffer@.subrange(0, buffer@.len() as int) =~= buffer@);
    }
    while end > 0 && buffer[end - 1] == 0
        invariant
            end <= buffer@.len(),
            trim_trailing_nuls(buffer@) == trim_trailing_nuls(buffer@.subrange(0, end as int)),
        decreases end,
    {
        proof {
            assert(buffer@.subrange(0, end as int).drop_last()
                =~= buffer@.subrange(0, end - 1));
        }
        end -= 1;
    }
    proof {
        assert(trim_trailing_nuls(buffer@) =~= buffer@.subrange(0, end as int));
    }
    if end != name.len() {
        return false;
    }
    let mut j: usize = 0;
    while j < end
        invariant
            end <= buffer@.len(),
            end == name@.len(),
            trim_trailing_nuls(buffer@) == buffer@.subrange(0, end as int),
            forall|k: int| 0 <= k < j ==> buffer@[k] == name@[k],
        decreases end - j,
    {
        if buffer[j] != name[j] {
            proof {
                assert(buffer@.subrange(0, end as int)[j as int] == buffer@[j as int]);
            }
            return false;
        }
        j += 1;
    }
    proof {
        assert(buffer@.subrange(0, end as int) =~= name@);
    }
    true
}

} // verus!
