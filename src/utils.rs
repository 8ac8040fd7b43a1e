//! Offsets in text measured in UTF-16 code units, as chat services count them.
use vstd::prelude::*;

use crate::text::char_vec;

verus! {

/// Bytes of `c` in UTF-8.
pub open spec fn utf8_width(c: char) -> nat {
    if (c as u32) < 0x80 {
        1
    } else if (c as u32) < 0x800 {
        2
    } else if (c as u32) < 0x10000 {
        3
    } else {
        4
    }
}

/// Code units of `c` in UTF-16.
pub open spec fn utf16_width(c: char) -> nat {
    if (c as u32) < 0x10000 {
        1
    } else {
        2
    }
}

/// Bytes of `s` in UTF-8.
pub open spec fn utf8_len(s: Seq<char>) -> nat
    decreases s.len(),
{
    if s.len() == 0 {
        0
    } else {
        utf8_len(s.drop_last()) + utf8_width(s.last())
    }
}

/// Code units of `s` in UTF-16.
pub open spec fn utf16_len(s: Seq<char>) -> nat
    decreases s.len(),
{
    if s.len() == 0 {
        0
    } else {
        utf16_len(s.drop_last()) + utf16_width(s.last())
    }
}

/// Longer prefixes take more code units and at least as many bytes.
proof fn lemma_prefix_growth(s: Seq<char>, j: int, k: int)
    requires
        0 <= j <= k <= s.len(),
    ensures
        utf16_len(s.take(k)) >= utf16_len(s.take(j)) + (k - j),
        utf8_len(s.take(k)) >= utf8_len(s.take(j)),
    decreases k - j,
{
    if j < k {
        lemma_prefix_growth(s, j, k - 1);
        assert(s.take(k).drop_last() =~= s.take(k - 1));
    }
}

/// The prefix of `s` that ends at the UTF-16 offset `pos`, if one does and
/// its UTF-8 offset fits a `usize`: its length in characters.
pub open spec fn utf16_prefix(s: Seq<char>, pos: nat) -> Option<nat> {
    if exists|k: int|
        0 <= k <= s.len() && utf16_len(#[trigger] s.take(k)) == pos && utf8_len(s.take(k))
            <= usize::MAX {
        Some(
            (choose|k: int|
                0 <= k <= s.len() && utf16_len(#[trigger] s.take(k)) == pos && utf8_len(s.take(k))
                    <= usize::MAX) as nat,
        )
    } else {
        None
    }
}

proof fn lemma_prefix_unique(s: Seq<char>, j: int, k: int)
    requires
        0 <= j <= s.len(),
        0 <= k <= s.len(),
        utf16_len(s.take(j)) == utf16_len(s.take(k)),
    ensures
        j == k,
{
    if j < k {
        lemma_prefix_growth(s, j, k);
    } else if k < j {
        lemma_prefix_growth(s, k, j);
    }
}

/// Bytes of `c` in UTF-8, as `char::len_utf8` documents it.
fn utf8_width_of(c: char) -> (r: usize)
    ensures
        r == utf8_width(c),
{
    let u = c as u32;
    if u < 0x80 {
        1
    } else if u < 0x800 {
        2
    } else if u < 0x10000 {
        3
    } else {
        4
    }
}

/// Code units of `c` in UTF-16, as `char::len_utf16` documents it.
fn utf16_width_of(c: char) -> (r: usize)
    ensures
        r == utf16_width(c),
{
    if (c as u32) < 0x10000 {
        1
    } else {
        2
    }
}

/// The prefix of `chars` that ends at the UTF-16 offset `pos`: its length
/// in characters and in UTF-8 bytes.
pub(crate) fn utf16_prefix_of(chars: &Vec<char>, pos: usize) -> (r: Option<(usize, usize)>)
    ensures
        match r {
            Some((k, b)) => utf16_prefix(chars@, pos as nat) == Some(k as nat) && b as nat
                == utf8_len(chars@.take(k as int)),
            None => utf16_prefix(chars@, pos as nat) is None,
        },
{
    let ghost s = chars@;
    let mut i: usize = 0;
    let mut units: usize = 0;
    let mut bytes: usize = 0;
    while i < chars.len()
        invariant
            s == chars@,
            i <= s.len(),
            units as nat == utf16_len(s.take(i as int)),
            bytes as nat == utf8_len(s.take(i as int)),
            units <= pos,
            forall|k: int| 0 <= k < i ==> utf16_len(#[trigger] s.take(k)) < pos,
        decreases s.len() - i,
    {
        if units == pos {
            proof {
                assert(utf16_prefix(s, pos as nat) == Some(i as nat)) by {
                    assert(utf16_len(s.take(i as int)) == pos);
                    let k = choose|k: int|
                        0 <= k <= s.len() && utf16_len(#[trigger] s.take(k)) == pos && utf8_len(
                            s.take(k),
                        ) <= usize::MAX;
                    lemma_prefix_unique(s, k, i as int);
                }
            }
            return Some((i, bytes));
        }
        let c = chars[i];
        assert(s.take(i as int + 1).drop_last() =~= s.take(i as int));
        let w16 = utf16_width_of(c);
        let w8 = utf8_width_of(c);
        if w16 > pos - units {
            proof {
                assert forall|k: int| 0 <= k <= s.len() implies utf16_len(#[trigger] s.take(k))
                    != pos by {
                    if k > i {
                        lemma_prefix_growth(s, i as int + 1, k);
                    }
                }
            }
            return None;
        }
        if w8 > usize::MAX - bytes {
            proof {
                assert forall|k: int|
                    0 <= k <= s.len() && utf16_len(#[trigger] s.take(k)) == pos implies utf8_len(
                    s.take(k),
                ) > usize::MAX by {
                    if k > i {
                        lemma_prefix_growth(s, i as int + 1, k);
                    }
                }
            }
            return None;
        }
        units = units + w16;
        bytes = bytes + w8;
        i = i + 1;
    }
    assert(s.take(i as int) =~= s);
    if units == pos {
        proof {
            let k = choose|k: int|
                0 <= k <= s.len() && utf16_len(#[trigger] s.take(k)) == pos && utf8_len(s.take(k))
                    <= usize::MAX;
            assert(utf16_len(s.take(i as int)) == pos);
            if exists|k: int|
                0 <= k <= s.len() && utf16_len(#[trigger] s.take(k)) == pos && utf8_len(s.take(k))
                    <= usize::MAX {
                lemma_prefix_unique(s, k, i as int);
            }
        }
        Some((i, bytes))
    } else {
        None
    }
}

/// The UTF-8 offset in `data` of its UTF-16 offset `pos`: `None` where no
/// character of `data` starts or ends there.
pub fn utf8_pos_from_utf16(data: &str, pos: usize) -> (r: Option<usize>)
    ensures
        match utf16_prefix(data@, pos as nat) {
            Some(k) => r == Some(utf8_len(data@.take(k as int)) as usize),
            None => r is None,
        },
{
    let chars = char_vec(data);
    match utf16_prefix_of(&chars, pos) {
        Some((_, b)) => Some(b),
        None => None,
    }
}

} // verus!
