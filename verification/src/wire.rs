//! Byte strings as they go over the wire: line endings and searching.

use vstd::prelude::*;

verus! {

/// Carriage return.
pub const CR: u8 = 13;

/// Line feed.
pub const LF: u8 = 10;

/// `s` with every line feed written as carriage return, line feed.
pub open spec fn crlf(s: Seq<u8>) -> Seq<u8>
    decreases s.len(),
{
    if s.len() == 0 {
        Seq::empty()
    } else if s.last() == LF {
        crlf(s.drop_last()).push(CR).push(LF)
    } else {
        crlf(s.drop_last()).push(s.last())
    }
}

/// The bytes of a string in UTF-8.
pub open spec fn utf8(s: Seq<char>) -> Seq<u8> {
    vstd::utf8::encode_utf8(s)
}

/// The deep view of a byte vector is its view.
pub proof fn lemma_bytes_deep_view(v: Vec<u8>)
    ensures
        v.deep_view() == v@,
{
    assert(v.deep_view() =~= v@);
}

/// Writes `text` at the end of `out`, each line feed as carriage return, line feed.
pub fn append_crlf(out: &mut Vec<u8>, text: &[u8])
    ensures
        final(out)@ == old(out)@ + crlf(text@),
{
    let mut i: usize = 0;
    while i < text.len()
        invariant
            i <= text@.len(),
            out@ == old(out)@ + crlf(text@.take(i as int)),
        decreases text@.len() - i,
    {
        let b = text[i];
        proof {
            assert(text@.take(i + 1).drop_last() == text@.take(i as int));
        }
        if b == LF {
            out.push(CR);
        }
        out.push(b);
        i += 1;
    }
    proof {
        assert(text@.take(i as int) == text@);
    }
}

/// Whether the byte of `s` at `i`, where it is a line feed, stands behind a
/// carriage return.
pub open spec fn ends_line_with_crlf(s: Seq<u8>, i: int) -> bool {
    s[i] == LF ==> i > 0 && s[i - 1] == CR
}

/// Whether every line feed of `s` stands behind a carriage return.
pub open spec fn ends_lines_with_crlf(s: Seq<u8>) -> bool {
    forall|i: int| 0 <= i < s.len() ==> #[trigger] ends_line_with_crlf(s, i)
}

/// Whether `s` holds neither carriage return nor line feed.
pub open spec fn is_one_line(s: Seq<u8>) -> bool {
    forall|i: int| 0 <= i < s.len() ==> #[trigger] s[i] != CR && s[i] != LF
}

/// Whether `needle` stands in `hay` at `i`.
pub open spec fn occurs_at(hay: Seq<u8>, needle: Seq<u8>, i: int) -> bool {
    &&& 0 <= i
    &&& i + needle.len() <= hay.len()
    &&& hay.subrange(i, i + needle.len()) == needle
}

/// Whether `hay` ends with `tail`.
pub open spec fn ends_with(hay: Seq<u8>, tail: Seq<u8>) -> bool {
    occurs_at(hay, tail, hay.len() - tail.len())
}

/// The last place at or before `bound` where `needle` stands in `hay`.
pub open spec fn last_occurrence_up_to(hay: Seq<u8>, needle: Seq<u8>, bound: int) -> Option<int>
    decreases bound + 1,
{
    if bound < 0 {
        None
    } else if occurs_at(hay, needle, bound) {
        Some(bound)
    } else {
        last_occurrence_up_to(hay, needle, bound - 1)
    }
}

/// The last place where `needle` stands in `hay`.
pub open spec fn last_occurrence(hay: Seq<u8>, needle: Seq<u8>) -> Option<int> {
    last_occurrence_up_to(hay, needle, hay.len() - needle.len())
}

/// Writing line ends as CRLF goes part by part.
pub proof fn lemma_crlf_concat(a: Seq<u8>, b: Seq<u8>)
    ensures
        crlf(a + b) == crlf(a) + crlf(b),
    decreases b.len(),
{
    if b.len() == 0 {
        assert(a + b == a);
        assert(crlf(a) + crlf(b) == crlf(a));
    } else {
        lemma_crlf_concat(a, b.drop_last());
        assert((a + b).drop_last() == a + b.drop_last());
        assert((a + b).last() == b.last());
        if b.last() == LF {
            assert(crlf(a + b) == (crlf(a) + crlf(b.drop_last())).push(CR).push(LF));
            assert((crlf(a) + crlf(b.drop_last())).push(CR).push(LF) == crlf(a) + crlf(
                b.drop_last(),
            ).push(CR).push(LF));
        } else {
            assert((crlf(a) + crlf(b.drop_last())).push(b.last()) == crlf(a) + crlf(
                b.drop_last(),
            ).push(b.last()));
        }
    }
}

/// A text without line feeds is written as it is.
pub proof fn lemma_crlf_keeps_one_line(s: Seq<u8>)
    requires
        forall|i: int| 0 <= i < s.len() ==> #[trigger] s[i] != LF,
    ensures
        crlf(s) == s,
    decreases s.len(),
{
    if s.len() > 0 {
        lemma_crlf_keeps_one_line(s.drop_last());
        assert(s.drop_last().push(s.last()) == s);
    }
}

/// Once written with `crlf`, every line feed stands behind a carriage return.
pub proof fn lemma_crlf_ends_lines(s: Seq<u8>)
    ensures
        ends_lines_with_crlf(crlf(s)),
    decreases s.len(),
{
    if s.len() > 0 {
        lemma_crlf_ends_lines(s.drop_last());
        let before = crlf(s.drop_last());
        assert forall|i: int| 0 <= i < crlf(s).len() implies #[trigger] ends_line_with_crlf(
            crlf(s),
            i,
        ) by {
            if i < before.len() {
                assert(ends_line_with_crlf(before, i));
                assert(crlf(s)[i] == before[i]);
                if i > 0 {
                    assert(crlf(s)[i - 1] == before[i - 1]);
                }
            }
        }
    }
}

/// What `last_occurrence_up_to` finds is the last place up to `bound`.
proof fn lemma_last_occurrence_up_to(hay: Seq<u8>, needle: Seq<u8>, bound: int)
    ensures
        match last_occurrence_up_to(hay, needle, bound) {
            Some(i) => i <= bound && occurs_at(hay, needle, i) && forall|j: int|
                i < j <= bound ==> !occurs_at(hay, needle, j),
            None => forall|j: int| j <= bound ==> !occurs_at(hay, needle, j),
        },
    decreases bound + 1,
{
    if bound >= 0 && !occurs_at(hay, needle, bound) {
        lemma_last_occurrence_up_to(hay, needle, bound - 1);
    }
}

/// What `last_occurrence` finds is the last place of all.
pub proof fn lemma_last_occurrence(hay: Seq<u8>, needle: Seq<u8>)
    ensures
        match last_occurrence(hay, needle) {
            Some(i) => occurs_at(hay, needle, i) && forall|j: int|
                i < j ==> !occurs_at(hay, needle, j),
            None => forall|j: int| !occurs_at(hay, needle, j),
        },
{
    lemma_last_occurrence_up_to(hay, needle, hay.len() - needle.len());
}

/// Whether `needle` stands in `hay` at `i`.
pub fn matches_at(hay: &[u8], needle: &[u8], i: usize) -> (b: bool)
    ensures
        b == occurs_at(hay@, needle@, i as int),
{
    if needle.len() > hay.len() || i > hay.len() - needle.len() {
        return false;
    }
    let mut k: usize = 0;
    while k < needle.len()
        invariant
            k <= needle@.len(),
            i + needle@.len() <= hay@.len() <= usize::MAX,
            forall|j: int| 0 <= j < k ==> hay@[i + j] == needle@[j],
        decreases needle@.len() - k,
    {
        if hay[i + k] != needle[k] {
            proof {
                assert(hay@.subrange(i as int, i + needle@.len())[k as int] == hay@[i + k]);
            }
            return false;
        }
        k += 1;
    }
    proof {
        assert(hay@.subrange(i as int, i + needle@.len()) =~= needle@);
    }
    true
}

/// The last place where `needle` stands in `hay`.
pub fn find_last(hay: &[u8], needle: &[u8]) -> (r: Option<usize>)
    ensures
        match r {
            Some(i) => last_occurrence(hay@, needle@) == Some(i as int),
            None => last_occurrence(hay@, needle@) is None,
        },
{
    if needle.len() > hay.len() {
        return None;
    }
    let mut i: usize = hay.len() - needle.len();
    loop
        invariant
            i + needle@.len() <= hay@.len(),
            last_occurrence(hay@, needle@) == last_occurrence_up_to(hay@, needle@, i as int),
        decreases i,
    {
        if matches_at(hay, needle, i) {
            return Some(i);
        }
        if i == 0 {
            proof {
                assert(last_occurrence_up_to(hay@, needle@, -1) is None);
            }
            return None;
        }
        i -= 1;
    }
}

} // verus!
