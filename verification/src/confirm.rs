//! The question asked before the mail goes out: what counts as a yes.

use crate::words::{chars_of, spec_is_space, is_space};
use vstd::prelude::*;

verus! {

/// `s` without the white space at its start.
pub open spec fn trim_start(s: Seq<char>) -> Seq<char>
    decreases s.len(),
{
    if s.len() > 0 && spec_is_space(s[0]) {
        trim_start(s.drop_first())
    } else {
        s
    }
}

/// `s` without the white space at its end.
pub open spec fn trim_end(s: Seq<char>) -> Seq<char>
    decreases s.len(),
{
    if s.len() > 0 && spec_is_space(s.last()) {
        trim_end(s.drop_last())
    } else {
        s
    }
}

/// `s` without the white space around it.
pub open spec fn trimmed(s: Seq<char>) -> Seq<char> {
    trim_end(trim_start(s))
}

/// Whether `word` is `y` or `yes`, in capitals or small letters.
pub open spec fn is_yes(word: Seq<char>) -> bool {
    ||| word.len() == 1 && (word[0] == 'y' || word[0] == 'Y')
    ||| word.len() == 3 && (word[0] == 'y' || word[0] == 'Y') && (word[1] == 'e' || word[1]
        == 'E') && (word[2] == 's' || word[2] == 'S')
}

/// Whether `answer` confirms: `y` or `yes`, whatever the case and the white
/// space around it.
pub open spec fn confirms(answer: Seq<char>) -> bool {
    is_yes(trimmed(answer))
}

/// Without the white space at its start, `s` is what stands from the first
/// other character on.
proof fn lemma_trim_start(s: Seq<char>, i: int)
    requires
        0 <= i <= s.len(),
        forall|k: int| 0 <= k < i ==> spec_is_space(#[trigger] s[k]),
        i == s.len() || !spec_is_space(s[i]),
    ensures
        trim_start(s) == s.skip(i),
    decreases i,
{
    if i > 0 {
        assert(spec_is_space(s[0]));
        lemma_trim_start(s.drop_first(), i - 1);
        assert(s.drop_first().skip(i - 1) =~= s.skip(i));
    } else {
        assert(s.skip(0) =~= s);
    }
}

/// Without the white space at its end, `s` is what stands up to the last
/// other character.
proof fn lemma_trim_end(s: Seq<char>, j: int)
    requires
        0 <= j <= s.len(),
        forall|k: int| j <= k < s.len() ==> spec_is_space(#[trigger] s[k]),
        j == 0 || !spec_is_space(s[j - 1]),
    ensures
        trim_end(s) == s.take(j),
    decreases s.len() - j,
{
    if j < s.len() {
        assert(spec_is_space(s[s.len() - 1]));
        lemma_trim_end(s.drop_last(), j);
        assert(s.drop_last().take(j) =~= s.take(j));
    } else {
        assert(s.take(j) =~= s);
    }
}

/// Whether `answer` confirms the sending: `y` or `yes`, whatever the case and
/// the white space around it. Anything else does not.
pub fn is_confirmation(answer: &str) -> (b: bool)
    ensures
        b == confirms(answer@),
{
    let chars = chars_of(answer);
    let mut i: usize = 0;
    while i < chars.len() && is_space(chars[i])
        invariant
            i <= chars@.len(),
            forall|k: int| 0 <= k < i ==> spec_is_space(#[trigger] chars@[k]),
        decreases chars@.len() - i,
    {
        i += 1;
    }
    let mut j: usize = chars.len();
    while j > i && is_space(chars[j - 1])
        invariant
            i <= j <= chars@.len(),
            forall|k: int| j <= k < chars@.len() ==> spec_is_space(#[trigger] chars@[k]),
        decreases j,
    {
        j -= 1;
    }
    proof {
        lemma_trim_start(chars@, i as int);
        let rest = chars@.skip(i as int);
        assert forall|k: int| j - i <= k < rest.len() implies spec_is_space(
            #[trigger] rest[k],
        ) by {
            assert(rest[k] == chars@[k + i]);
        }
        lemma_trim_end(rest, j - i);
        assert(trimmed(answer@) =~= chars@.subrange(i as int, j as int));
    }
    let n = j - i;
    if n == 1 {
        chars[i] == 'y' || chars[i] == 'Y'
    } else if n == 3 {
        (chars[i] == 'y' || chars[i] == 'Y') && (chars[i + 1] == 'e' || chars[i + 1] == 'E') && (
        chars[i + 2] == 's' || chars[i + 2] == 'S')
    } else {
        false
    }
}

} // verus!
