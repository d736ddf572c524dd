//! Character-level predicates and string assembly used by the outbound client.

use vstd::prelude::*;

verus! {

/// The code points that carry the Unicode `White_Space` property.
pub open spec fn is_whitespace(c: char) -> bool {
    let n = c as u32;
    ||| 0x09 <= n <= 0x0D
    ||| n == 0x20
    ||| n == 0x85
    ||| n == 0xA0
    ||| n == 0x1680
    ||| 0x2000 <= n <= 0x200A
    ||| n == 0x2028
    ||| n == 0x2029
    ||| n == 0x202F
    ||| n == 0x205F
    ||| n == 0x3000
}

/// A text is blank when it is empty or every character of it is whitespace.
pub open spec fn is_blank(s: Seq<char>) -> bool {
    forall|i: int| 0 <= i < s.len() ==> is_whitespace(#[trigger] s[i])
}

/// The text without its leading whitespace.
pub open spec fn trim_start(s: Seq<char>) -> Seq<char>
    decreases s.len(),
{
    if s.len() > 0 && is_whitespace(s[0]) {
        trim_start(s.drop_first())
    } else {
        s
    }
}

/// The text without its trailing whitespace.
pub open spec fn trim_end(s: Seq<char>) -> Seq<char>
    decreases s.len(),
{
    if s.len() > 0 && is_whitespace(s.last()) {
        trim_end(s.drop_last())
    } else {
        s
    }
}

/// The text without leading and trailing whitespace.
pub open spec fn trim(s: Seq<char>) -> Seq<char> {
    trim_end(trim_start(s))
}

proof fn lemma_trim_start_shape(s: Seq<char>)
    ensures
        trim_start(s).len() <= s.len(),
        trim_start(s).len() == 0 <==> is_blank(s),
        trim_start(s).len() > 0 ==> !is_whitespace(trim_start(s)[0]),
    decreases s.len(),
{
    if s.len() > 0 && is_whitespace(s[0]) {
        let rest = s.drop_first();
        lemma_trim_start_shape(rest);
        if is_blank(rest) {
            assert forall|i: int| 0 <= i < s.len() implies is_whitespace(#[trigger] s[i]) by {
                if i > 0 {
                    assert(s[i] == rest[i - 1]);
                }
            }
        }
        if is_blank(s) {
            assert forall|i: int| 0 <= i < rest.len() implies is_whitespace(#[trigger] rest[i]) by {
                assert(rest[i] == s[i + 1]);
            }
        }
    }
}

proof fn lemma_trim_end_keeps_head(s: Seq<char>)
    requires
        s.len() > 0,
        !is_whitespace(s[0]),
    ensures
        trim_end(s).len() > 0,
    decreases s.len(),
{
    if is_whitespace(s.last()) {
        lemma_trim_end_keeps_head(s.drop_last());
    }
}

/// Trimming leaves nothing exactly when the text is blank.
pub proof fn lemma_trim_empty_iff_blank(s: Seq<char>)
    ensures
        trim(s).len() == 0 <==> is_blank(s),
{
    lemma_trim_start_shape(s);
    let t = trim_start(s);
    if t.len() > 0 {
        lemma_trim_end_keeps_head(t);
    }
}

/// Decides whether one character is whitespace.
pub fn char_is_whitespace(c: char) -> (b: bool)
    ensures
        b == is_whitespace(c),
{
    let n: u32 = c as u32;
    (0x09 <= n && n <= 0x0D) || n == 0x20 || n == 0x85 || n == 0xA0 || n == 0x1680 || (0x2000 <= n
        && n <= 0x200A) || n == 0x2028 || n == 0x2029 || n == 0x202F || n == 0x205F || n == 0x3000
}

/// Decides whether a text is empty or whitespace only.
pub fn str_is_blank(s: &str) -> (b: bool)
    ensures
        b == is_blank(s@),
        b == (trim(s@).len() == 0),
{
    proof {
        lemma_trim_empty_iff_blank(s@);
    }
    let mut blank = true;
    for c in iter: s.chars()
        invariant
            iter.seq() == s@,
            blank == is_blank(s@.take(iter.index() as int)),
    {
        proof {
            let k = iter.index() as int;
            let before = s@.take(k);
            let after = s@.take(k + 1);
            assert(after[k] == c);
            if is_blank(after) {
                assert forall|i: int| 0 <= i < before.len() implies is_whitespace(
                    #[trigger] before[i],
                ) by {
                    assert(before[i] == after[i]);
                }
            }
            if is_blank(before) && is_whitespace(c) {
                assert forall|i: int| 0 <= i < after.len() implies is_whitespace(
                    #[trigger] after[i],
                ) by {
                    if i < k {
                        assert(after[i] == before[i]);
                    }
                }
            }
        }
        if !char_is_whitespace(c) {
            blank = false;
        }
    }
    proof {
        assert(s@.take(s@.len() as int) == s@);
    }
    blank
}

} // verus!
