//! Comparing and trimming text.

use vstd::prelude::*;

verus! {

/// The characters with the Unicode property `White_Space`, as `PropList.txt` of the
/// Unicode Character Database lists them.
pub open spec fn is_white_space(c: char) -> bool {
    ||| '\u{9}' <= c <= '\u{d}'
    ||| c == ' '
    ||| c == '\u{85}'
    ||| c == '\u{a0}'
    ||| c == '\u{1680}'
    ||| '\u{2000}' <= c <= '\u{200a}'
    ||| c == '\u{2028}'
    ||| c == '\u{2029}'
    ||| c == '\u{202f}'
    ||| c == '\u{205f}'
    ||| c == '\u{3000}'
}

/// Whether a text holds nothing but white space.
pub open spec fn is_blank(text: Seq<char>) -> bool {
    forall|i: int| 0 <= i < text.len() ==> is_white_space(#[trigger] text[i])
}

/// Whether `inner` is what remains of `text` between `start` and `end` once the
/// white space at both its ends is taken away.
pub open spec fn is_trimmed_at(
    text: Seq<char>,
    inner: Seq<char>,
    start: int,
    end: int,
) -> bool {
    &&& 0 <= start <= end <= text.len()
    &&& inner == text.subrange(start, end)
    &&& is_blank(text.take(start))
    &&& is_blank(text.skip(end))
    &&& inner.len() > 0 ==> !is_white_space(inner.first()) && !is_white_space(inner.last())
}

/// `str::trim`: the part of `text` that is left when the white space at its start
/// and at its end is removed, white space being what Unicode calls `White_Space`.
#[verifier::external_body]
fn trim(text: &str) -> (inner: &str)
    ensures
        exists|start: int, end: int| is_trimmed_at(text@, inner@, start, end),
{
    text.trim()
}

/// Whether a text holds nothing but white space, or nothing at all.
pub fn blank(text: &str) -> (res: bool)
    ensures
        res == is_blank(text@),
        res <==> forall|i: int| 0 <= i < text@.len() ==> is_white_space(#[trigger] text@[i]),
{
    let inner = trim(text);
    proof {
        let (start, end) = choose|start: int, end: int|
            is_trimmed_at(text@, inner@, start, end);
        if inner@.len() == 0 {
            assert forall|i: int| 0 <= i < text@.len() implies is_white_space(
                #[trigger] text@[i],
            ) by {
                if i < start {
                    assert(text@.take(start)[i] == text@[i]);
                } else {
                    assert(text@.skip(end)[i - end] == text@[i]);
                }
            }
        } else {
            assert(text@[start] == inner@.first());
        }
    }
    inner.is_empty()
}

/// Whether two texts hold the same characters.
pub(crate) fn same_text(a: &str, b: &str) -> (same: bool)
    ensures
        same == (a@ == b@),
{
    a.to_owned() == b.to_owned()
}

/// A text is blank unless one of its characters is not white space.
pub proof fn law_one_visible_character_is_not_blank(text: Seq<char>)
    ensures
        is_blank(text) <==> !(exists|i: int|
            0 <= i < text.len() && !is_white_space(#[trigger] text[i])),
        text.len() == 0 ==> is_blank(text),
{
}

} // verus!
