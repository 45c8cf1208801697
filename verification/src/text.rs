//! Texts: what the standard library makes of them, and a few questions that
//! the library asks of them.

use vstd::prelude::*;
use vstd::string::StringSliceAdditionalSpecFns;
use vstd::utf8::encode_utf8;

verus! {

/// Whether a character is white space, as Unicode has it in the property
/// `White_Space`: the characters that `str::trim` takes off.
pub open spec fn is_white_space(c: char) -> bool {
    let n = c as u32;
    ||| 0x09 <= n <= 0x0D
    ||| n == 0x20
    ||| n == 0x85
    ||| n == 0xA0
    ||| n == 0x1680
    ||| 0x2000 <= n <= 0x200A
    ||| n == 0x2028
    ||| n == 0x2029
    ||| n == 0x202F
    ||| n == 0x205F
    ||| n == 0x3000
}

/// The number of white-space characters with which a text begins.
pub open spec fn leading_white_space(text: Seq<char>) -> nat
    decreases text.len(),
{
    if text.len() == 0 || !is_white_space(text[0]) {
        0
    } else {
        1 + leading_white_space(text.skip(1))
    }
}

/// The number of white-space characters with which a text ends.
pub open spec fn trailing_white_space(text: Seq<char>) -> nat
    decreases text.len(),
{
    if text.len() == 0 || !is_white_space(text.last()) {
        0
    } else {
        1 + trailing_white_space(text.drop_last())
    }
}

/// What `str::trim` leaves of a text: the text without the white space at its
/// two ends.
pub open spec fn trimmed(text: Seq<char>) -> Seq<char> {
    let rest = text.skip(leading_white_space(text) as int);
    rest.take(rest.len() - trailing_white_space(rest))
}

/// What `str::to_lowercase` makes of a text.
pub uninterp spec fn lowercase(text: Seq<char>) -> Seq<char>;

/// A text of white space only, or of nothing.
pub open spec fn is_blank(text: Seq<char>) -> bool {
    forall|i: int| 0 <= i < text.len() ==> is_white_space(#[trigger] text[i])
}

/// `str::trim`. Believed, as the standard library documents it: what is left
/// is the text without the white space at its two ends, where white space is
/// what Unicode's property `White_Space` says.
#[verifier::external_body]
pub(crate) fn str_trim(text: &str) -> (rest: &str)
    ensures
        rest@ == trimmed(text@),
{
    text.trim()
}

/// `str::to_lowercase`. Believed: what comes out depends on the text alone; it
/// is named `lowercase`.
#[verifier::external_body]
pub(crate) fn str_to_lowercase(text: &str) -> (lower: String)
    ensures
        lower@ == lowercase(text@),
{
    text.to_lowercase()
}

/// The length of a text in bytes, as UTF-8 writes it.
pub fn byte_length(text: &str) -> (length: usize)
    ensures
        length == encode_utf8(text@).len(),
{
    broadcast use vstd::slice::axiom_spec_len;

    text.as_bytes().len()
}

/// Tells whether two texts are the same.
pub fn same_text(one: &str, other: &str) -> (same: bool)
    ensures
        same == (one@ == other@),
{
    let one = one.to_owned();
    let other = other.to_owned();
    one == other
}

/// The white space with which a text begins is white space, and what follows
/// it is not.
pub proof fn lemma_leading_white_space(text: Seq<char>)
    ensures
        leading_white_space(text) <= text.len(),
        forall|i: int| 0 <= i < leading_white_space(text) ==> is_white_space(#[trigger] text[i]),
        leading_white_space(text) < text.len() ==> !is_white_space(
            text[leading_white_space(text) as int],
        ),
    decreases text.len(),
{
    if text.len() != 0 && is_white_space(text[0]) {
        let rest = text.skip(1);
        lemma_leading_white_space(rest);
        assert forall|i: int| 0 <= i < leading_white_space(text) implies is_white_space(
            #[trigger] text[i],
        ) by {
            if i > 0 {
                assert(text[i] == rest[i - 1]);
            }
        }
    }
}

/// The white space with which a text ends does not reach past a character that
/// is none.
pub proof fn lemma_trailing_white_space(text: Seq<char>, at: int)
    requires
        0 <= at < text.len(),
        !is_white_space(text[at]),
    ensures
        trailing_white_space(text) < text.len() - at,
    decreases text.len(),
{
    if is_white_space(text.last()) {
        lemma_trailing_white_space(text.drop_last(), at);
    }
}

/// Nothing is left of a text when it is trimmed if and only if the text is
/// blank.
pub proof fn lemma_blank_is_trimmed_to_nothing(text: Seq<char>)
    ensures
        is_blank(text) <==> trimmed(text).len() == 0,
{
    lemma_leading_white_space(text);
    let lead = leading_white_space(text) as int;
    let rest = text.skip(lead);
    if lead < text.len() {
        assert(rest[0] == text[lead]);
        lemma_trailing_white_space(rest, 0);
        assert(!is_white_space(text[lead]));
    }
}

/// Tells whether a text is blank.
pub fn blank(text: &str) -> (yes: bool)
    ensures
        yes == is_blank(text@),
{
    proof {
        lemma_blank_is_trimmed_to_nothing(text@);
    }
    str_trim(text).is_empty()
}

} // verus!
