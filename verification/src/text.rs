//! Operations on text that the rest of the library is built from.

use vstd::prelude::*;
use vstd::string::StringSliceAdditionalSpecFns;
use vstd::utf8::encode_utf8_decode_utf8;

verus! {

/// The characters of a text that may be absent.
pub open spec fn text_view(text: Option<String>) -> Option<Seq<char>> {
    match text {
        Some(t) => Some(t@),
        None => None,
    }
}

/// `text` with every line break replaced by one space.
pub open spec fn folded(text: Seq<char>) -> Seq<char> {
    Seq::new(text.len(), |i: int| if text[i] == '\n' { ' ' } else { text[i] })
}

/// Folding keeps the length and every character but the line breaks, and
/// leaves no line break behind.
pub proof fn lemma_folded(text: Seq<char>)
    ensures
        folded(text).len() == text.len(),
        forall|i: int| 0 <= i < text.len() && text[i] != '\n' ==> folded(text)[i] == text[i],
        forall|i: int| 0 <= i < text.len() && text[i] == '\n' ==> folded(text)[i] == ' ',
        !folded(text).contains('\n'),
{
}

/// Whether two texts hold the same characters.
pub fn same_text(a: &str, b: &str) -> (r: bool)
    ensures
        r == (a@ == b@),
{
    let x = a.as_bytes();
    let y = b.as_bytes();
    proof {
        encode_utf8_decode_utf8(a@);
        encode_utf8_decode_utf8(b@);
    }
    if x.len() != y.len() {
        return false;
    }
    let mut i: usize = 0;
    while i < x.len()
        invariant
            i <= x.len(),
            x.len() == y.len(),
            forall|j: int| 0 <= j < i ==> x@[j] == y@[j],
            x@ == a.spec_bytes(),
            y@ == b.spec_bytes(),
        decreases x.len() - i,
    {
        if x[i] != y[i] {
            return false;
        }
        i += 1;
    }
    assert(x@ =~= y@);
    true
}

/// `String::push`. Trusted: the character is added at the end and nothing
/// else changes.
#[verifier::external_body]
fn push_char(text: &mut String, c: char)
    ensures
        final(text)@ == old(text)@.push(c),
{
    text.push(c)
}

/// Replaces every line break in `text` by one space.
pub fn fold_newlines(text: &str) -> (r: String)
    ensures
        r@ == folded(text@),
{
    let mut out = String::new();
    for c in it: text.chars()
        invariant
            it.seq() == text@,
            out@ == folded(text@.take(it.index())),
    {
        assert(folded(text@.take(it.index() + 1)) =~= folded(text@.take(it.index())).push(
            if c == '\n' { ' ' } else { c },
        ));
        push_char(&mut out, if c == '\n' { ' ' } else { c });
    }
    assert(text@.take(text@.len() as int) =~= text@);
    out
}

} // verus!
