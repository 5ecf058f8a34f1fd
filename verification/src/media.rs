//! MIME types and file extensions of voice messages.

use vstd::prelude::*;

use crate::text;

verus! {

/// Position of the first `;` in `s`, or its length if there is none.
pub open spec fn first_semicolon(s: Seq<char>) -> int
    decreases s.len(),
{
    if s.len() == 0 {
        0
    } else if s[0] == ';' {
        0
    } else {
        1 + first_semicolon(s.drop_first())
    }
}

/// The essence of a MIME type: the text before any parameters, trimmed.
pub open spec fn mime_essence(m: Seq<char>) -> Seq<char> {
    text::trimmed(m.take(first_semicolon(m)))
}

proof fn lemma_first_semicolon(s: Seq<char>, k: int)
    requires
        0 <= k <= s.len(),
        forall|j: int| 0 <= j < k ==> s[j] != ';',
        k == s.len() || s[k] == ';',
    ensures
        first_semicolon(s) == k,
    decreases k,
{
    if k > 0 {
        lemma_first_semicolon(s.drop_first(), k - 1);
    }
}

/// A MIME type without parameters or whitespace is its own essence.
pub(crate) proof fn lemma_plain_essence(m: Seq<char>)
    requires
        forall|j: int| 0 <= j < m.len() ==> #[trigger] m[j] != ';' && !text::is_whitespace(m[j]),
    ensures
        mime_essence(m) == m,
{
    lemma_first_semicolon(m, m.len() as int);
    assert(m.take(m.len() as int) =~= m);
    text::lemma_trimmed_without_ws(m);
}

/// The essence of a MIME type (see `mime_essence`).
pub fn essence(mime_type: &str) -> (r: Vec<char>)
    ensures
        r@ == mime_essence(mime_type@),
{
    let chars = text::chars_of(mime_type);
    let mut k: usize = 0;
    while k < chars.len() && chars[k] != ';'
        invariant
            k <= chars.len(),
            chars@ == mime_type@,
            forall|j: int| 0 <= j < k ==> chars@[j] != ';',
        decreases chars.len() - k,
    {
        k = k + 1;
    }
    proof {
        lemma_first_semicolon(chars@, k as int);
        assert(chars@.subrange(0, k as int) =~= chars@.take(k as int));
    }
    text::trim_range(&chars, 0, k)
}

} // verus!
