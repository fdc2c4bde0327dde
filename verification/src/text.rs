//! Comparisons of strings and bytes.

use vstd::prelude::*;

verus! {

/// Whether two byte slices hold the same bytes.
pub fn bytes_equal(a: &[u8], b: &[u8]) -> (same: bool)
    ensures
        same == (a@ == b@),
{
    if a.len() != b.len() {
        return false;
    }
    let mut i: usize = 0;
    while i < a.len()
        invariant
            i <= a@.len(),
            a@.len() == b@.len(),
            forall|j: int| 0 <= j < i ==> a@[j] == b@[j],
        decreases a@.len() - i,
    {
        if a[i] != b[i] {
            return false;
        }
        i = i + 1;
    }
    assert(a@ =~= b@);
    true
}

/// Whether two strings hold the same characters.
pub fn text_equal(a: &str, b: &str) -> (same: bool)
    ensures
        same == (a@ == b@),
{
    proof {
        vstd::utf8::encode_utf8_decode_utf8(a@);
        vstd::utf8::encode_utf8_decode_utf8(b@);
    }
    bytes_equal(a.as_bytes(), b.as_bytes())
}

/// Whether `items` holds `wanted`.
pub fn contains_text(items: &Vec<String>, wanted: &str) -> (found: bool)
    ensures
        found == holds_text(items@, wanted@),
{
    let mut i: usize = 0;
    while i < items.len()
        invariant
            i <= items@.len(),
            forall|j: int| 0 <= j < i ==> (#[trigger] items@[j])@ != wanted@,
        decreases items@.len() - i,
    {
        if text_equal(items[i].as_str(), wanted) {
            return true;
        }
        i = i + 1;
    }
    false
}

/// One of `items` has the characters `wanted`.
pub open spec fn holds_text(items: Seq<String>, wanted: Seq<char>) -> bool {
    exists|i: int| 0 <= i < items.len() && (#[trigger] items[i])@ == wanted
}

/// The view of a string that may be missing.
pub open spec fn text_of(text: Option<String>) -> Option<Seq<char>> {
    match text {
        Some(t) => Some(t@),
        None => None,
    }
}

/// The view of bytes that may be missing.
pub open spec fn bytes_of(bytes: Option<Vec<u8>>) -> Option<Seq<u8>> {
    match bytes {
        Some(b) => Some(b@),
        None => None,
    }
}

/// A text is found exactly where one of the items is it, however many there
/// are and wherever it stands.
pub proof fn law_every_item_is_found(items: Seq<String>, more: String, wanted: Seq<char>)
    ensures
        !holds_text(Seq::empty(), wanted),
        holds_text(items.push(more), wanted) <==> holds_text(items, wanted) || more@ == wanted,
        forall|i: int|
            0 <= i < items.len() && (#[trigger] items[i])@ == wanted ==> holds_text(items, wanted),
{
    let all = items.push(more);
    if holds_text(items, wanted) {
        let i = choose|i: int| 0 <= i < items.len() && (#[trigger] items[i])@ == wanted;
        assert(all[i]@ == wanted);
    }
    if more@ == wanted {
        assert(all[items.len() as int]@ == wanted);
    }
    if holds_text(all, wanted) && more@ != wanted {
        let i = choose|i: int| 0 <= i < all.len() && (#[trigger] all[i])@ == wanted;
        assert(items[i]@ == wanted);
    }
}

/// Texts and bytes that may be missing are the same exactly where both are
/// missing, or neither is and they are the same.
pub proof fn law_optional_views(
    a: Option<String>,
    b: Option<String>,
    x: Option<Vec<u8>>,
    y: Option<Vec<u8>>,
)
    ensures
        text_of(a) == text_of(b) <==> (a is Some == b is Some) && (a is Some ==> a->0@ == b->0@),
        bytes_of(x) == bytes_of(y) <==> (x is Some == y is Some) && (x is Some ==> x->0@ == y->0@),
        text_of(a) is Some == a is Some,
        a is Some ==> text_of(a)->0 == a->0@,
        bytes_of(x) is Some == x is Some,
        x is Some ==> bytes_of(x)->0 == x->0@,
{
}

} // verus!
