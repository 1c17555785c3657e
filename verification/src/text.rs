//! Text helpers shared by the other modules: comparison, search, joining and
//! lossy decoding, each with its meaning over sequences of characters.

use vstd::prelude::*;

verus! {

/// The characters of each string of `parts`, in order.
pub open spec fn texts(parts: Seq<String>) -> Seq<Seq<char>> {
    Seq::new(parts.len(), |i: int| parts[i]@)
}

/// The characters of an optional text.
pub open spec fn opt_text(text: Option<String>) -> Option<Seq<char>> {
    match text {
        Some(text) => Some(text@),
        None => None,
    }
}

/// The characters of an optional string slice.
pub open spec fn opt_str_text(text: Option<&str>) -> Option<Seq<char>> {
    match text {
        Some(text) => Some(text@),
        None => None,
    }
}

/// `needle` occurs in `haystack` as a contiguous run of characters.
pub open spec fn contains_text(haystack: Seq<char>, needle: Seq<char>) -> bool {
    exists|start: int|
        0 <= start <= haystack.len() - needle.len() && #[trigger] haystack.subrange(
            start,
            start + needle.len(),
        ) == needle
}

/// The parts of `parts` written one after another with `sep` between each two.
pub open spec fn joined(parts: Seq<Seq<char>>, sep: Seq<char>) -> Seq<char>
    decreases parts.len(),
{
    if parts.len() == 0 {
        Seq::empty()
    } else if parts.len() == 1 {
        parts[0]
    } else {
        joined(parts.drop_last(), sep) + sep + parts.last()
    }
}

/// What `String::from_utf8_lossy` makes of `bytes`: the text they encode, with
/// U+FFFD in place of every malformed sequence.
pub uninterp spec fn utf8_lossy(bytes: Seq<u8>) -> Seq<char>;

/// Tells whether two string slices hold the same characters, by their bytes:
/// a text is known by its UTF-8 encoding.
pub fn str_eq(a: &str, b: &str) -> (same: bool)
    ensures
        same == (a@ == b@),
{
    let left = a.as_bytes();
    let right = b.as_bytes();
    proof {
        vstd::utf8::encode_utf8_decode_utf8(a@);
        vstd::utf8::encode_utf8_decode_utf8(b@);
    }
    if left.len() != right.len() {
        return false;
    }
    let mut i: usize = 0;
    while i < left.len()
        invariant
            i <= left.len(),
            left@.len() == right@.len(),
            left@ == vstd::utf8::encode_utf8(a@),
            right@ == vstd::utf8::encode_utf8(b@),
            forall|j: int| 0 <= j < i ==> left@[j] == right@[j],
        decreases left.len() - i,
    {
        if left[i] != right[i] {
            return false;
        }
        i = i + 1;
    }
    assert(left@ =~= right@);
    true
}

/// Searches with `str::contains`, which tells whether the pattern matches a
/// sub-slice of the string.
#[verifier::external_body]
pub(crate) fn str_contains(haystack: &str, needle: &str) -> (found: bool)
    ensures
        found == contains_text(haystack@, needle@),
{
    haystack.contains(needle)
}

/// Decodes with `String::from_utf8_lossy`, whose result is a function of the
/// bytes alone; nothing is claimed of it but its name.
#[verifier::external_body]
pub(crate) fn from_utf8_lossy(bytes: &[u8]) -> (text: String)
    ensures
        text@ == utf8_lossy(bytes@),
{
    String::from_utf8_lossy(bytes).into_owned()
}

/// Joining one more part appends the separator and the part, unless it is the first.
pub proof fn lemma_joined_push(parts: Seq<Seq<char>>, sep: Seq<char>, part: Seq<char>)
    ensures
        joined(parts.push(part), sep) == if parts.len() == 0 {
            part
        } else {
            joined(parts, sep) + sep + part
        },
{
    let longer = parts.push(part);
    assert(longer.drop_last() =~= parts);
    assert(longer.last() == part);
}

/// Joins `parts` with `sep` between each two of them.
pub fn join(parts: &Vec<String>, sep: &str) -> (text: String)
    ensures
        text@ == joined(texts(parts@), sep@),
{
    let mut text = String::new();
    let mut i: usize = 0;
    while i < parts.len()
        invariant
            i <= parts.len(),
            text@ == joined(texts(parts@).take(i as int), sep@),
        decreases parts.len() - i,
    {
        proof {
            let before = texts(parts@).take(i as int);
            lemma_joined_push(before, sep@, parts@[i as int]@);
            assert(before.push(parts@[i as int]@) =~= texts(parts@).take(i + 1));
            if i == 0 {
                assert(joined(before, sep@) + parts@[i as int]@ =~= parts@[i as int]@);
            }
        }
        if i > 0 {
            text.append(sep);
        }
        text.append(parts[i].as_str());
        i = i + 1;
    }
    proof {
        assert(texts(parts@).take(parts@.len() as int) =~= texts(parts@));
    }
    text
}

/// What a text holds is still held after more text is put before and behind it.
pub proof fn lemma_contains_text_within(
    before: Seq<char>,
    haystack: Seq<char>,
    behind: Seq<char>,
    needle: Seq<char>,
)
    requires
        contains_text(haystack, needle),
    ensures
        contains_text(before + haystack + behind, needle),
{
    let start = choose|start: int|
        0 <= start <= haystack.len() - needle.len() && #[trigger] haystack.subrange(
            start,
            start + needle.len(),
        ) == needle;
    let whole = before + haystack + behind;
    let moved = before.len() + start;
    assert(whole.subrange(moved, moved + needle.len()) =~= haystack.subrange(
        start,
        start + needle.len(),
    ));
}

/// A text holds itself.
pub proof fn lemma_contains_text_itself(text: Seq<char>)
    ensures
        contains_text(text, text),
{
    assert(text.subrange(0, 0 + text.len() as int) =~= text);
}

/// Every part stands in the text that the parts are joined to.
pub proof fn lemma_joined_contains_each(parts: Seq<Seq<char>>, sep: Seq<char>, i: int)
    requires
        0 <= i < parts.len(),
    ensures
        contains_text(joined(parts, sep), parts[i]),
    decreases parts.len(),
{
    let nothing = Seq::<char>::empty();
    if parts.len() == 1 {
        lemma_contains_text_itself(parts[0]);
    } else if i == parts.len() - 1 {
        lemma_contains_text_itself(parts[i]);
        lemma_contains_text_within(joined(parts.drop_last(), sep) + sep, parts[i], nothing, parts[i]);
        assert(joined(parts.drop_last(), sep) + sep + parts[i] + nothing =~= joined(parts, sep));
    } else {
        lemma_joined_contains_each(parts.drop_last(), sep, i);
        assert(parts.drop_last()[i] == parts[i]);
        lemma_contains_text_within(
            nothing,
            joined(parts.drop_last(), sep),
            sep + parts.last(),
            parts[i],
        );
        assert(nothing + joined(parts.drop_last(), sep) + (sep + parts.last()) =~= joined(
            parts,
            sep,
        ));
    }
}

} // verus!
