//! The SHA-256 digest of a file, taken chunk by chunk so that no file has to
//! be held in memory, and written in lower-case hexadecimal.

use vstd::prelude::*;
use vstd::string::StrSliceExecFns;
use vstd::string::StringExecFns;

verus! {

/// A running SHA-256 computation of the `sha2` crate.
#[verifier::external_body]
pub struct Sha256Stream {
    inner: sha2::Sha256,
}

/// The bytes that a running computation has taken in so far, in order.
pub uninterp spec fn absorbed(stream: Sha256Stream) -> Seq<u8>;

/// The SHA-256 digest of `message`.
pub uninterp spec fn sha256(message: Seq<u8>) -> Seq<u8>;

/// Starts a computation with `sha2::Digest::new`; it has taken in nothing yet.
#[verifier::external_body]
fn stream_new() -> (stream: Sha256Stream)
    ensures
        absorbed(stream) == Seq::<u8>::empty(),
{
    Sha256Stream { inner: sha2::Digest::new() }
}

/// Feeds `chunk` to the computation with `sha2::Digest::update`, which
/// processes the data after what came before.
#[verifier::external_body]
fn stream_update(stream: &mut Sha256Stream, chunk: &[u8])
    ensures
        absorbed(*final(stream)) == absorbed(*old(stream)) + chunk@,
{
    sha2::Digest::update(&mut stream.inner, chunk);
}

/// Ends the computation with `sha2::Digest::finalize`: the digest of all that
/// was taken in, which for SHA-256 has 32 bytes.
#[verifier::external_body]
fn stream_finalize(stream: Sha256Stream) -> (digest: Vec<u8>)
    ensures
        digest@ == sha256(absorbed(stream)),
        digest@.len() == 32,
{
    sha2::Digest::finalize(stream.inner).to_vec()
}

/// The hexadecimal digit for a value below sixteen.
pub open spec fn hex_digit(nibble: int) -> char {
    "0123456789abcdef"@[nibble]
}

/// The bytes in hexadecimal: for each byte the digit of its upper half, then
/// that of its lower half.
pub open spec fn hex_lower(bytes: Seq<u8>) -> Seq<char> {
    Seq::new(
        2 * bytes.len(),
        |i: int|
            hex_digit(
                if i % 2 == 0 {
                    bytes[i / 2] as int / 16
                } else {
                    bytes[i / 2] as int % 16
                },
            ),
    )
}

/// The digest that an upload states of its file: SHA-256 in hexadecimal.
pub open spec fn file_digest(content: Seq<u8>) -> Seq<char> {
    hex_lower(sha256(content))
}

/// Writes bytes in lower-case hexadecimal, two digits for each.
pub fn to_hex(bytes: &[u8]) -> (text: String)
    ensures
        text@ == hex_lower(bytes@),
{
    let digits = "0123456789abcdef";
    proof {
        reveal_strlit("0123456789abcdef");
    }
    let mut text = String::new();
    let mut i: usize = 0;
    while i < bytes.len()
        invariant
            i <= bytes.len(),
            digits@ == "0123456789abcdef"@,
            digits@.len() == 16,
            digits.is_ascii(),
            text@ == hex_lower(bytes@.take(i as int)),
        decreases bytes.len() - i,
    {
        let byte = bytes[i];
        let upper = (byte / 16) as usize;
        let lower = (byte % 16) as usize;
        text.append(digits.substring_ascii(upper, upper + 1));
        text.append(digits.substring_ascii(lower, lower + 1));
        proof {
            let before = hex_lower(bytes@.take(i as int));
            let after = hex_lower(bytes@.take(i + 1));
            assert(after =~= before + digits@.subrange(upper as int, upper + 1) + digits@.subrange(
                lower as int,
                lower + 1,
            ));
        }
        i = i + 1;
    }
    assert(bytes@.take(bytes@.len() as int) =~= bytes@);
    text
}

/// Takes the digest of a file that is read piece by piece.
pub struct FileHasher {
    stream: Sha256Stream,
}

impl FileHasher {
    /// What of the file has been taken in so far.
    pub closed spec fn content(&self) -> Seq<u8> {
        absorbed(self.stream)
    }

    /// A hasher that has taken in nothing.
    pub fn new() -> (hasher: FileHasher)
        ensures
            hasher.content() == Seq::<u8>::empty(),
    {
        FileHasher { stream: stream_new() }
    }

    /// Takes in the next piece of the file.
    pub fn update(&mut self, chunk: &[u8])
        ensures
            final(self).content() == old(self).content() + chunk@,
    {
        stream_update(&mut self.stream, chunk);
    }

    /// The digest of all that was taken in, in hexadecimal.
    pub fn finalize(self) -> (digest: String)
        ensures
            digest@ == file_digest(self.content()),
            digest@.len() == 64,
    {
        let digest = stream_finalize(self.stream);
        to_hex(digest.as_slice())
    }
}

/// The digest, in hexadecimal, of a file whose content is at hand.
pub fn hash_bytes(content: &[u8]) -> (digest: String)
    ensures
        digest@ == file_digest(content@),
        digest@.len() == 64,
{
    let mut hasher = FileHasher::new();
    hasher.update(content);
    assert(Seq::<u8>::empty() + content@ =~= content@);
    hasher.finalize()
}

/// The digest is a function of the content: the same bytes give the same
/// digest, whenever and however often it is taken.
pub proof fn lemma_digest_is_reproducible(first: Seq<u8>, second: Seq<u8>)
    requires
        first == second,
    ensures
        file_digest(first) == file_digest(second),
{
}

} // verus!
