//! Query keys: a kind discriminant and a path, serialised to bytes and hashed.
use vstd::prelude::*;
use vstd::utf8::encode_utf8;

verus! {

/// Discriminant of the leaf query that reads a source file.
pub const SOURCE_KIND: u8 = 1;

/// Discriminant of the composite query that derives a module from its source.
pub const MODULE_KIND: u8 = 2;

/// What `fxhash::hash64` returns for a byte slice.
pub uninterp spec fn fx_hash64_of(bytes: Seq<u8>) -> u64;

/// Relies on `fxhash::hash64`: a 64-bit hash of the slice (its length, then
/// its bytes, through `FxHasher64`) that depends on the bytes alone. Its word
/// reads use the target's byte order, so the value is fixed per target.
#[verifier::external_body]
fn fx_hash64(bytes: &[u8]) -> (r: u64)
    ensures
        r == fx_hash64_of(bytes@),
{
    fxhash::hash64(bytes)
}

/// The serialised identity of a key: the kind byte, then the path in UTF-8.
pub open spec fn key_bytes(kind: u8, path: Seq<char>) -> Seq<u8> {
    seq![kind] + encode_utf8(path)
}

/// The cache address of a key.
pub open spec fn key_hash_of(kind: u8, path: Seq<char>) -> u64 {
    fx_hash64_of(key_bytes(kind, path))
}

/// Serialises the key `(kind, path)`.
pub fn encode_key(kind: u8, path: &str) -> (r: Vec<u8>)
    ensures
        r@ == key_bytes(kind, path@),
{
    let bytes = path.as_bytes();
    let mut out: Vec<u8> = Vec::new();
    out.push(kind);
    let mut i: usize = 0;
    while i < bytes.len()
        invariant
            i <= bytes@.len(),
            bytes@ == encode_utf8(path@),
            out@ == seq![kind] + bytes@.subrange(0, i as int),
        decreases bytes@.len() - i,
    {
        out.push(bytes[i]);
        i = i + 1;
    }
    assert(bytes@.subrange(0, i as int) =~= bytes@);
    out
}

/// The cache address of the key `(kind, path)`.
pub fn key_hash(kind: u8, path: &str) -> (r: u64)
    ensures
        r == key_hash_of(kind, path@),
{
    let bytes = encode_key(kind, path);
    fx_hash64(bytes.as_slice())
}

} // verus!
