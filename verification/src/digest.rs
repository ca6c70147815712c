//! MD5 digests and their hex form.
//!
//! The hashing itself is done by the `md5` crate and the encoding by the `hex`
//! crate. What this module assumes of them is written on each item below;
//! nothing here is proved about either crate.

use vstd::prelude::*;

verus! {

/// The streaming hasher of the `md5` crate.
#[verifier::external_type_specification]
#[verifier::external_body]
pub struct ExMd5Context(md5::Context);

/// The bytes a hasher has been fed so far, in the order it was fed them.
pub uninterp spec fn md5_consumed(ctx: md5::Context) -> Seq<u8>;

/// The MD5 digest of a byte string, as `md5::Context::compute` returns it for
/// a hasher that was fed exactly those bytes.
pub uninterp spec fn md5_digest(data: Seq<u8>) -> Seq<u8>;

/// `md5::Context::new`: a hasher that has been fed nothing.
#[verifier::external_body]
pub(crate) fn md5_new() -> (ctx: md5::Context)
    ensures
        md5_consumed(ctx) == Seq::<u8>::empty(),
{
    md5::Context::new()
}

/// `md5::Context::consume`: the hasher has now been fed `data` after all it
/// was fed before.
#[verifier::external_body]
pub(crate) fn md5_consume(ctx: &mut md5::Context, data: &[u8])
    ensures
        md5_consumed(*final(ctx)) == md5_consumed(*old(ctx)) + data@,
{
    ctx.consume(data)
}

/// `md5::Context::compute`: the sixteen bytes of the digest, which depend on
/// nothing but the bytes the hasher was fed.
#[verifier::external_body]
pub(crate) fn md5_compute(ctx: md5::Context) -> (digest: [u8; 16])
    ensures
        digest@ == md5_digest(md5_consumed(ctx)),
{
    ctx.compute().0
}

/// The lower-case hex digit for a value below sixteen.
pub open spec fn hex_digit(nibble: int) -> char {
    "0123456789abcdef"@[nibble]
}

/// Two lower-case hex digits per byte, high half first.
pub open spec fn hex_string(bytes: Seq<u8>) -> Seq<char> {
    Seq::new(
        2 * bytes.len(),
        |i: int|
            if i % 2 == 0 {
                hex_digit(bytes[i / 2] as int / 16)
            } else {
                hex_digit(bytes[i / 2] as int % 16)
            },
    )
}

/// `hex::encode`: each byte as two lower-case hex digits, high half first.
#[verifier::external_body]
pub(crate) fn hex_encode(bytes: &[u8]) -> (s: String)
    ensures
        s@ == hex_string(bytes@),
{
    hex::encode(bytes)
}

/// The hex form of the MD5 digest of `data`.
pub open spec fn hex_md5(data: Seq<u8>) -> Seq<char> {
    hex_string(md5_digest(data))
}

/// The hex form of the MD5 digest of `data`.
pub fn checksum_of(data: &[u8]) -> (checksum: String)
    ensures
        checksum@ == hex_md5(data@),
{
    let mut hasher = md5_new();
    md5_consume(&mut hasher, data);
    assert(Seq::<u8>::empty() + data@ =~= data@);
    let digest = md5_compute(hasher);
    hex_encode(digest.as_slice())
}

} // verus!
