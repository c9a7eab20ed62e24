//! Message digests (SHA-256, MD5) used for fingerprints and integrity checks.
use vstd::prelude::*;
use sha2::Digest;

verus! {

/// Lowercase hexadecimal digits.
pub open spec fn is_lower_hex(s: Seq<char>) -> bool {
    forall|i: int| 0 <= i < s.len() ==> ('0' <= #[trigger] s[i] && s[i] <= '9') || ('a' <= s[i] && s[i] <= 'f')
}

/// The SHA-256 digest of `data`, as 64 lowercase hexadecimal digits.
pub uninterp spec fn sha256_hex(data: Seq<u8>) -> Seq<char>;

/// Calls `sha2::Sha256::digest` and formats the 32-byte digest with `{:x}`.
/// Claimed: the text is `sha256_hex(data)`, 64 lowercase hex digits (two per
/// digest byte).
#[verifier::external_body]
pub(crate) fn sha256_hex_exec(data: &[u8]) -> (res: String)
    ensures
        res@ == sha256_hex(data@),
        res@.len() == 64,
        is_lower_hex(res@),
{
    format!("{:x}", sha2::Sha256::digest(data))
}

/// The MD5 digest of `data`, as 32 lowercase hexadecimal digits.
pub uninterp spec fn md5_hex(data: Seq<u8>) -> Seq<char>;

/// An MD5 computation over data that arrives in pieces (an `md5::Md5`).
/// Its field is hidden from verification: `md5::Md5` is the generic
/// `CoreWrapper<Md5Core>` of the `digest` crate, whose type-level bounds
/// cannot be declared here. What it has absorbed is named by
/// [`md5_stream_input`], which its methods speak of.
#[verifier::external_body]
pub struct Md5Stream {
    hasher: md5::Md5,
}

/// The bytes that an [`Md5Stream`] has absorbed so far.
pub uninterp spec fn md5_stream_input(h: Md5Stream) -> Seq<u8>;

impl Md5Stream {
    /// `md5::Md5::new`: a computation that has absorbed nothing.
    #[verifier::external_body]
    pub fn new() -> (res: Md5Stream)
        ensures
            md5_stream_input(res) == Seq::<u8>::empty(),
    {
        Md5Stream { hasher: md5::Md5::new() }
    }

    /// `Digest::update`: absorbs `data` after what came before.
    #[verifier::external_body]
    pub fn update(&mut self, data: &[u8])
        ensures
            md5_stream_input(*final(self)) == md5_stream_input(*old(self)) + data@,
    {
        self.hasher.update(data)
    }

    /// `Digest::finalize`, formatted with `{:x}`: the MD5 digest of all that
    /// was absorbed, as 32 lowercase hex digits.
    #[verifier::external_body]
    pub fn finalize_hex(self) -> (res: String)
        ensures
            res@ == md5_hex(md5_stream_input(self)),
            res@.len() == 32,
            is_lower_hex(res@),
    {
        format!("{:x}", self.hasher.finalize())
    }
}

/// The MD5 digest of `data` as 32 lowercase hexadecimal digits.
pub fn md5_hex_of(data: &[u8]) -> (res: String)
    ensures
        res@ == md5_hex(data@),
        res@.len() == 32,
        is_lower_hex(res@),
{
    let mut h = Md5Stream::new();
    h.update(data);
    assert(Seq::<u8>::empty() + data@ =~= data@);
    h.finalize_hex()
}

} // verus!
