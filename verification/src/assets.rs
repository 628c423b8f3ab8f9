//! Content-addressed asset naming and cleanup decisions.
//!
//! Assets are stored under the hex SHA-256 digest of their bytes plus a
//! cleaned extension, beneath a fixed directory; the cleanup keeps exactly
//! the stored paths the caller still uses.  All file-system work stays in
//! the embedding application; this module only decides names and fates.

use vstd::prelude::*;
use sha2::{Digest, Sha256};
use crate::codec::spec_hex_digit;
use crate::text::{bytes_eq, lit_bytes};

verus! {

/// The SHA-256 digest of the bytes.  The digest is a function of the bytes
/// alone; what it is on given bytes only the hash itself says.
pub uninterp spec fn sha256_of(data: Seq<u8>) -> Seq<u8>;

/// Relies on sha2's `Sha256`: one update over all of `data`, then the
/// digest, which is 32 bytes and depends on `data` alone.
#[verifier::external_body]
fn sha256(data: &Vec<u8>) -> (r: Vec<u8>)
    ensures
        r@ == sha256_of(data@),
        r@.len() == 32,
{
    let mut hasher = Sha256::new();
    hasher.update(data.as_slice());
    hasher.finalize().to_vec()
}

/// The Unicode lowercase of the text, a function of the characters alone.
pub uninterp spec fn lower_of(s: Seq<char>) -> Seq<char>;

/// Relies on std's `str::to_lowercase`: the Unicode lowercase of the text,
/// which depends on the characters alone.
#[verifier::external_body]
fn lowercase(s: &str) -> (r: String)
    ensures
        r@ == lower_of(s@),
{
    s.to_lowercase()
}

/// The lower-case hex rendering of the bytes, two digits per byte.
pub open spec fn spec_hex(s: Seq<u8>) -> Seq<u8>
    decreases s.len(),
{
    if s.len() == 0 {
        seq![]
    } else {
        spec_hex(s.drop_last()) + seq![
            spec_hex_digit(s.last() as int / 16),
            spec_hex_digit(s.last() as int % 16),
        ]
    }
}

/// Render bytes as lower-case hex.
pub fn hex_encode(s: &[u8]) -> (r: Vec<u8>)
    ensures
        r@ == spec_hex(s@),
{
    let n: usize = s.len();
    let mut out: Vec<u8> = Vec::new();
    let mut i: usize = 0;
    while i < n
        invariant
            n == s@.len(),
            i <= n,
            out@ == spec_hex(s@.take(i as int)),
        decreases n - i,
    {
        let b: u8 = s[i];
        let hi: u8 = b / 16;
        let lo: u8 = b % 16;
        out.push(if hi < 10 {
            48 + hi
        } else {
            87 + hi
        });
        out.push(if lo < 10 {
            48 + lo
        } else {
            87 + lo
        });
        proof {
            assert(s@.take(i + 1 as int).drop_last() =~= s@.take(i as int));
            assert(s@.take(i + 1 as int).last() == s@[i as int]);
            assert(out@ =~= spec_hex(s@.take(i + 1 as int)));
        }
        i = i + 1;
    }
    proof {
        assert(s@.take(n as int) =~= s@);
    }
    out
}

/// `s` without its leading dots.
pub open spec fn spec_trim_dots(s: Seq<u8>) -> Seq<u8>
    decreases s.len(),
{
    if s.len() > 0 && s[0] == 46 {
        spec_trim_dots(s.drop_first())
    } else {
        s
    }
}

proof fn lemma_trim_dots_skip(s: Seq<u8>, k: int)
    requires
        0 <= k <= s.len(),
        forall|j: int| 0 <= j < k ==> s[j] == 46,
    ensures
        spec_trim_dots(s) == spec_trim_dots(s.skip(k)),
    decreases k,
{
    if k > 0 {
        assert(s[0] == 46);
        assert(s.drop_first() =~= s.skip(1));
        assert forall|j: int| 0 <= j < k - 1 implies s.skip(1)[j] == 46 by {
            assert(s.skip(1)[j] == s[j + 1]);
        }
        lemma_trim_dots_skip(s.skip(1), k - 1);
        assert(s.skip(1).skip(k - 1) =~= s.skip(k));
    } else {
        assert(s.skip(0) =~= s);
    }
}

/// Drop the leading dots of a byte string.
fn trim_dots(s: &[u8]) -> (r: Vec<u8>)
    ensures
        r@ == spec_trim_dots(s@),
{
    let n: usize = s.len();
    let mut i: usize = 0;
    while i < n && s[i] == 46
        invariant
            n == s@.len(),
            i <= n,
            forall|j: int| 0 <= j < i ==> s@[j] == 46,
        decreases n - i,
    {
        i = i + 1;
    }
    proof {
        lemma_trim_dots_skip(s@, i as int);
        assert(spec_trim_dots(s@.skip(i as int)) == s@.skip(i as int));
    }
    let rest = vstd::slice::slice_subrange(s, i, n);
    vstd::slice::slice_to_vec(rest)
}

/// Why an asset cannot be stored.
#[derive(Debug, Clone, Copy, PartialEq, Eq, Structural)]
pub enum AssetError {
    /// Nothing was left of the extension once its dots were trimmed.
    InvalidExtension,
    /// The asset holds no bytes at all.
    EmptyAsset,
}

/// The extension as stored: lower-cased, leading dots trimmed.
pub open spec fn spec_clean_extension(ext: Seq<char>) -> Seq<u8> {
    spec_trim_dots(vstd::utf8::encode_utf8(lower_of(ext)))
}

/// The file name an asset is stored under: the hex digest of its bytes, a
/// dot, the cleaned extension.  An empty cleaned extension or an empty
/// asset is refused, in that order.
pub fn asset_filename(data: &Vec<u8>, extension: &str) -> (r: Result<Vec<u8>, AssetError>)
    ensures
        match r {
            Ok(name) => spec_clean_extension(extension@).len() > 0 && data@.len() > 0 && name@
                == spec_hex(sha256_of(data@)) + seq![46u8] + spec_clean_extension(extension@),
            Err(e) => (e == AssetError::InvalidExtension && spec_clean_extension(
                extension@,
            ).len() == 0) || (e == AssetError::EmptyAsset && spec_clean_extension(
                extension@,
            ).len() > 0 && data@.len() == 0),
        },
{
    let low = lowercase(extension);
    let ext = trim_dots(low.as_str().as_bytes());
    if ext.len() == 0 {
        return Err(AssetError::InvalidExtension);
    }
    if data.len() == 0 {
        return Err(AssetError::EmptyAsset);
    }
    let digest = sha256(data);
    let mut name = hex_encode(digest.as_slice());
    name.push(46);
    name.extend_from_slice(ext.as_slice());
    proof {
        assert(name@ =~= spec_hex(sha256_of(data@)) + seq![46u8] + spec_clean_extension(
            extension@,
        ));
    }
    Ok(name)
}

/// The stored path of an asset file, as the cleanup and the callers key it.
pub open spec fn spec_asset_path(name: Seq<u8>) -> Seq<u8> {
    lit_bytes("global_assets/"@) + name
}

/// The stored path of an asset file.
pub fn asset_relative_path(name: &[u8]) -> (r: Vec<u8>)
    ensures
        r@ == spec_asset_path(name@),
{
    proof {
        reveal_strlit("global_assets/");
    }
    let mut out: Vec<u8> = Vec::new();
    crate::codec::push_lit(&mut out, "global_assets/");
    out.extend_from_slice(name);
    proof {
        assert(out@ =~= spec_asset_path(name@));
    }
    out
}

/// Is this stored path among the ones still in use?
pub open spec fn spec_is_active(name: Seq<u8>, active: Seq<Vec<u8>>) -> bool {
    exists|k: int| 0 <= k < active.len() && active[k]@ == spec_asset_path(name)
}

/// Should the cleanup delete this file?  Exactly when its stored path is
/// not among the paths still in use.
pub fn is_orphan_asset(file_name: &[u8], active: &Vec<Vec<u8>>) -> (r: bool)
    ensures
        r == !spec_is_active(file_name@, active@),
{
    let key = asset_relative_path(file_name);
    let n: usize = active.len();
    let mut k: usize = 0;
    while k < n
        invariant
            n == active@.len(),
            k <= n,
            key@ == spec_asset_path(file_name@),
            forall|j: int| 0 <= j < k ==> active@[j]@ != spec_asset_path(file_name@),
        decreases n - k,
    {
        if bytes_eq(active[k].as_slice(), key.as_slice()) {
            return false;
        }
        k = k + 1;
    }
    true
}

} // verus!
