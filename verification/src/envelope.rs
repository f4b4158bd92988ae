//! The vault envelope: the entries, serialized as JSON, sealed with
//! AES-256-GCM under a fresh nonce and written as
//! `base64(nonce ‖ ciphertext ‖ tag)`.

use crate::error::SyncError;
use aes_gcm::aead::{Aead, KeyInit};
use aes_gcm::{Aes256Gcm, Key, Nonce};
use base64::engine::general_purpose::STANDARD;
use base64::Engine;
use rand::Rng;
use serde_json::Value;
use vstd::prelude::*;
use vstd::slice::slice_subrange;

verus! {

/// Bytes of the symmetric key.
pub const KEY_LEN: usize = 32;

/// Bytes of the nonce at the head of an envelope.
pub const NONCE_LEN: usize = 12;

/// Bytes of the authentication tag at the end of an envelope.
pub const TAG_LEN: usize = 16;

/// Most bytes that AES-GCM seals in one message: 2^36.
pub const MAX_PLAINTEXT_LEN: u64 = 0x10_0000_0000;

/// The error of the `aead` crate: it carries no detail, by design.
#[verifier::external_type_specification]
#[verifier::external_body]
pub struct ExAeadError(aes_gcm::Error);

/// The error of `base64`'s decoder. Nothing is read from it.
#[verifier::external_type_specification]
#[verifier::external_body]
pub struct ExDecodeError(base64::DecodeError);

/// The text that the standard base64 engine, with padding, writes for these bytes.
pub uninterp spec fn base64_text(data: Seq<u8>) -> Seq<char>;

/// The bytes that the standard base64 engine reads from this text, or nothing
/// where it refuses the text.
pub uninterp spec fn base64_bytes(text: Seq<char>) -> Option<Seq<u8>>;

/// What AES-256-GCM, without associated data, makes of the plaintext under
/// this key and nonce: the ciphertext followed by the tag.
pub uninterp spec fn gcm_seal(key: Seq<u8>, nonce: Seq<u8>, plaintext: Seq<u8>) -> Seq<u8>;

/// The plaintext that AES-256-GCM, without associated data, gives back for a
/// ciphertext with its tag, or nothing where authentication fails.
pub uninterp spec fn gcm_open(key: Seq<u8>, nonce: Seq<u8>, sealed: Seq<u8>) -> Option<Seq<u8>>;

/// Whether `serde_json::from_slice` reads these bytes as one JSON value.
pub uninterp spec fn is_json(text: Seq<u8>) -> bool;

/// Whether two sealed messages hold the same ciphertext before their tags.
pub open spec fn same_ciphertext(first: Seq<u8>, second: Seq<u8>) -> bool {
    &&& first.len() == second.len()
    &&& first.len() >= TAG_LEN
    &&& first.subrange(0, first.len() - TAG_LEN) == second.subrange(0, second.len() - TAG_LEN)
}

/// The length of the padded base64 text of `len` bytes.
pub open spec fn base64_len(len: nat) -> nat {
    4 * ((len + 2) / 3)
}

/// `Engine::encode` of `base64::engine::general_purpose::STANDARD`. The text
/// has four characters for every three bytes begun, and the same engine
/// decodes it to the bytes it was made of. The crate panics where the text's
/// length does not fit `usize`: such input is left out.
#[verifier::external_body]
fn base64_encode(data: &[u8]) -> (text: String)
    requires
        base64_len(data@.len()) <= usize::MAX,
    ensures
        text@ == base64_text(data@),
        text@.len() == base64_len(data@.len()),
        base64_bytes(text@) == Some(data@),
{
    STANDARD.encode(data)
}

/// `Engine::decode` of `base64::engine::general_purpose::STANDARD`. The empty
/// text decodes to no bytes.
#[verifier::external_body]
fn base64_decode(text: &str) -> (r: Result<Vec<u8>, base64::DecodeError>)
    ensures
        match r {
            Ok(data) => base64_bytes(text@) == Some(data@),
            Err(_) => base64_bytes(text@) is None,
        },
        text@.len() == 0 ==> r is Ok,
        r matches Ok(data) ==> (text@.len() == 0 ==> data@.len() == 0),
{
    STANDARD.decode(text)
}

/// `Aead::encrypt` of `Aes256Gcm`, on a cipher made by `Aes256Gcm::new` for
/// the key. It fails exactly for a plaintext of more than 2^36 bytes. The
/// result is as long as the plaintext and its 16-byte tag together, and
/// `Aead::decrypt` under the same key and nonce gives the plaintext back.
#[verifier::external_body]
fn aes256_gcm_encrypt(key: &[u8], nonce: &[u8], plaintext: &[u8]) -> (r: Result<
    Vec<u8>,
    aes_gcm::Error,
>)
    requires
        key@.len() == KEY_LEN,
        nonce@.len() == NONCE_LEN,
    ensures
        r is Ok <==> plaintext@.len() <= MAX_PLAINTEXT_LEN,
        r matches Ok(sealed) ==> {
            &&& sealed@ == gcm_seal(key@, nonce@, plaintext@)
            &&& sealed@.len() == plaintext@.len() + TAG_LEN
            &&& gcm_open(key@, nonce@, sealed@) == Some(plaintext@)
        },
{
    let cipher = Aes256Gcm::new(Key::<Aes256Gcm>::from_slice(key));
    cipher.encrypt(Nonce::from_slice(nonce), plaintext)
}

/// `Aead::decrypt` of `Aes256Gcm`, on a cipher made by `Aes256Gcm::new` for
/// the key. Input shorter than a tag is refused; what is given back is
/// shorter than the input by the tag. The crate computes the one tag that
/// belongs to key, nonce and ciphertext and compares: where this input is
/// authentic, the same ciphertext under any other tag is not.
#[verifier::external_body]
fn aes256_gcm_decrypt(key: &[u8], nonce: &[u8], sealed: &[u8]) -> (r: Result<
    Vec<u8>,
    aes_gcm::Error,
>)
    requires
        key@.len() == KEY_LEN,
        nonce@.len() == NONCE_LEN,
    ensures
        match r {
            Ok(plaintext) => gcm_open(key@, nonce@, sealed@) == Some(plaintext@),
            Err(_) => gcm_open(key@, nonce@, sealed@) is None,
        },
        sealed@.len() < TAG_LEN ==> r is Err,
        r matches Ok(plaintext) ==> plaintext@.len() + TAG_LEN == sealed@.len(),
        r is Ok ==> forall|other: Seq<u8>|
            same_ciphertext(sealed@, other) && other != sealed@ ==> #[trigger] gcm_open(
                key@,
                nonce@,
                other,
            ) is None,
{
    let cipher = Aes256Gcm::new(Key::<Aes256Gcm>::from_slice(key));
    cipher.decrypt(Nonce::from_slice(nonce), sealed)
}

/// `Rng::fill` of `rand::thread_rng()` on twelve bytes. Nothing is known of
/// the bytes.
#[verifier::external_body]
fn random_nonce() -> (nonce: [u8; 12]) {
    let mut nonce = [0u8; 12];
    rand::thread_rng().fill(&mut nonce);
    nonce
}

/// `serde_json::from_slice` into a `Value`, for its verdict alone.
#[verifier::external_body]
fn json_parses(text: &[u8]) -> (ok: bool)
    ensures
        ok == is_json(text@),
{
    serde_json::from_slice::<Value>(text).is_ok()
}

/// What an envelope holds once it is opened.
#[derive(Debug, Clone, PartialEq, Eq)]
pub enum Vault {
    /// No vault has been stored yet.
    Empty,
    /// The entry collection, serialized as JSON.
    Entries(Vec<u8>),
}

impl View for Vault {
    type V = Option<Seq<u8>>;

    open spec fn view(&self) -> Option<Seq<u8>> {
        match self {
            Vault::Empty => None,
            Vault::Entries(bytes) => Some(bytes@),
        }
    }
}

/// Whether a plaintext of `len` bytes can be put into an envelope: AES-GCM
/// takes it, and the envelope's text has a length that fits `usize`.
pub open spec fn sealable(len: nat) -> bool {
    &&& len <= MAX_PLAINTEXT_LEN
    &&& base64_len(NONCE_LEN as nat + len + TAG_LEN as nat) <= usize::MAX
}

/// `blob` is the envelope of `plaintext` under `key` and `nonce`: the
/// plaintext is JSON, and the blob is the base64 text of the nonce followed
/// by the sealed plaintext, which decodes and opens again.
pub open spec fn is_envelope(
    blob: Seq<char>,
    key: Seq<u8>,
    nonce: Seq<u8>,
    plaintext: Seq<u8>,
) -> bool {
    let sealed = gcm_seal(key, nonce, plaintext);
    &&& is_json(plaintext)
    &&& nonce.len() == NONCE_LEN
    &&& sealed.len() == plaintext.len() + TAG_LEN
    &&& blob == base64_text(nonce + sealed)
    &&& blob.len() == base64_len((nonce + sealed).len())
    &&& base64_bytes(blob) == Some(nonce + sealed)
    &&& gcm_open(key, nonce, sealed) == Some(plaintext)
}

/// What `decode` makes of a blob: a blob that is not base64 is malformed;
/// fewer than twelve bytes mean that no vault exists yet; otherwise the first
/// twelve bytes are the nonce, the rest must authenticate under the key, and
/// what it opens to must be JSON.
pub open spec fn decode_of(blob: Seq<char>, key: Seq<u8>) -> Result<Option<Seq<u8>>, SyncError> {
    match base64_bytes(blob) {
        None => Err(SyncError::MalformedEnvelope),
        Some(raw) => if raw.len() < NONCE_LEN {
            Ok(None)
        } else {
            match gcm_open(
                key,
                raw.subrange(0, NONCE_LEN as int),
                raw.subrange(NONCE_LEN as int, raw.len() as int),
            ) {
                Some(plaintext) => if is_json(plaintext) {
                    Ok(Some(plaintext))
                } else {
                    Err(SyncError::MalformedVault)
                },
                None => Err(SyncError::Decryption),
            }
        },
    }
}

/// Whether `other` is `blob` with nothing but its tag changed: both decode,
/// to equally many bytes, which hold a nonce and a tag and differ in the last
/// sixteen only.
pub open spec fn differs_in_tag(blob: Seq<char>, other: Seq<char>) -> bool {
    &&& base64_bytes(blob) matches Some(raw)
    &&& base64_bytes(other) matches Some(forged)
    &&& raw.len() >= NONCE_LEN + TAG_LEN
    &&& same_ciphertext(raw, forged)
    &&& raw != forged
}

/// Framed bytes that differ in the tag alone hold the same nonce and the
/// same ciphertext, and their sealed parts differ.
proof fn lemma_other_tag(raw: Seq<u8>, forged: Seq<u8>)
    requires
        raw.len() >= NONCE_LEN + TAG_LEN,
        same_ciphertext(raw, forged),
        raw != forged,
    ensures
        forged.subrange(0, NONCE_LEN as int) == raw.subrange(0, NONCE_LEN as int),
        same_ciphertext(
            raw.subrange(NONCE_LEN as int, raw.len() as int),
            forged.subrange(NONCE_LEN as int, forged.len() as int),
        ),
        forged.subrange(NONCE_LEN as int, forged.len() as int) != raw.subrange(
            NONCE_LEN as int,
            raw.len() as int,
        ),
{
    let end = raw.len() as int;
    let body = end - TAG_LEN;
    let sealed = raw.subrange(NONCE_LEN as int, end);
    let tail = forged.subrange(NONCE_LEN as int, end);
    assert(forged.subrange(0, NONCE_LEN as int) =~= forged.subrange(0, body).subrange(
        0,
        NONCE_LEN as int,
    ));
    assert(raw.subrange(0, NONCE_LEN as int) =~= raw.subrange(0, body).subrange(
        0,
        NONCE_LEN as int,
    ));
    assert(tail.subrange(0, tail.len() - TAG_LEN) =~= forged.subrange(0, body).subrange(
        NONCE_LEN as int,
        body,
    ));
    assert(sealed.subrange(0, sealed.len() - TAG_LEN) =~= raw.subrange(0, body).subrange(
        NONCE_LEN as int,
        body,
    ));
    if tail == sealed {
        assert(forged =~= forged.subrange(0, NONCE_LEN as int) + tail);
        assert(raw =~= raw.subrange(0, NONCE_LEN as int) + sealed);
    }
}

/// An envelope decodes, under the key it was made with, to the plaintext it
/// was made of.
pub proof fn lemma_envelope_round_trip(
    blob: Seq<char>,
    key: Seq<u8>,
    nonce: Seq<u8>,
    plaintext: Seq<u8>,
)
    requires
        is_envelope(blob, key, nonce, plaintext),
    ensures
        decode_of(blob, key) == Ok::<Option<Seq<u8>>, SyncError>(Some(plaintext)),
{
    let sealed = gcm_seal(key, nonce, plaintext);
    let raw = nonce + sealed;
    assert(raw.subrange(0, NONCE_LEN as int) =~= nonce);
    assert(raw.subrange(NONCE_LEN as int, raw.len() as int) =~= sealed);
}

/// Two envelopes of the same plaintext under the same key, made with
/// different nonces, are different texts, and each decodes to the plaintext.
pub proof fn lemma_fresh_nonce_fresh_envelope(
    first: Seq<char>,
    second: Seq<char>,
    key: Seq<u8>,
    first_nonce: Seq<u8>,
    second_nonce: Seq<u8>,
    plaintext: Seq<u8>,
)
    requires
        is_envelope(first, key, first_nonce, plaintext),
        is_envelope(second, key, second_nonce, plaintext),
        first_nonce != second_nonce,
    ensures
        first != second,
        decode_of(first, key) == Ok::<Option<Seq<u8>>, SyncError>(Some(plaintext)),
        decode_of(second, key) == Ok::<Option<Seq<u8>>, SyncError>(Some(plaintext)),
{
    lemma_envelope_round_trip(first, key, first_nonce, plaintext);
    lemma_envelope_round_trip(second, key, second_nonce, plaintext);
    if first == second {
        let a = first_nonce + gcm_seal(key, first_nonce, plaintext);
        let b = second_nonce + gcm_seal(key, second_nonce, plaintext);
        assert(a == b);
        assert(a.subrange(0, NONCE_LEN as int) =~= first_nonce);
        assert(b.subrange(0, NONCE_LEN as int) =~= second_nonce);
    }
}

/// A blob that decodes to fewer than twelve bytes stands for the empty
/// vault, whatever the key.
pub proof fn lemma_short_blob_is_empty(blob: Seq<char>, key: Seq<u8>)
    requires
        base64_bytes(blob) matches Some(raw) && raw.len() < NONCE_LEN,
    ensures
        decode_of(blob, key) == Ok::<Option<Seq<u8>>, SyncError>(None),
{
}

/// The failure of `encode` on a plaintext: one that is not JSON is a
/// malformed vault, one that cannot be sealed an encryption failure.
pub open spec fn refusal_of(plaintext: Seq<u8>) -> SyncError {
    if is_json(plaintext) {
        SyncError::Encryption
    } else {
        SyncError::MalformedVault
    }
}

/// Seals `plaintext`, which must be JSON, under `key` with the given nonce
/// and writes the envelope. The nonce must never be used twice with one key:
/// `encode` draws a fresh one.
pub fn encode_with_nonce(plaintext: &[u8], key: &[u8; 32], nonce: &[u8; 12]) -> (r: Result<
    String,
    SyncError,
>)
    ensures
        r is Ok <==> is_json(plaintext@) && sealable(plaintext@.len()),
        match r {
            Ok(blob) => is_envelope(blob@, key@, nonce@, plaintext@),
            Err(e) => e == refusal_of(plaintext@),
        },
{
    if !json_parses(plaintext) {
        return Err(SyncError::MalformedVault);
    }
    let sealed = match aes256_gcm_encrypt(key.as_slice(), nonce.as_slice(), plaintext) {
        Ok(sealed) => sealed,
        Err(_) => {
            return Err(SyncError::Encryption);
        },
    };
    let mut framed: Vec<u8> = Vec::new();
    framed.extend_from_slice(nonce.as_slice());
    framed.extend_from_slice(sealed.as_slice());
    assert(framed@ =~= nonce@ + sealed@);
    let groups: usize = framed.len() / 3 + if framed.len() % 3 == 0 {
        0
    } else {
        1
    };
    assert(groups == (framed@.len() + 2) / 3);
    if groups > usize::MAX / 4 {
        return Err(SyncError::Encryption);
    }
    Ok(base64_encode(framed.as_slice()))
}

/// Seals the entries, serialized as JSON, under `key` with a fresh random
/// nonce and writes the envelope. Whatever nonce was drawn, the envelope
/// decodes under `key` to `plaintext` again.
pub fn encode(plaintext: &[u8], key: &[u8; 32]) -> (r: Result<String, SyncError>)
    ensures
        r is Ok <==> is_json(plaintext@) && sealable(plaintext@.len()),
        match r {
            Ok(blob) => {
                &&& exists|nonce: Seq<u8>| is_envelope(blob@, key@, nonce, plaintext@)
                &&& decode_of(blob@, key@) == Ok::<Option<Seq<u8>>, SyncError>(Some(plaintext@))
            },
            Err(e) => e == refusal_of(plaintext@),
        },
{
    let nonce = random_nonce();
    let r = encode_with_nonce(plaintext, key, &nonce);
    proof {
        if r is Ok {
            lemma_envelope_round_trip(r->Ok_0@, key@, nonce@, plaintext@);
        }
    }
    r
}

/// Opens an envelope. A blob that decodes to fewer than twelve bytes, the
/// empty text among them, is the empty vault and no error. Otherwise the
/// first twelve bytes are the nonce, and the rest must authenticate under
/// `key`: if it does not, the failure is `Decryption`, never a default value.
/// What is left after the nonce but too short to hold a tag never does. What
/// the envelope opens to must be JSON. Where an envelope opens, the same
/// envelope with any bit of its tag changed fails authentication.
pub fn decode(blob: &str, key: &[u8; 32]) -> (r: Result<Vault, SyncError>)
    ensures
        match r {
            Ok(vault) => decode_of(blob@, key@) == Ok::<Option<Seq<u8>>, SyncError>(vault@),
            Err(e) => decode_of(blob@, key@) == Err::<Option<Seq<u8>>, SyncError>(e),
        },
        blob@.len() == 0 ==> r == Ok::<Vault, SyncError>(Vault::Empty),
        base64_bytes(blob@) matches Some(raw) && NONCE_LEN <= raw.len() < NONCE_LEN + TAG_LEN ==> r
            == Err::<Vault, SyncError>(SyncError::Decryption),
        r matches Ok(Vault::Entries(_)) ==> forall|other: Seq<char>|
            differs_in_tag(blob@, other) ==> #[trigger] decode_of(other, key@) == Err::<
                Option<Seq<u8>>,
                SyncError,
            >(SyncError::Decryption),
{
    let raw = match base64_decode(blob) {
        Ok(raw) => raw,
        Err(_) => {
            return Err(SyncError::MalformedEnvelope);
        },
    };
    if raw.len() < NONCE_LEN {
        return Ok(Vault::Empty);
    }
    let nonce = slice_subrange(raw.as_slice(), 0, NONCE_LEN);
    let sealed = slice_subrange(raw.as_slice(), NONCE_LEN, raw.len());
    match aes256_gcm_decrypt(key.as_slice(), nonce, sealed) {
        Ok(plaintext) => {
            proof {
                assert forall|other: Seq<char>| differs_in_tag(blob@, other) implies decode_of(
                    other,
                    key@,
                ) == Err::<Option<Seq<u8>>, SyncError>(SyncError::Decryption) by {
                    lemma_other_tag(raw@, base64_bytes(other)->Some_0);
                }
            }
            if json_parses(plaintext.as_slice()) {
                Ok(Vault::Entries(plaintext))
            } else {
                Err(SyncError::MalformedVault)
            }
        },
        Err(_) => Err(SyncError::Decryption),
    }
}

} // verus!
