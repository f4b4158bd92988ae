//! Key derivation: from e-mail address and password to the master key, the
//! authentication proof that is sent in place of the password, and the
//! symmetric key of the vault.

use crate::envelope::KEY_LEN;
use crate::error::SyncError;
use argon2::password_hash::{PasswordHash, PasswordHasher, PasswordVerifier, SaltString};
use argon2::{Algorithm, Argon2, Params, Version};
use sha2::{Digest, Sha256};
use vstd::prelude::*;
use vstd::string::StringSliceAdditionalSpecFns;
use vstd::utf8::encode_utf8;
use zeroize::Zeroize;

verus! {

/// Memory of the memory-hard hash, in KiB: 64 MiB.
pub const MEMORY_KIB: u32 = 65536;

/// Passes of the memory-hard hash over its memory.
pub const ITERATIONS: u32 = 3;

/// Lanes of the memory-hard hash.
pub const LANES: u32 = 4;

/// Most bytes that a salt can be made of: their encoding then has 64
/// characters, the longest that the hash string format takes.
pub const MAX_SALT_INPUT: usize = 48;

/// Fewest bytes that Argon2 takes as a salt.
pub const MIN_SALT_INPUT: usize = 8;

/// Characters of the encoding of `MIN_SALT_INPUT` bytes.
pub const MIN_SALT_CHARS: usize = 11;

/// Characters of the digest at the end of a hash string: 32 bytes in
/// unpadded base64.
pub const DIGEST_CHARS: usize = 43;

/// The error of the `password-hash` and `argon2` crates. Nothing is read from it.
#[verifier::external_type_specification]
#[verifier::external_body]
pub struct ExPasswordHashError(argon2::password_hash::Error);

/// What `SaltString::encode_b64` gives for these bytes: their unpadded base64
/// text, or nothing if it would not fit a salt.
pub uninterp spec fn salt_text(input: Seq<u8>) -> Option<Seq<char>>;

/// The hash string that Argon2id, version 0x13, computes for this password,
/// salt and cost, or nothing where the crate refuses the input.
pub uninterp spec fn argon2id_hash(
    password: Seq<u8>,
    salt: Seq<char>,
    m_cost: u32,
    t_cost: u32,
    p_cost: u32,
) -> Option<Seq<char>>;

/// The memory in KiB, the passes and the lanes that a hash string declares:
/// what `Argon2::verify_password` reads from it and hashes with.
pub uninterp spec fn declared_cost(hash: Seq<char>) -> (u32, u32, u32);

/// Whether `Argon2::verify_password` accepts this password for this hash string.
pub uninterp spec fn argon2id_accepts(password: Seq<u8>, hash: Seq<char>) -> bool;

/// The SHA-256 digest of these bytes.
pub uninterp spec fn sha256(data: Seq<u8>) -> Seq<u8>;

/// The length of the unpadded base64 text of `len` bytes.
pub open spec fn salt_len(len: nat) -> nat {
    (4 * len + 2) / 3
}

/// `SaltString::encode_b64`, with the salt handed back as text. The crate
/// encodes into a buffer of 64 characters, four for every three bytes begun,
/// so the call succeeds exactly for inputs of at most 48 bytes.
#[verifier::external_body]
fn encode_salt(input: &[u8]) -> (r: Result<String, argon2::password_hash::Error>)
    ensures
        r is Ok <==> input@.len() <= MAX_SALT_INPUT,
        r matches Ok(salt) ==> salt@.len() == salt_len(input@.len()),
        match r {
            Ok(salt) => salt_text(input@) == Some(salt@),
            Err(_) => salt_text(input@) is None,
        },
{
    Ok(SaltString::encode_b64(input)?.as_str().to_string())
}

/// `Argon2::hash_password` on a context made by `Params::new` and
/// `Argon2::new` for Argon2id, version 0x13, with the salt parsed by
/// `SaltString::from_b64`; the result is written out as a hash string. The
/// crate's own answer is named, success and failure alike. A hash string
/// declares the cost it was made with and holds, among other fields, the salt
/// and the 43 characters of the digest. A salt of fewer than 11 characters
/// stands for fewer than the 8 bytes that Argon2 asks for, and is refused.
/// The cost is bounded by what this library uses, so that the call ends.
#[verifier::external_body]
fn hash_password(password: &[u8], salt: &str, m_cost: u32, t_cost: u32, p_cost: u32) -> (r: Result<
    String,
    argon2::password_hash::Error,
>)
    requires
        m_cost <= MEMORY_KIB,
        t_cost <= ITERATIONS,
        p_cost <= LANES,
    ensures
        match r {
            Ok(hash) => argon2id_hash(password@, salt@, m_cost, t_cost, p_cost) == Some(hash@),
            Err(_) => argon2id_hash(password@, salt@, m_cost, t_cost, p_cost) is None,
        },
        salt@.len() < MIN_SALT_CHARS ==> r is Err,
        r matches Ok(hash) ==> hash@.len() >= salt@.len() + DIGEST_CHARS,
        r matches Ok(hash) ==> declared_cost(hash@) == (m_cost, t_cost, p_cost),
{
    let params = Params::new(m_cost, t_cost, p_cost, None)?;
    let context = Argon2::new(Algorithm::Argon2id, Version::V0x13, params);
    let salt = SaltString::from_b64(salt)?;
    Ok(context.hash_password(password, &salt)?.to_string())
}

/// `PasswordHash::new` on the hash string, then `Argon2::verify_password`,
/// which hashes the password again with the string's own parameters and
/// compares. Success is named; a string that does not parse is not accepted.
/// The cost that the string declares is bounded by what this library uses, so
/// that the call ends.
#[verifier::external_body]
fn verify_password(password: &[u8], hash: &str) -> (r: Result<(), argon2::password_hash::Error>)
    requires
        declared_cost(hash@).0 <= MEMORY_KIB,
        declared_cost(hash@).1 <= ITERATIONS,
        declared_cost(hash@).2 <= LANES,
    ensures
        r is Ok <==> argon2id_accepts(password@, hash@),
{
    let parsed = PasswordHash::new(hash)?;
    Argon2::default().verify_password(password, &parsed)
}

/// `Sha256::default`, `update` and `finalize`: the digest of the bytes.
#[verifier::external_body]
fn sha256_digest(data: &[u8]) -> (digest: [u8; 32])
    ensures
        digest@ == sha256(data@),
{
    let mut hasher = Sha256::default();
    hasher.update(data);
    hasher.finalize().into()
}

/// `Zeroize::zeroize` for `String`: overwrites the bytes with zeros and
/// leaves the string empty.
#[verifier::external_body]
fn zeroize_string(secret: &mut String)
    ensures
        final(secret)@ == Seq::<char>::empty(),
{
    secret.zeroize();
}

/// Overwrites a secret text and leaves it empty.
pub fn wipe(secret: &mut String)
    ensures
        final(secret)@.len() == 0,
{
    zeroize_string(secret);
}

/// The secret at the root of a session: derived once from password and
/// e-mail address, held in memory only, and wiped when the session ends.
pub struct MasterKey {
    secret: String,
}

impl View for MasterKey {
    type V = Seq<char>;

    closed spec fn view(&self) -> Seq<char> {
        self.secret@
    }
}

impl MasterKey {
    /// Whether the secret has been overwritten.
    pub open spec fn wiped(&self) -> bool {
        self@.len() == 0
    }

    /// Takes a hash string as master key.
    pub fn new(secret: String) -> (key: MasterKey)
        ensures
            key@ == secret@,
    {
        MasterKey { secret }
    }

    /// The secret as text.
    pub fn as_str(&self) -> (secret: &str)
        ensures
            secret@ == self@,
    {
        self.secret.as_str()
    }

    /// Whether the secret has been overwritten.
    pub fn is_wiped(&self) -> (wiped: bool)
        ensures
            wiped == self.wiped(),
    {
        self.secret.as_str().is_empty()
    }

    /// Overwrites the secret.
    pub fn wipe(&mut self)
        ensures
            final(self).wiped(),
    {
        zeroize_string(&mut self.secret);
    }
}

/// The hash string of a password under a salt made of `salt_input`, at the
/// cost this library uses; nothing where salt or hash cannot be made.
pub open spec fn salted_hash(password: Seq<u8>, salt_input: Seq<u8>) -> Option<Seq<char>> {
    match salt_text(salt_input) {
        Some(salt) => argon2id_hash(password, salt, MEMORY_KIB, ITERATIONS, LANES),
        None => None,
    }
}

/// The master key of an account: the hash string of the password, salted
/// with the e-mail address, provided that it verifies against the password.
pub open spec fn master_key_of(password: Seq<char>, email: Seq<char>) -> Option<Seq<char>> {
    match salted_hash(encode_utf8(password), encode_utf8(email)) {
        Some(hash) => if argon2id_accepts(encode_utf8(password), hash) {
            Some(hash)
        } else {
            None
        },
        None => None,
    }
}

/// The authentication proof: the hash string of the master key, salted with
/// the password.
pub open spec fn authentication_proof_of(master_key: Seq<char>, password: Seq<char>) -> Option<
    Seq<char>,
> {
    salted_hash(encode_utf8(master_key), encode_utf8(password))
}

/// The symmetric key of the vault: the digest of the master key alone.
pub open spec fn encryption_key_of(master_key: Seq<char>) -> Seq<u8> {
    sha256(encode_utf8(master_key))
}

/// `proof` is the authentication proof of this master key and password: a
/// hash string, which is at least as long as the digest it ends with.
pub open spec fn is_authentication_proof(
    proof: Seq<char>,
    master_key: Seq<char>,
    password: Seq<char>,
) -> bool {
    &&& authentication_proof_of(master_key, password) == Some(proof)
    &&& proof.len() >= DIGEST_CHARS
}

/// `key` is the symmetric key of this master key: 32 bytes.
pub open spec fn is_encryption_key(key: Seq<u8>, master_key: Seq<char>) -> bool {
    &&& key == encryption_key_of(master_key)
    &&& key.len() == KEY_LEN
}

/// UTF-8 writes every character in at least one byte.
pub proof fn lemma_utf8_len(text: Seq<char>)
    ensures
        encode_utf8(text).len() >= text.len(),
    decreases text.len(),
{
    if text.len() > 0 {
        lemma_utf8_len(text.drop_first());
    }
}

/// Key separation: what is sent to the backend as authentication proof is
/// never, byte for byte, the key that opens the vault of the same master key.
pub proof fn lemma_proof_is_not_the_key(
    proof: Seq<char>,
    key: Seq<u8>,
    master_key: Seq<char>,
    password: Seq<char>,
)
    requires
        is_authentication_proof(proof, master_key, password),
        is_encryption_key(key, master_key),
    ensures
        encode_utf8(proof) != key,
{
    lemma_utf8_len(proof);
}

/// Whether a salt can be made of `len` bytes: at least 8, which Argon2 asks
/// for, and at most 48, which the hash string format holds.
pub open spec fn usable_as_salt(len: nat) -> bool {
    MIN_SALT_INPUT <= len <= MAX_SALT_INPUT
}

/// Hashes `password` under the salt made of `salt_input`.
fn hash_with_salt(password: &[u8], salt_input: &[u8]) -> (r: Option<String>)
    ensures
        !usable_as_salt(salt_input@.len()) ==> r is None,
        r matches Some(hash) ==> hash@.len() >= DIGEST_CHARS,
        r matches Some(hash) ==> declared_cost(hash@) == (MEMORY_KIB, ITERATIONS, LANES),
        match r {
            Some(hash) => salted_hash(password@, salt_input@) == Some(hash@),
            None => salted_hash(password@, salt_input@) is None,
        },
{
    match encode_salt(salt_input) {
        Ok(salt) => match hash_password(password, salt.as_str(), MEMORY_KIB, ITERATIONS, LANES) {
            Ok(hash) => Some(hash),
            Err(_) => None,
        },
        Err(_) => None,
    }
}

/// Derives the master key from password and e-mail address. The e-mail
/// address is the salt, so that the same account gives the same key in every
/// session. The hash is verified against the password before it is handed
/// out. Every failure is a fatal `KeyDerivation`; an address of fewer than 8
/// or more than 48 bytes is one.
pub fn derive_master_key(password: &str, email: &str) -> (r: Result<MasterKey, SyncError>)
    ensures
        !usable_as_salt(email.spec_bytes().len()) ==> r is Err,
        match r {
            Ok(key) => master_key_of(password@, email@) == Some(key@),
            Err(e) => e == SyncError::KeyDerivation && master_key_of(password@, email@) is None,
        },
{
    match hash_with_salt(password.as_bytes(), email.as_bytes()) {
        Some(hash) => match verify_password(password.as_bytes(), hash.as_str()) {
            Ok(_) => Ok(MasterKey::new(hash)),
            Err(_) => Err(SyncError::KeyDerivation),
        },
        None => Err(SyncError::KeyDerivation),
    }
}

/// Derives the authentication proof, the value that the backend stores and
/// compares in place of the password: the master key hashed under the
/// password as salt. Every failure is a fatal `KeyDerivation`; a password of
/// fewer than 8 or more than 48 bytes is one.
pub fn derive_authentication_proof(master_key: &MasterKey, password: &str) -> (r: Result<
    String,
    SyncError,
>)
    ensures
        !usable_as_salt(password.spec_bytes().len()) ==> r is Err,
        match r {
            Ok(proof) => is_authentication_proof(proof@, master_key@, password@),
            Err(e) => e == SyncError::KeyDerivation && authentication_proof_of(
                master_key@,
                password@,
            ) is None,
        },
{
    match hash_with_salt(master_key.as_str().as_bytes(), password.as_bytes()) {
        Some(proof) => Ok(proof),
        None => Err(SyncError::KeyDerivation),
    }
}

/// Derives the 32-byte key of the vault from the master key, and from
/// nothing else: whoever holds the authentication proof cannot compute it.
pub fn derive_encryption_key(master_key: &MasterKey) -> (key: [u8; 32])
    ensures
        is_encryption_key(key@, master_key@),
{
    sha256_digest(master_key.as_str().as_bytes())
}

} // verus!
