//! Authenticated encryption of the session token under the machine key.
//!
//! Every message is sealed with AES-256-GCM under one fixed all-zero nonce.
//! That is sound only because a machine key seals at most one plaintext over
//! its lifetime (the one stored token); storing several secrets under one key
//! would need a fresh nonce per message, kept beside its ciphertext.
use aes_gcm::aead::generic_array::GenericArray;
use aes_gcm::aead::Aead;
use aes_gcm::{Aes256Gcm, Error as AeadError, KeyInit};
use std::string::FromUtf8Error;
use vstd::prelude::*;
use vstd::utf8::{decode_utf8, encode_utf8, valid_utf8};

verus! {

broadcast use vstd::utf8::encode_utf8_valid_utf8, vstd::utf8::encode_utf8_decode_utf8;

#[verifier::external_type_specification]
#[verifier::external_body]
pub struct ExAeadError(AeadError);

#[verifier::external_type_specification]
#[verifier::external_body]
pub struct ExFromUtf8Error(FromUtf8Error);

/// The longest plaintext, in bytes, that AES-GCM seals.
pub const PLAINTEXT_LIMIT: u64 = 68719476736;

/// The ciphertext, tag appended, that AES-256-GCM makes of `plaintext` under
/// `key` and `nonce` with no associated data.
pub uninterp spec fn aes256_gcm_sealed(key: Seq<u8>, nonce: Seq<u8>, plaintext: Seq<u8>) -> Seq<u8>;

/// The fixed nonce: twelve zero bytes.
pub open spec fn zero_nonce() -> Seq<u8> {
    Seq::new(12, |i: int| 0u8)
}

/// `cipher` is the sealed form of `plaintext` under `key` and the fixed nonce.
pub open spec fn seals(key: Seq<u8>, plaintext: Seq<u8>, cipher: Seq<u8>) -> bool {
    plaintext.len() <= PLAINTEXT_LIMIT && aes256_gcm_sealed(key, zero_nonce(), plaintext) == cipher
}

/// `cipher` is the sealed form of some plaintext under `key`.
pub open spec fn opens(key: Seq<u8>, cipher: Seq<u8>) -> bool {
    exists|p: Seq<u8>| #[trigger] seals(key, p, cipher)
}

/// The plaintext that `cipher` seals under `key`, where `opens(key, cipher)`.
pub open spec fn opened(key: Seq<u8>, cipher: Seq<u8>) -> Seq<u8> {
    choose|p: Seq<u8>| #[trigger] seals(key, p, cipher)
}

/// What [`encrypt_string`] returns for `plaintext` under `key`.
pub open spec fn encrypt_string_result(key: Seq<u8>, plaintext: Seq<char>, r: Result<Vec<u8>, Error>) -> bool {
    &&& (r is Ok <==> encode_utf8(plaintext).len() <= PLAINTEXT_LIMIT)
    &&& (r is Ok ==> seals(key, encode_utf8(plaintext), r->Ok_0@))
    &&& (r is Err ==> r->Err_0 is Lib)
}

/// What [`decrypt_string`] returns for `cipher` under `key`. Where `cipher`
/// seals a text, that text; where it seals bytes that are no text, `FromUtf8`;
/// where it seals nothing, `Lib`, or (for a ciphertext longer than any sealed
/// one) whatever the cipher's check lets through.
pub open spec fn decrypt_string_result(key: Seq<u8>, cipher: Seq<u8>, r: Result<String, Error>) -> bool {
    &&& forall|t: Seq<char>| #[trigger] seals(key, encode_utf8(t), cipher) ==> r is Ok && r->Ok_0@ == t
    &&& (opens(key, cipher) && valid_utf8(opened(key, cipher)) ==> r is Ok && r->Ok_0@ == decode_utf8(
        opened(key, cipher),
    ))
    &&& (opens(key, cipher) && !valid_utf8(opened(key, cipher)) ==> r is Err && r->Err_0 is FromUtf8)
    &&& (r is Ok && encode_utf8(r->Ok_0@).len() <= PLAINTEXT_LIMIT ==> seals(key, encode_utf8(r->Ok_0@), cipher))
    &&& (r is Err && r->Err_0 is Lib ==> !opens(key, cipher))
}

pub enum Error {
    Lib(AeadError),
    FromUtf8(FromUtf8Error),
}

impl Error {
    /// The error as text, for the user.
    pub fn message(&self) -> (r: String)
        ensures
            self is Lib ==> r@ == "aead::Error"@,
    {
        match self {
            Error::Lib(_) => String::from_str("aead::Error"),
            Error::FromUtf8(e) => utf8_error_text(e),
        }
    }
}

/// Relies on the `Display` of std's `FromUtf8Error`, which says where the
/// invalid sequence starts.
#[verifier::external_body]
fn utf8_error_text(e: &FromUtf8Error) -> String {
    e.to_string()
}

/// Relies on aes_gcm's `Aead::encrypt` for `Aes256Gcm`: it fails exactly when
/// the plaintext is longer than its limit, and is otherwise a function of key,
/// nonce and plaintext.
#[verifier::external_body]
fn aes_gcm_encrypt(key: &[u8; 32], nonce: &[u8; 12], plaintext: &[u8]) -> (r: Result<
    Vec<u8>,
    AeadError,
>)
    ensures
        r is Ok <==> plaintext@.len() <= PLAINTEXT_LIMIT,
        r is Ok ==> r->Ok_0@ == aes256_gcm_sealed(key@, nonce@, plaintext@),
{
    let cipher = Aes256Gcm::new(GenericArray::from_slice(key));
    cipher.encrypt(GenericArray::from_slice(nonce), plaintext)
}

/// Relies on aes_gcm's `Aead::decrypt` for `Aes256Gcm`: it checks the tag and
/// undoes the counter-mode keystream, so it succeeds on what `Aead::encrypt`
/// made under the same key and nonce and gives back that plaintext; and a
/// plaintext it gives back, if short enough to seal, seals to the ciphertext.
#[verifier::external_body]
fn aes_gcm_decrypt(key: &[u8; 32], nonce: &[u8; 12], cipher: &[u8]) -> (r: Result<
    Vec<u8>,
    AeadError,
>)
    ensures
        r is Ok && r->Ok_0@.len() <= PLAINTEXT_LIMIT ==> aes256_gcm_sealed(
            key@,
            nonce@,
            r->Ok_0@,
        ) == cipher@,
        forall|p: Seq<u8>|
            p.len() <= PLAINTEXT_LIMIT && #[trigger] aes256_gcm_sealed(key@, nonce@, p) == cipher@
                ==> r is Ok && r->Ok_0@ == p,
{
    let c = Aes256Gcm::new(GenericArray::from_slice(key));
    c.decrypt(GenericArray::from_slice(nonce), cipher)
}

/// Relies on std's `String::from_utf8`: it succeeds exactly on valid UTF-8 and
/// keeps the bytes as they are.
#[verifier::external_body]
fn string_from_utf8(bytes: Vec<u8>) -> (r: Result<String, FromUtf8Error>)
    ensures
        r is Ok <==> valid_utf8(bytes@),
        r is Ok ==> encode_utf8(r->Ok_0@) == bytes@,
{
    String::from_utf8(bytes)
}

fn fixed_nonce() -> (r: [u8; 12])
    ensures
        r@ == zero_nonce(),
{
    let n: [u8; 12] = [0u8; 12];
    assert(n@ =~= zero_nonce());
    n
}

/// Seals the UTF-8 bytes of `plaintext` under `key`.
pub fn encrypt_string(key: &[u8; 32], plaintext: String) -> (r: Result<Vec<u8>, Error>)
    ensures
        encrypt_string_result(key@, plaintext@, r),
{
    let nonce = fixed_nonce();
    match aes_gcm_encrypt(key, &nonce, plaintext.as_str().as_bytes()) {
        Ok(c) => Ok(c),
        Err(e) => Err(Error::Lib(e)),
    }
}

/// Opens `cipher` under `key`: the plaintext it seals, or `Lib` where its tag
/// does not verify (another key, a corrupted or altered ciphertext).
pub fn decrypt(key: &[u8; 32], cipher: Vec<u8>) -> (r: Result<Vec<u8>, Error>)
    ensures
        forall|p: Seq<u8>| #[trigger] seals(key@, p, cipher@) ==> r is Ok && r->Ok_0@ == p,
        opens(key@, cipher@) ==> r is Ok && r->Ok_0@ == opened(key@, cipher@),
        r is Ok && r->Ok_0@.len() <= PLAINTEXT_LIMIT ==> seals(key@, r->Ok_0@, cipher@),
        r is Err ==> r->Err_0 is Lib && !opens(key@, cipher@),
{
    let nonce = fixed_nonce();
    let res = aes_gcm_decrypt(key, &nonce, cipher.as_slice());
    match res {
        Ok(p) => {
            assert(opens(key@, cipher@) ==> seals(key@, opened(key@, cipher@), cipher@));
            Ok(p)
        },
        Err(e) => {
            assert(!opens(key@, cipher@)) by {
                if opens(key@, cipher@) {
                    let p = choose|p: Seq<u8>| #[trigger] seals(key@, p, cipher@);
                    assert(aes256_gcm_sealed(key@, nonce@, p) == cipher@);
                }
            }
            Err(Error::Lib(e))
        },
    }
}

/// Opens `cipher` under `key` and reads the plaintext as UTF-8 text.
pub fn decrypt_string(key: &[u8; 32], cipher: Vec<u8>) -> (r: Result<String, Error>)
    ensures
        decrypt_string_result(key@, cipher@, r),
{
    let buf = decrypt(key, cipher);
    match buf {
        Ok(b) => match string_from_utf8(b) {
            Ok(s) => {
                assert(decode_utf8(encode_utf8(s@)) == s@);
                assert forall|t: Seq<char>| #[trigger] seals(key@, encode_utf8(t), cipher@) implies s@
                    == t by {
                    assert(decode_utf8(encode_utf8(t)) == t);
                }
                Ok(s)
            },
            Err(e) => Err(Error::FromUtf8(e)),
        },
        Err(e) => {
            assert forall|t: Seq<char>| !#[trigger] seals(key@, encode_utf8(t), cipher@) by {}
            Err(e)
        },
    }
}

/// Decrypting under a key what encryption made under the same key gives the
/// plaintext back, for every text that is not too long to seal.
pub proof fn lemma_decrypt_encrypt(
    key: Seq<u8>,
    plaintext: Seq<char>,
    sealed: Result<Vec<u8>, Error>,
    unsealed: Result<String, Error>,
)
    requires
        encode_utf8(plaintext).len() <= PLAINTEXT_LIMIT,
        encrypt_string_result(key, plaintext, sealed),
        sealed is Ok ==> decrypt_string_result(key, sealed->Ok_0@, unsealed),
    ensures
        sealed is Ok,
        unsealed is Ok,
        unsealed->Ok_0@ == plaintext,
{
    assert(seals(key, encode_utf8(plaintext), sealed->Ok_0@));
}

} // verus!
