//! Where the encrypted token lives, and how it is sealed for and read from there.
//!
//! Reading and writing the file happens outside the library: it hands in what
//! the read found ([`StoredToken`]) and takes back the bytes to write.
use crate::crypto::aes256;
use vstd::prelude::*;
use vstd::utf8::{decode_utf8, encode_utf8, valid_utf8};

verus! {

pub enum Error {
    /// The token file could not be read or written.
    Io(String),
    /// No token has been saved.
    NotFound,
    /// The stored bytes do not open under this machine's key.
    Aes256(aes256::Error),
}

impl Error {
    pub fn message(&self) -> (r: String)
        ensures
            self is Io ==> r@ == self->Io_0@,
    {
        match self {
            Error::Io(m) => m.clone(),
            Error::NotFound => String::from_str("no saved token"),
            Error::Aes256(e) => e.message(),
        }
    }
}

/// What a read of the token file found.
pub enum StoredToken {
    /// There is no token file.
    Missing,
    /// The file exists but could not be read; the reason.
    Unreadable(String),
    /// The file's contents.
    Bytes(Vec<u8>),
}

/// The application's directory under a per-user configuration root; without
/// one, a relative directory.
pub open spec fn dir_of(config_root: Option<Seq<char>>) -> Seq<char> {
    match config_root {
        Some(root) => root + seq!['/'] + "Wolfyxon/dove"@,
        None => "dove"@,
    }
}

/// The token file inside [`dir_of`].
pub open spec fn token_path_of(config_root: Option<Seq<char>>) -> Seq<char> {
    dir_of(config_root) + seq!['/'] + "DO_NOT_SHARE.dat"@
}

pub open spec fn opt_view(o: Option<String>) -> Option<Seq<char>> {
    match o {
        Some(s) => Some(s@),
        None => None,
    }
}

fn push_slash(out: &mut String)
    ensures
        final(out)@ == old(out)@ + seq!['/'],
{
    proof {
        reveal_strlit("/");
    }
    out.append("/");
}

/// Relies on dirs' `config_dir`: the per-user configuration directory, where
/// the platform has one. It depends on the user and the environment, so
/// nothing is promised of it.
#[verifier::external_body]
fn config_root() -> Option<String> {
    dirs::config_dir().map(|p| p.to_string_lossy().into_owned())
}

/// The application's directory under `config_root`.
pub fn dir_under(config_root: Option<String>) -> (r: String)
    ensures
        r@ == dir_of(opt_view(config_root)),
{
    match config_root {
        Some(root) => {
            let mut out = root;
            push_slash(&mut out);
            out.append("Wolfyxon/dove");
            out
        },
        None => String::from_str("dove"),
    }
}

/// The token file under `config_root`.
pub fn token_file_path_under(config_root: Option<String>) -> (r: String)
    ensures
        r@ == token_path_of(opt_view(config_root)),
{
    let mut out = dir_under(config_root);
    push_slash(&mut out);
    out.append("DO_NOT_SHARE.dat");
    out
}

/// The application's directory under this user's configuration directory.
pub fn get_dir() -> (r: String)
    ensures
        exists|root: Option<Seq<char>>| r@ == dir_of(root),
{
    let root = config_root();
    let ghost v = opt_view(root);
    let r = dir_under(root);
    assert(r@ == dir_of(v));
    r
}

/// The token file under this user's configuration directory.
pub fn get_token_file_path() -> (r: String)
    ensures
        exists|root: Option<Seq<char>>| r@ == token_path_of(root),
{
    let root = config_root();
    let ghost v = opt_view(root);
    let r = token_file_path_under(root);
    assert(r@ == token_path_of(v));
    r
}

/// The token that the file holds, sealed under `key`.
pub fn get_token(key: &[u8; 32], stored: StoredToken) -> (r: Result<String, Error>)
    ensures
        stored is Missing ==> r is Err && r->Err_0 is NotFound,
        stored is Unreadable ==> r is Err && r->Err_0 is Io && r->Err_0->Io_0 == stored->Unreadable_0,
        stored is Bytes ==> match r {
            Ok(s) => aes256::decrypt_string_result(key@, stored->Bytes_0@, Ok(s)),
            Err(Error::Aes256(e)) => aes256::decrypt_string_result(key@, stored->Bytes_0@, Err(e)),
            _ => false,
        },
{
    match stored {
        StoredToken::Missing => Err(Error::NotFound),
        StoredToken::Unreadable(m) => Err(Error::Io(m)),
        StoredToken::Bytes(b) => match aes256::decrypt_string(key, b) {
            Ok(s) => Ok(s),
            Err(e) => Err(Error::Aes256(e)),
        },
    }
}

/// The bytes to store for `token`: the token sealed under `key`.
pub fn save_token(key: &[u8; 32], token: String) -> (r: Result<Vec<u8>, Error>)
    ensures
        r is Ok <==> encode_utf8(token@).len() <= aes256::PLAINTEXT_LIMIT,
        r is Ok ==> aes256::seals(key@, encode_utf8(token@), r->Ok_0@),
        r is Err ==> r->Err_0 is Aes256,
{
    match aes256::encrypt_string(key, token) {
        Ok(c) => Ok(c),
        Err(e) => Err(Error::Aes256(e)),
    }
}

} // verus!
