//! Credentials: how the hash that stands for a user name and password is
//! derived.

use crate::database::auth::{session_hash, token_hash};
use crate::digest::{sha512, sha512_of};
use crate::model::request::{both, ClientRequest};
use vstd::prelude::*;
use vstd::slice::slice_subrange;
use vstd::utf8::encode_utf8;

verus! {

/// The bytes that are hashed for a credential: the password between the two
/// halves of the user name. A user name of odd length has the shorter half
/// in front.
pub open spec fn salted(user_name: Seq<u8>, pass: Seq<u8>) -> Seq<u8> {
    user_name.subrange(0, user_name.len() as int / 2) + pass + user_name.subrange(
        user_name.len() as int / 2,
        user_name.len() as int,
    )
}

/// The hash that stands for a user name and password: SHA-512 of the
/// password salted with the user name.
pub open spec fn credential_hash(user_name: Seq<u8>, pass: Seq<u8>) -> Seq<u8> {
    sha512_of(salted(user_name, pass))
}

/// The layout of the salted bytes: every byte of the user name and of the
/// password occurs once, the first half of the name in front, then the
/// password, then the rest of the name.
pub proof fn lemma_salted_layout(user_name: Seq<u8>, pass: Seq<u8>)
    ensures
        salted(user_name, pass).len() == user_name.len() + pass.len(),
        forall|i: int|
            0 <= i < user_name.len() as int / 2 ==> #[trigger] salted(user_name, pass)[i]
                == user_name[i],
        forall|i: int|
            0 <= i < pass.len() ==> #[trigger] salted(user_name, pass)[user_name.len() as int / 2
                + i] == pass[i],
        forall|i: int|
            user_name.len() as int / 2 <= i < user_name.len() ==> #[trigger] salted(
                user_name,
                pass,
            )[pass.len() + i] == user_name[i],
{
}

/// The credential hash depends on the user name and the password alone:
/// equal inputs give equal hashes.
pub proof fn lemma_credential_hash_is_a_function(
    user_name: Seq<u8>,
    pass: Seq<u8>,
    other_name: Seq<u8>,
    other_pass: Seq<u8>,
)
    requires
        user_name == other_name,
        pass == other_pass,
    ensures
        credential_hash(user_name, pass) == credential_hash(other_name, other_pass),
{
}

/// Derives the hash under which a credential is stored and looked up.
pub fn create_hash(user_name: &[u8], pass: &[u8]) -> (hash: Vec<u8>)
    ensures
        hash@ == credential_hash(user_name@, pass@),
        hash@.len() == 64,
{
    let name_len = user_name.len();
    let first_half = slice_subrange(user_name, 0, name_len / 2);
    let last_half = slice_subrange(user_name, name_len / 2, name_len);
    let mut secret: Vec<u8> = Vec::new();
    secret.extend_from_slice(first_half);
    secret.extend_from_slice(pass);
    secret.extend_from_slice(last_half);
    assert(secret@ =~= salted(user_name@, pass@));
    sha512(secret.as_slice())
}

/// The hash by which the user of a presented token is found among the
/// sessions, if the token is well-formed base64.
pub fn get_user_from_session(session_base: &str) -> (hash: Option<Vec<u8>>)
    ensures
        match hash {
            Some(h) => token_hash(session_base@) == Some(h@),
            None => token_hash(session_base@) is None,
        },
{
    session_hash(session_base)
}

/// Why a login or a registration cannot go ahead.
#[derive(Clone, Copy, Debug, PartialEq, Eq, Structural)]
pub enum LoginError {
    /// The request lacks the user name or the password.
    MissingFields,
}

/// The credential hash of the user name and password that a request holds,
/// taken over their UTF-8 bytes.
pub open spec fn login_hash(request: ClientRequest) -> Result<Seq<u8>, LoginError> {
    match both(request.user_name, request.pass) {
        Some((user_name, pass)) => Ok(
            credential_hash(encode_utf8(user_name@), encode_utf8(pass@)),
        ),
        None => Err(LoginError::MissingFields),
    }
}

/// The hash by which a login request is looked up among the credentials.
pub fn login_user(request: &ClientRequest) -> (hash: Result<Vec<u8>, LoginError>)
    ensures
        match hash {
            Ok(h) => login_hash(*request) == Ok::<Seq<u8>, LoginError>(h@),
            Err(e) => login_hash(*request) == Err::<Seq<u8>, LoginError>(e),
        },
{
    match request.get_login() {
        Some((user_name, pass)) => Ok(
            create_hash(user_name.as_str().as_bytes(), pass.as_str().as_bytes()),
        ),
        None => Err(LoginError::MissingFields),
    }
}

/// The hash under which the credential of a new user is stored; it is the
/// hash by which a later login with the same user name and password looks
/// the credential up.
pub fn register_user(new_user: &ClientRequest) -> (hash: Result<Vec<u8>, LoginError>)
    ensures
        match hash {
            Ok(h) => login_hash(*new_user) == Ok::<Seq<u8>, LoginError>(h@),
            Err(e) => login_hash(*new_user) == Err::<Seq<u8>, LoginError>(e),
        },
{
    login_user(new_user)
}

} // verus!
