//! Request envelope: credentials and the authorization header.
use vstd::prelude::*;
use vstd::utf8::*;

use crate::text::{base64_encode, base64_of, lossy_text, string_bytes, utf8_lossy};
use crate::types::Credentials;

verus! {

/// Deadline of the administrative writes (persistent-subscription create,
/// update and delete), in milliseconds.
pub const ADMIN_DEADLINE_MS: u64 = 2000;

/// The credentials a call is made with: those of its options, else the
/// executor's default ones.
pub fn effective_credentials(given: Option<Credentials>, default: Option<Credentials>) -> (r: Option<Credentials>)
    ensures
        r == if given is Some {
            given
        } else {
            default
        },
{
    match given {
        Some(c) => Some(c),
        None => default,
    }
}

/// The value of the `authorization` header for a login and a password:
/// `Basic ` and the base64 form of `login:password`.
pub open spec fn basic_auth_value(login: Seq<u8>, password: Seq<u8>) -> Seq<char> {
    "Basic "@ + base64_of(encode_utf8(lossy_text(login) + ":"@ + lossy_text(password)))
}

/// The `authorization` header value for the given credentials.
pub fn basic_auth_header(creds: &Credentials) -> (r: String)
    ensures
        r@ == basic_auth_value(creds.login@, creds.password@),
{
    let login = utf8_lossy(creds.login.as_slice());
    let password = utf8_lossy(creds.password.as_slice());
    let mut joined = login;
    joined.append(":");
    joined.append(password.as_str());
    let bytes = string_bytes(&joined);
    let encoded = base64_encode(bytes.as_slice());
    let mut header = String::from_str("Basic ");
    header.append(encoded.as_str());
    header
}

/// The `authorization` header a call carries: none without credentials.
pub fn authorization_header(creds: &Option<Credentials>) -> (r: Option<String>)
    ensures
        r is Some <==> creds is Some,
        r matches Some(h) ==> h@ == basic_auth_value(creds->Some_0.login@, creds->Some_0.password@),
{
    match creds {
        Some(c) => Some(basic_auth_header(c)),
        None => None,
    }
}

} // verus!
