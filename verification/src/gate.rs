//! The request authentication gate and the error-mapping layer behind it.
//!
//! The credential check runs before routing, on every inbound request: it reads the raw
//! `Authorization` header value, requires the `Bearer` scheme (ASCII
//! case-insensitive, as HTTP credential schemes are), and requires the token
//! that follows to equal the configured service credential byte for byte.
//! A request that fails any of these is rejected with a dedicated
//! authentication error before it reaches a handler; the error-mapping
//! layer turns that error into HTTP 401 with a fixed plain-text body, and
//! every other error into HTTP 500.

use vstd::prelude::*;
use vstd::string::StringExecFns;

verus! {

/// Marker for a request rejected by the authentication gate.
#[derive(Clone, Copy, Debug, PartialEq, Eq, Structural)]
pub struct AuthenticationError;

/// Every error that can reach the error-mapping layer, as a tagged variant:
/// the credential check's rejection, or any other internal failure with its description.
#[derive(Clone, Debug)]
pub enum ServiceError {
    Authentication(AuthenticationError),
    Internal(String),
}

/// The ASCII-lowercase image of a byte; bytes outside `A..=Z` are unchanged.
pub open spec fn ascii_lower(b: u8) -> u8 {
    if 65 <= b && b <= 90 {
        (b + 32) as u8
    } else {
        b
    }
}

/// Whether an `Authorization` value begins with the `Bearer` scheme: the
/// seven bytes `Bearer` + space, the scheme ASCII case-insensitive.
pub open spec fn has_bearer_scheme(h: Seq<u8>) -> bool {
    &&& h.len() >= 7
    &&& ascii_lower(h[0]) == 98
    &&& ascii_lower(h[1]) == 101
    &&& ascii_lower(h[2]) == 97
    &&& ascii_lower(h[3]) == 114
    &&& ascii_lower(h[4]) == 101
    &&& ascii_lower(h[5]) == 114
    &&& h[6] == 32
}

/// The bearer token carried by an `Authorization` value: everything after
/// the scheme, or nothing if the scheme is not `Bearer`.
pub open spec fn bearer_token(h: Seq<u8>) -> Option<Seq<u8>> {
    if has_bearer_scheme(h) {
        Some(h.subrange(7, h.len() as int))
    } else {
        None
    }
}

/// Whether a request passes the credential check: an `Authorization` value is
/// present and its bearer token equals the configured credential exactly.
pub open spec fn gate_accepts(header: Option<Seq<u8>>, key: Seq<u8>) -> bool {
    match header {
        Some(h) => bearer_token(h) == Some(key),
        None => false,
    }
}

/// What the credential check decides for a request: pass it on unchanged, or reject it
/// with the authentication error.
pub open spec fn gate_model(header: Option<Seq<u8>>, key: Seq<u8>) -> Result<
    (),
    AuthenticationError,
> {
    if gate_accepts(header, key) {
        Ok(())
    } else {
        Err(AuthenticationError)
    }
}

/// The view of an optional raw header value.
pub open spec fn header_view(header: Option<&[u8]>) -> Option<Seq<u8>> {
    match header {
        Some(h) => Some(h@),
        None => None,
    }
}

/// The ASCII-lowercase image of a byte, executably.
fn ascii_lower_byte(b: u8) -> (r: u8)
    ensures
        r == ascii_lower(b),
{
    if 65 <= b && b <= 90 {
        b + 32
    } else {
        b
    }
}

/// The authentication gate itself: admits a request exactly when its raw
/// `Authorization` value carries the `Bearer` scheme followed by the
/// configured credential, and rejects every other request with the
/// authentication error.
pub fn authenticate_request(header: Option<&[u8]>, api_key: &[u8]) -> (r: Result<
    (),
    AuthenticationError,
>)
    ensures
        r == gate_model(header_view(header), api_key@),
        r is Ok <==> gate_accepts(header_view(header), api_key@),
{
    match header {
        None => Err(AuthenticationError),
        Some(h) => {
            if h.len() < 7 {
                return Err(AuthenticationError);
            }
            let scheme_ok = ascii_lower_byte(h[0]) == 98 && ascii_lower_byte(h[1]) == 101
                && ascii_lower_byte(h[2]) == 97 && ascii_lower_byte(h[3]) == 114
                && ascii_lower_byte(h[4]) == 101 && ascii_lower_byte(h[5]) == 114 && h[6] == 32;
            if !scheme_ok {
                return Err(AuthenticationError);
            }
            if h.len() - 7 != api_key.len() {
                proof {
                    if bearer_token(h@) == Some(api_key@) {
                        assert(h@.subrange(7, h@.len() as int).len() == api_key@.len());
                    }
                }
                return Err(AuthenticationError);
            }
            let n = h.len();
            let mut i: usize = 0;
            while i < api_key.len()
                invariant
                    0 <= i <= api_key.len(),
                    n == h@.len(),
                    header == Some(h),
                    has_bearer_scheme(h@),
                    h@.len() == api_key@.len() + 7,
                    forall|j: int| 0 <= j < i ==> h@[j + 7] == api_key@[j],
                decreases api_key.len() - i,
            {
                if h[7 + i] != api_key[i] {
                    proof {
                        let s = h@.subrange(7, h@.len() as int);
                        assert(s[i as int] == h@[7 + i]);
                        assert(s[i as int] != api_key@[i as int]);
                        assert(s != api_key@);
                    }
                    return Err(AuthenticationError);
                }
                i += 1;
            }
            proof {
                assert(h@.subrange(7, h@.len() as int) =~= api_key@);
            }
            Ok(())
        },
    }
}

/// The status and body that the error-mapping layer produces for an error
/// reaching it: 401 with the fixed authentication message for a credential
/// rejection, 500 with a formatted message for anything else.
pub open spec fn handled_response(err: ServiceError) -> (u16, Seq<char>) {
    match err {
        ServiceError::Authentication(_) => (
            401u16,
            "Authentication error: invalid bearer token / API key."@,
        ),
        ServiceError::Internal(msg) => (500u16, "Error: "@ + msg@),
    }
}

impl AuthenticationError {
    /// The fixed plain-text message shown for a gate rejection.
    pub fn message(&self) -> (r: String)
        ensures
            r@ == "Authentication error: invalid bearer token / API key."@,
    {
        String::from_str("Authentication error: invalid bearer token / API key.")
    }

    /// The error-mapping layer: distinguishes the credential check's
    /// authentication error from every other error kind, mapping it to HTTP 401
    /// with the fixed message and all others to HTTP 500.
    pub fn handle(err: ServiceError) -> (r: (u16, String))
        ensures
            r.0 == handled_response(err).0,
            r.1@ == handled_response(err).1,
    {
        match err {
            ServiceError::Authentication(e) => (401, e.message()),
            ServiceError::Internal(msg) => {
                let mut body = String::from_str("Error: ");
                body.append(msg.as_str());
                (500, body)
            },
        }
    }
}

/// Law: a request that does not present the configured bearer credential is
/// rejected by the credential check, and the mapping of that rejection is
/// HTTP 401 with the fixed authentication message — before any handler
/// logic is reached, since the rejection replaces the request itself.
pub proof fn lemma_gate_rejection_is_401(header: Option<Seq<u8>>, key: Seq<u8>)
    requires
        !gate_accepts(header, key),
    ensures
        gate_model(header, key) == Err::<(), AuthenticationError>(AuthenticationError),
        handled_response(ServiceError::Authentication(AuthenticationError)).0 == 401,
        handled_response(ServiceError::Authentication(AuthenticationError)).1
            == "Authentication error: invalid bearer token / API key."@,
{
}

} // verus!
