use vstd::prelude::*;

verus! {

/// The three ways a station connect attempt can be judged: let it in,
/// refuse it with 401 (wrong credentials), or refuse it with 400 (no
/// usable Authorization header).
#[derive(Clone, Copy, Debug, PartialEq, Eq, Structural)]
pub enum AuthOutcome {
    Authorized,
    WrongCredentials,
    BadRequest,
}

/// The user id and password that an HTTP Basic Authorization header
/// value carries, or nothing when the value does not parse as such a
/// header. The result is a function of the text alone.
pub uninterp spec fn basic_credentials_of(header: Seq<char>) -> Option<(Seq<char>, Seq<char>)>;

/// Relies on http_auth_basic's Credentials::from_header: the scheme
/// word and the base64 credentials are read from the text alone, and
/// the user id and password are the two parts of the decoded
/// `user:password` pair.
#[verifier::external_body]
fn parse_basic_credentials(header: &str) -> (r: Option<(String, String)>)
    ensures
        match r {
            Some(c) => basic_credentials_of(header@) == Some((c.0@, c.1@)),
            None => basic_credentials_of(header@) is None,
        },
{
    match http_auth_basic::Credentials::from_header(String::from(header)) {
        Ok(c) => Some((c.user_id, c.password)),
        Err(_) => None,
    }
}

/// HTTP Basic check on a station connect. With an empty configured
/// password the check is disabled and everything passes. Otherwise the
/// request must carry an Authorization header whose user id equals the
/// station id of the connect URL and whose password equals the
/// configured one: a mismatch is refused with 401, a missing or
/// unreadable header with 400.
pub fn ws_basic_auth(
    chargepoint_id: &str,
    authorization_key: &str,
    authorization_header: Option<&str>,
) -> (r: AuthOutcome)
    ensures
        authorization_key@.len() == 0 ==> r == AuthOutcome::Authorized,
        authorization_key@.len() > 0 ==> r == (match authorization_header {
            None => AuthOutcome::BadRequest,
            Some(h) => match basic_credentials_of(h@) {
                None => AuthOutcome::BadRequest,
                Some(c) => if c.0 == chargepoint_id@ && c.1 == authorization_key@ {
                    AuthOutcome::Authorized
                } else {
                    AuthOutcome::WrongCredentials
                },
            },
        }),
{
    if authorization_key.unicode_len() == 0 {
        return AuthOutcome::Authorized;
    }
    match authorization_header {
        None => AuthOutcome::BadRequest,
        Some(h) => match parse_basic_credentials(h) {
            None => AuthOutcome::BadRequest,
            Some(c) => {
                if crate::strutil::str_eq(c.0.as_str(), chargepoint_id) && crate::strutil::str_eq(
                    c.1.as_str(),
                    authorization_key,
                ) {
                    AuthOutcome::Authorized
                } else {
                    AuthOutcome::WrongCredentials
                }
            },
        },
    }
}

} // verus!
