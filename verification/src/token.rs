//! What the server reads of the JWT that a device presents.
use vstd::prelude::*;

verus! {

/// The claims of a JWT that the server uses.
pub struct TokenClaims {
    /// The token itself.
    pub jwt: String,
    /// The id of the account that the token was issued to.
    pub account_id: String,
    /// The id of the device of that account, where it is one.
    pub device_id: Option<String>,
    /// When the token was issued, in seconds since the epoch.
    pub iat: u64,
    /// When the token expires, in seconds since the epoch.
    pub exp: u64,
}

pub struct TokenClaimsView {
    pub jwt: Seq<char>,
    pub account_id: Seq<char>,
    pub device_id: Option<Seq<char>>,
    pub iat: u64,
    pub exp: u64,
}

impl View for TokenClaims {
    type V = TokenClaimsView;

    open spec fn view(&self) -> TokenClaimsView {
        TokenClaimsView {
            jwt: self.jwt@,
            account_id: self.account_id@,
            device_id: match self.device_id {
                Some(d) => Some(d@),
                None => None,
            },
            iat: self.iat,
            exp: self.exp,
        }
    }
}

/// The number of `.` in a text.
pub open spec fn dot_count(s: Seq<char>) -> nat
    decreases s.len(),
{
    if s.len() == 0 {
        0
    } else {
        dot_count(s.drop_last()) + if s.last() == '.' {
            1nat
        } else {
            0nat
        }
    }
}

/// What `nullnet_libtoken` decodes from a JWT: its claims, or `None` where
/// the payload is not base64url JSON of the expected shape.
pub uninterp spec fn jwt_claims(jwt: Seq<char>) -> Option<TokenClaimsView>;

/// `nullnet_libtoken::Token::from_jwt`, keeping the fields that the server
/// reads. Claimed: the result is `jwt_claims` of the text; a text that does
/// not split at `.` into exactly three parts is refused; a decoded token
/// carries the text it was decoded from.
#[verifier::external_body]
fn decode_jwt(jwt: &str) -> (r: Option<TokenClaims>)
    ensures
        match r {
            Some(t) => jwt_claims(jwt@) == Some(t@),
            None => jwt_claims(jwt@) is None,
        },
        dot_count(jwt@) != 2 ==> r is None,
        r matches Some(t) ==> t.jwt@ == jwt@,
{
    let t = nullnet_libtoken::Token::from_jwt(jwt).ok()?;
    Some(TokenClaims {
        jwt: t.jwt,
        account_id: t.account.id,
        device_id: t.account.device.map(|d| d.id),
        iat: t.iat,
        exp: t.exp,
    })
}

/// Why a request of a device was refused.
#[derive(Debug, Clone, Copy, PartialEq, Eq, Structural)]
pub enum ControlError {
    /// The token could not be decoded.
    MalformedToken,
    /// The datastore knows no such device (asked for its settings).
    DeviceNotFound,
    /// The datastore knows no such device (asked to store its data).
    DeviceDoesNotExist,
    /// The device is known but not authorized.
    DeviceNotAuthorized,
}

/// The message that a refusal is answered with.
pub open spec fn control_error_text(e: ControlError) -> Seq<char> {
    match e {
        ControlError::MalformedToken => "Malformed JWT token"@,
        ControlError::DeviceNotFound => "Device not found"@,
        ControlError::DeviceDoesNotExist => "Device does not exists"@,
        ControlError::DeviceNotAuthorized => "Device is not authrozied"@,
    }
}

impl ControlError {
    /// The message of the refusal.
    pub fn message(&self) -> (r: &'static str)
        ensures
            r@ == control_error_text(*self),
    {
        match self {
            ControlError::MalformedToken => "Malformed JWT token",
            ControlError::DeviceNotFound => "Device not found",
            ControlError::DeviceDoesNotExist => "Device does not exists",
            ControlError::DeviceNotAuthorized => "Device is not authrozied",
        }
    }
}

/// Decodes the token of a request; a token that cannot be decoded refuses
/// the request.
pub fn read_token(jwt: &str) -> (r: Result<TokenClaims, ControlError>)
    ensures
        match r {
            Ok(t) => jwt_claims(jwt@) == Some(t@) && t.jwt@ == jwt@,
            Err(e) => jwt_claims(jwt@) is None && e == ControlError::MalformedToken,
        },
        dot_count(jwt@) != 2 ==> r == Err::<TokenClaims, ControlError>(ControlError::MalformedToken),
{
    match decode_jwt(jwt) {
        Some(t) => Ok(t),
        None => Err(ControlError::MalformedToken),
    }
}

/// The device that a heartbeat stream speaks for: the device of the
/// token's account, where the account is a device.
pub fn stream_device_id(claims: &TokenClaims) -> (r: Option<String>)
    ensures
        r.deep_view() == claims@.device_id,
{
    match &claims.device_id {
        Some(d) => Some(d.clone()),
        None => None,
    }
}

} // verus!
