use crate::config::JwtConfig;
use vstd::prelude::*;

verus! {

/// The token that jsonwebtoken signs with HS256 and `secret` over the claims
/// `{ "sub": subject, "exp": expires }`.
pub uninterp spec fn signed_token(secret: Seq<char>, subject: Seq<char>, expires: int) -> Seq<char>;

/// What jsonwebtoken reads from `token` under `secret` once the signature, the
/// header and the presence of an `exp` claim have been checked: the `sub` and
/// `exp` claims, or `None` where any of that fails.
pub uninterp spec fn token_claims(token: Seq<char>, secret: Seq<char>) -> Option<(Seq<char>, int)>;

/// How many seconds past its `exp` claim a token is still accepted.
pub const EXPIRY_LEEWAY_SECS: u64 = 60;

#[verifier::external_type_specification]
#[verifier::external_body]
pub struct ExJwtError(jsonwebtoken::errors::Error);

/// Why a token could not be issued or accepted.
#[derive(Clone, Copy, Debug, PartialEq, Eq, Structural)]
pub enum TokenError {
    /// The signature, the structure or the expiry of the token is wrong.
    Invalid,
    /// The secret could not sign; a configuration fault.
    Signing,
}

/// Mints and verifies signed identity tokens.
///
/// Every token carries the same `exp` claim: the configured expiration, read as
/// an absolute time in seconds since the Unix epoch, not as a duration added to
/// the time of issue. Once that time and the leeway have passed, no token
/// verifies any more.
///
/// A token therefore depends on the secret and the subject alone: issuing for
/// the same subject twice gives the same token. Registration refuses a token
/// that is already on file, so no two accounts come to hold one token.
pub struct Jwt {
    /// secret key
    secret: String,
    /// the `exp` claim of every token
    expiration: usize,
}

impl Jwt {
    pub closed spec fn signing_secret(&self) -> Seq<char> {
        self.secret@
    }

    pub closed spec fn expires_at(&self) -> int {
        self.expiration as int
    }

    /// The `exp` claim of every token is a time that fits the claim's type.
    pub proof fn expiry_in_range(&self)
        ensures
            0 <= self.expires_at() <= usize::MAX,
    {
    }

    /// The token issued for `subject`.
    pub open spec fn issued_token(&self, subject: Seq<char>) -> Seq<char> {
        signed_token(self.signing_secret(), subject, self.expires_at())
    }

    /// The subject that `token` proves at time `now`, if it proves one.
    pub open spec fn verified_subject(&self, token: Seq<char>, now: int) -> Option<Seq<char>> {
        match token_claims(token, self.signing_secret()) {
            Some((subject, expires)) => if now <= expires + EXPIRY_LEEWAY_SECS {
                Some(subject)
            } else {
                None
            },
            None => None,
        }
    }

    pub fn new(config: JwtConfig) -> (r: Self)
        ensures
            r.signing_secret() == config.secret@,
            r.expires_at() == config.expiration as int,
    {
        Self { secret: config.secret, expiration: config.expiration }
    }

    /// Issues the token that binds `subject`.
    pub fn generate(&self, subject: String) -> (r: Result<String, TokenError>)
        ensures
            r matches Ok(token) && token@ == self.issued_token(subject@),
    {
        match self.encode(&subject) {
            Ok(token) => Ok(token),
            Err(_) => Err(TokenError::Signing),
        }
    }

    /// Checks `token` at time `now` (seconds since the Unix epoch) and returns
    /// its subject.
    pub fn validate(&self, token: String, now: u64) -> (r: Result<String, TokenError>)
        ensures
            match self.verified_subject(token@, now as int) {
                Some(subject) => r matches Ok(s) && s@ == subject,
                None => r == Err::<String, TokenError>(TokenError::Invalid),
            },
            forall|subject: Seq<char>|
                #![trigger self.issued_token(subject)]
                token@ == self.issued_token(subject) ==> (r is Ok <==> now <= self.expires_at()
                    + EXPIRY_LEEWAY_SECS),
            forall|subject: Seq<char>|
                #![trigger self.issued_token(subject)]
                token@ == self.issued_token(subject) && now <= self.expires_at() + EXPIRY_LEEWAY_SECS
                    ==> (r matches Ok(s) && s@ == subject),
    {
        match self.decode(&token) {
            Some((subject, expires)) => {
                if now <= expires || now - expires <= EXPIRY_LEEWAY_SECS {
                    Ok(subject)
                } else {
                    Err(TokenError::Invalid)
                }
            },
            None => Err(TokenError::Invalid),
        }
    }

    /// Relies on jsonwebtoken::encode with the default HS256 header and a key
    /// made from the secret's bytes: it signs `{ "sub": subject, "exp": expiration }`.
    /// With a key of the HMAC family and an HS256 header the call cannot fail.
    #[verifier::external_body]
    fn encode(&self, subject: &String) -> (r: Result<String, jsonwebtoken::errors::Error>)
        ensures
            r is Ok,
            r matches Ok(token) ==> token@ == signed_token(self.secret@, subject@, self.expiration as int),
    {
        let mut claims = serde_json::Map::new();
        claims.insert("sub".to_string(), serde_json::Value::from(subject.as_str()));
        claims.insert("exp".to_string(), serde_json::Value::from(self.expiration as u64));
        jsonwebtoken::encode(
            &jsonwebtoken::Header::default(),
            &serde_json::Value::Object(claims),
            &jsonwebtoken::EncodingKey::from_secret(self.secret.as_bytes()),
        )
    }

    /// Relies on jsonwebtoken::decode under HS256 with a key made from the
    /// secret's bytes and the expiry left unchecked: it checks the header, the
    /// signature and that an `exp` claim is there, then hands back the `sub` and
    /// `exp` claims. A token that jsonwebtoken::encode made with the same secret
    /// gives back the claims it was made with.
    #[verifier::external_body]
    fn decode(&self, token: &String) -> (r: Option<(String, u64)>)
        ensures
            r matches Some(c) ==> token_claims(token@, self.secret@) == Some((c.0@, c.1 as int)),
            r is None ==> token_claims(token@, self.secret@) is None,
            r is None ==> forall|subject: Seq<char>, expires: int|
                0 <= expires <= u64::MAX ==> token@ != signed_token(self.secret@, subject, expires),
            r matches Some(c) ==> forall|subject: Seq<char>, expires: int|
                0 <= expires <= u64::MAX && token@ == signed_token(self.secret@, subject, expires)
                    ==> c.0@ == subject && c.1 == expires,
    {
        let mut validation = jsonwebtoken::Validation::default();
        validation.validate_exp = false;
        let key = jsonwebtoken::DecodingKey::from_secret(self.secret.as_bytes());
        match jsonwebtoken::decode::<serde_json::Value>(token, &key, &validation) {
            Ok(data) => match (data.claims["sub"].as_str(), data.claims["exp"].as_u64()) {
                (Some(subject), Some(expires)) => Some((subject.to_string(), expires)),
                _ => None,
            },
            Err(_) => None,
        }
    }
}

} // verus!
