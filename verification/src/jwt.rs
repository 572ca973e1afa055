//! The token codec: a compact three-part signed claim set (header, payload,
//! signature) under a symmetric secret.  No expiry is embedded in the token:
//! it is an opaque pointer to session state, and expiry is enforced by the
//! session record out-of-band.

use vstd::prelude::*;

use crate::auth::{AuthError, Claims, ClaimsView};

verus! {

/// What decoding a token under a secret yields: the embedded claims when the
/// signature and structure check out under that secret, nothing otherwise.
/// A deterministic function of the secret and the token alone; its value is
/// fixed by the codec below and nowhere else.
pub uninterp spec fn jwt_decode_of(secret: Seq<char>, token: Seq<char>) -> Option<ClaimsView>;

/// What encoding a claim set under a secret yields.  A deterministic function
/// of the secret and the two claim fields alone: the payload serialization,
/// the base64url encoding and the HMAC signature all depend on nothing else.
pub uninterp spec fn jwt_encode_of(secret: Seq<char>, session: Seq<char>, csrf: Seq<char>) -> Seq<
    char,
>;

/// The codec's process-wide configuration: the signing secret.
pub struct Jwt {
    secret: String,
}

impl Jwt {
    /// The signing secret, as a mathematical value.
    pub closed spec fn spec_secret(&self) -> Seq<char> {
        self.secret@
    }

    pub fn new(secret: &str) -> (r: Self)
        ensures
            r.spec_secret() == secret@,
    {
        Jwt { secret: secret.to_owned() }
    }

    /// Relies on biscuit's JWS compact encoding: an HS256-signed token whose
    /// payload carries the two claim fields, which `decode` recovers exactly
    /// under the same secret.  Encoding cannot fail: serializing a map of two
    /// strings cannot, and HMAC signing under a byte secret cannot; and it is
    /// deterministic, so the result carries the codec's name for it.
    #[verifier::external_body]
    pub fn encode(&self, claims: &Claims) -> (r: Result<String, AuthError>)
        ensures
            r is Ok,
            r matches Ok(t) ==> t@ == jwt_encode_of(
                self.spec_secret(),
                claims@.session,
                claims@.csrf,
            ) && jwt_decode_of(self.spec_secret(), t@) == Some(claims@),
    {
        let mut map = serde_json::Map::new();
        map.insert("session".to_owned(), serde_json::Value::String(claims.session()));
        map.insert("csrf".to_owned(), serde_json::Value::String(claims.csrf()));
        let payload = biscuit::ClaimsSet::<serde_json::Value> {
            registered: Default::default(),
            private: serde_json::Value::Object(map),
        };
        let header = biscuit::jws::RegisteredHeader {
            algorithm: biscuit::jwa::SignatureAlgorithm::HS256,
            ..Default::default()
        };
        let secret = biscuit::jws::Secret::bytes_from_str(&self.secret);
        let encoded = biscuit::JWT::new_decoded(From::from(header), payload).into_encoded(&secret);
        encoded.map(|t| t.unwrap_encoded().to_string()).map_err(|_| AuthError::TokenError)
    }

    /// Relies on biscuit's JWS compact decoding: verifies the HS256 signature
    /// under the secret, checks the three-part structure and the header's
    /// algorithm, and deserializes the payload; all checks are deterministic
    /// in the secret and the token.
    #[verifier::external_body]
    pub fn decode(&self, token: &str) -> (r: Result<Claims, AuthError>)
        ensures
            match r {
                Ok(c) => jwt_decode_of(self.spec_secret(), token@) == Some(c@),
                Err(e) => jwt_decode_of(self.spec_secret(), token@) is None && e
                    == AuthError::TokenError,
            },
    {
        let encoded = biscuit::JWT::<serde_json::Value, biscuit::Empty>::new_encoded(token);
        let secret = biscuit::jws::Secret::bytes_from_str(&self.secret);
        let decoded = match encoded.into_decoded(&secret, biscuit::jwa::SignatureAlgorithm::HS256)
        {
            Ok(d) => d,
            Err(_) => return Err(AuthError::TokenError),
        };
        let private = match decoded.payload() {
            Ok(p) => &p.private,
            Err(_) => return Err(AuthError::TokenError),
        };
        match (private.get("session").and_then(|v| v.as_str()), private.get("csrf").and_then(|v| v.as_str())) {
            (Some(s), Some(c)) => Ok(Claims::new(s.to_owned(), c.to_owned())),
            _ => Err(AuthError::TokenError),
        }
    }
}

/// Round trip: decoding an encoded claim set under the same secret yields
/// the claims unchanged, for any claims value.  Both failure arms below are
/// proved unreachable: encoding always answers, and decoding the token it
/// answered with cannot fail.
pub fn codec_round_trip(jwt: &Jwt, claims: &Claims) -> (r: Result<Claims, AuthError>)
    ensures
        r matches Ok(c) && c@ == claims@,
{
    let token = match jwt.encode(claims) {
        Ok(t) => t,
        Err(e) => {
            proof {
                assert(false);
            }
            return Err(e);
        },
    };
    match jwt.decode(token.as_str()) {
        Ok(c) => Ok(c),
        Err(e) => {
            proof {
                // decode promises failure only where no claims are embedded,
                // yet encode promised this token embeds `claims`.
                assert(false);
            }
            Err(e)
        },
    }
}

} // verus!
