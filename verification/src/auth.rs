//! Token verification: validating a bearer token's signature and header
//! against the issuer's key set and extracting its claims.
//!
//! Expiry is deliberately not enforced: a token with an elapsed expiry
//! still verifies when its signature is valid.
use crate::errors::ServiceError;
use crate::keyset::{Alg, KeySet, SigningKeyV, spec_find_key};
use crate::patterns::str_eq;
use jsonwebtoken::{decode, decode_header, Algorithm, DecodingKey, Validation};
use std::collections::BTreeMap;
use std::collections::HashSet;
use vstd::prelude::*;

verus! {

/// The claims of a successfully verified token: every claim, as its name
/// and the JSON text of its value, together with the subject the token
/// asserts. Produced only by successful verification.
#[derive(Debug)]
pub struct VerifiedClaims {
    /// The JSON text of the `sub` claim: the stable external identity of
    /// the caller.
    pub subject: String,
    /// Every claim of the token, in claim-name order, each value rendered
    /// as its JSON text.
    pub claims: Vec<(String, String)>,
}

/// The mathematical value of a [`VerifiedClaims`].
pub struct VerifiedClaimsV {
    pub subject: Seq<char>,
    pub claims: Seq<(Seq<char>, Seq<char>)>,
}

impl View for VerifiedClaims {
    type V = VerifiedClaimsV;

    open spec fn view(&self) -> VerifiedClaimsV {
        VerifiedClaimsV { subject: self.subject@, claims: self.claims.deep_view() }
    }
}

/// What parsing a token's header yields: `None` when the header is
/// malformed, otherwise the header's key id, when it names one.
pub uninterp spec fn jwt_header_kid(token: Seq<char>) -> Option<Option<Seq<char>>>;

/// What verifying a token against RSA key material yields: `None` when the
/// signature does not validate or the payload cannot be decoded, otherwise
/// the token's claims in claim-name order, each value as its JSON text.
pub uninterp spec fn rsa_verified_claims(
    token: Seq<char>,
    n: Seq<char>,
    e: Seq<char>,
    alg: Alg,
) -> Option<Seq<(Seq<char>, Seq<char>)>>;

/// Relies on jsonwebtoken::decode_header: parsing the unverified header of
/// a token is a function of the token text alone.
#[verifier::external_body]
fn decode_header_kid(token: &str) -> (r: Option<Option<String>>)
    ensures
        r.deep_view() == jwt_header_kid(token@),
{
    match decode_header(token) {
        Ok(h) => Some(h.kid),
        Err(_) => None,
    }
}

/// Relies on jsonwebtoken::decode with DecodingKey::from_rsa_components:
/// RSA signature verification and claim decoding, with the expiry and
/// audience checks disabled, is a function of the token and the key
/// material alone. The claims come back sorted by name with each value
/// rendered as its JSON text.
#[verifier::external_body]
fn decode_rsa_claims(token: &str, n: &str, e: &str, alg: Alg) -> (r: Option<
    Vec<(String, String)>,
>)
    ensures
        r.deep_view() == rsa_verified_claims(token@, n@, e@, alg),
{
    let key = DecodingKey::from_rsa_components(n, e).ok()?;
    let a = match alg {
        Alg::RS256 => Algorithm::RS256,
        Alg::RS384 => Algorithm::RS384,
        Alg::RS512 => Algorithm::RS512,
    };
    let mut v = Validation::new(a);
    v.validate_exp = false;
    v.validate_aud = false;
    v.required_spec_claims = HashSet::new();
    let data = decode::<BTreeMap<String, serde_json::Value>>(token, &key, &v).ok()?;
    Some(data.claims.into_iter().map(|(c, x)| (c, x.to_string())).collect())
}

/// The value of the first claim named `name`, if any.
pub open spec fn spec_claim_lookup(
    claims: Seq<(Seq<char>, Seq<char>)>,
    name: Seq<char>,
) -> Option<Seq<char>>
    decreases claims.len(),
{
    if claims.len() == 0 {
        None
    } else if claims[0].0 == name {
        Some(claims[0].1)
    } else {
        spec_claim_lookup(claims.drop_first(), name)
    }
}

/// Looking up a claim skips any prefix of claims with other names.
proof fn lemma_claim_lookup_skip(claims: Seq<(Seq<char>, Seq<char>)>, name: Seq<char>, i: int)
    requires
        0 <= i <= claims.len(),
        forall|k: int| 0 <= k < i ==> (#[trigger] claims[k]).0 != name,
    ensures
        spec_claim_lookup(claims, name) == spec_claim_lookup(claims.skip(i), name),
    decreases i,
{
    if i > 0 {
        assert(claims[0].0 != name);
        assert(claims.drop_first() =~= claims.skip(1));
        assert(forall|k: int| 0 <= k < i - 1 ==> (#[trigger] claims.skip(1)[k]).0 != name);
        lemma_claim_lookup_skip(claims.skip(1), name, i - 1);
        assert(claims.skip(1).skip(i - 1) =~= claims.skip(i));
    } else {
        assert(claims.skip(0) =~= claims);
    }
}

/// Looks up the first claim named `name` in a claim list.
fn claim_lookup<'a>(claims: &'a Vec<(String, String)>, name: &str) -> (r: Option<&'a String>)
    ensures
        match r {
            Some(v) => spec_claim_lookup(claims.deep_view(), name@) == Some(v@),
            None => spec_claim_lookup(claims.deep_view(), name@) is None,
        },
{
    let n = claims.len();
    let mut i: usize = 0;
    while i < n
        invariant
            i <= n == claims@.len(),
            forall|k: int| 0 <= k < i ==> (#[trigger] claims.deep_view()[k]).0 != name@,
        decreases n - i,
    {
        if str_eq(claims[i].0.as_str(), name) {
            proof {
                lemma_claim_lookup_skip(claims.deep_view(), name@, i as int);
                assert(claims.deep_view().skip(i as int)[0] == claims.deep_view()[i as int]);
            }
            return Some(&claims[i].1);
        }
        i = i + 1;
    }
    proof {
        lemma_claim_lookup_skip(claims.deep_view(), name@, n as int);
        assert(claims.deep_view().skip(n as int) =~= Seq::<(Seq<char>, Seq<char>)>::empty());
    }
    None
}

/// What verifying a token against a key set yields: the malformed-header,
/// unknown-key, invalid-signature and missing-subject failures in that
/// order, or the verified claims.
pub open spec fn spec_verify(token: Seq<char>, keys: Seq<SigningKeyV>) -> Result<
    VerifiedClaimsV,
    ServiceError,
> {
    match jwt_header_kid(token) {
        None => Err(ServiceError::MalformedToken),
        Some(None) => Err(ServiceError::MalformedToken),
        Some(Some(kid)) => match spec_find_key(keys, kid) {
            None => Err(ServiceError::UnknownSigningKey),
            Some(k) => match rsa_verified_claims(token, k.n, k.e, k.alg) {
                None => Err(ServiceError::SignatureInvalid),
                Some(cs) => match spec_claim_lookup(cs, "sub"@) {
                    None => Err(ServiceError::MissingSubject),
                    Some(subject) => Ok(VerifiedClaimsV { subject, claims: cs }),
                },
            },
        },
    }
}

/// Verifies a bearer token against the issuer's key set and extracts its
/// claims.
///
/// The token's header must parse and name a key id (else
/// `MalformedToken`); the key id must be in the key set (else
/// `UnknownSigningKey`); the signature must verify and the payload decode
/// under that key (else `SignatureInvalid`); and the claims must carry a
/// subject (else `MissingSubject`).
pub fn get_token_data(token: &str, keys: &KeySet) -> (r: Result<VerifiedClaims, ServiceError>)
    ensures
        match r {
            Ok(c) => spec_verify(token@, keys@) == Ok::<VerifiedClaimsV, ServiceError>(c@),
            Err(e) => spec_verify(token@, keys@) == Err::<VerifiedClaimsV, ServiceError>(e),
        },
{
    let kid = match decode_header_kid(token) {
        Some(Some(kid)) => kid,
        Some(None) => {
            return Err(ServiceError::MalformedToken);
        },
        None => {
            return Err(ServiceError::MalformedToken);
        },
    };
    let key = match keys.find(kid.as_str()) {
        Some(k) => k,
        None => {
            return Err(ServiceError::UnknownSigningKey);
        },
    };
    let claims = match decode_rsa_claims(token, key.n.as_str(), key.e.as_str(), key.alg) {
        Some(cs) => cs,
        None => {
            return Err(ServiceError::SignatureInvalid);
        },
    };
    let subject = match claim_lookup(&claims, "sub") {
        Some(v) => v.clone(),
        None => {
            return Err(ServiceError::MissingSubject);
        },
    };
    Ok(VerifiedClaims { subject, claims })
}

impl VerifiedClaims {
    /// The value of the first claim named `name`, as its JSON text.
    pub fn get<'a>(&'a self, name: &str) -> (r: Option<&'a String>)
        ensures
            match r {
                Some(v) => spec_claim_lookup(self@.claims, name@) == Some(v@),
                None => spec_claim_lookup(self@.claims, name@) is None,
            },
    {
        claim_lookup(&self.claims, name)
    }
}

/// A token that parses to a key id held by the key set, whose signature
/// verifies under that key, and whose claims carry a subject, verifies to
/// exactly those claims with that subject.
pub proof fn lemma_verify_accepts_valid_token(
    token: Seq<char>,
    keys: Seq<SigningKeyV>,
    kid: Seq<char>,
    key: SigningKeyV,
    cs: Seq<(Seq<char>, Seq<char>)>,
    subject: Seq<char>,
)
    requires
        jwt_header_kid(token) == Some(Some(kid)),
        spec_find_key(keys, kid) == Some(key),
        rsa_verified_claims(token, key.n, key.e, key.alg) == Some(cs),
        spec_claim_lookup(cs, "sub"@) == Some(subject),
    ensures
        spec_verify(token, keys) == Ok::<VerifiedClaimsV, ServiceError>(
            VerifiedClaimsV { subject, claims: cs },
        ),
{
}

/// A token that names a key id absent from the key set is rejected as
/// signed by an unknown key, whatever its signature or claims.
pub proof fn lemma_verify_rejects_unknown_key(
    token: Seq<char>,
    keys: Seq<SigningKeyV>,
    kid: Seq<char>,
)
    requires
        jwt_header_kid(token) == Some(Some(kid)),
        forall|i: int| 0 <= i < keys.len() ==> (#[trigger] keys[i]).kid != kid,
    ensures
        spec_verify(token, keys) == Err::<VerifiedClaimsV, ServiceError>(
            ServiceError::UnknownSigningKey,
        ),
{
    crate::keyset::lemma_find_key_skip(keys, kid, keys.len() as int);
    assert(keys.skip(keys.len() as int) =~= Seq::<SigningKeyV>::empty());
}

/// A token whose signature does not verify under the key its header names
/// is rejected as bearing an invalid signature, whatever its claims say.
pub proof fn lemma_verify_rejects_bad_signature(
    token: Seq<char>,
    keys: Seq<SigningKeyV>,
    kid: Seq<char>,
    key: SigningKeyV,
)
    requires
        jwt_header_kid(token) == Some(Some(kid)),
        spec_find_key(keys, kid) == Some(key),
        rsa_verified_claims(token, key.n, key.e, key.alg) is None,
    ensures
        spec_verify(token, keys) == Err::<VerifiedClaimsV, ServiceError>(
            ServiceError::SignatureInvalid,
        ),
{
}

} // verus!
