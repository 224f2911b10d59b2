use vstd::prelude::*;

use jsonwebtoken::errors::ErrorKind;
use jsonwebtoken::{decode, decode_header, Algorithm, DecodingKey, Validation};

use crate::claims::{
    claims_json_of, claims_of, compute_expected_issuer, expected_issuer, first_claim_fault,
    parse_claims_json, validate_claims, ClaimField, Claims, ClaimsModel,
};
use crate::keys::{cache_lookup, lookup_spec, KeyCache, SigningKeySet};

verus! {

/// Why a token was rejected. Fetch trouble (the issuer's key endpoint could
/// not be reached or understood) is kept apart from the token's own faults,
/// so that a caller can tell a retry-safe infrastructure failure from a hard
/// rejection.
#[derive(Clone, Copy, Debug, PartialEq, Eq, Structural)]
pub enum VerifyError {
    /// The key-distribution endpoint could not be fetched or its response
    /// was not a string-to-string mapping. Not a property of the token.
    KeyFetch,
    /// The token does not have the expected structural shape.
    MalformedToken,
    /// The token's envelope carries no key identifier.
    MissingKeyId,
    /// The token's key identifier matches no known key, even after a
    /// refresh.
    UnknownKey,
    /// The token declares a signature algorithm other than the pinned one.
    AlgorithmMismatch,
    /// The cryptographic signature does not verify under the resolved key.
    SignatureInvalid,
    /// A correctly signed token whose claims do not match expectations; says
    /// which claim failed.
    ClaimValidation(ClaimField),
}

/// The fields read from a token's envelope before any check: whether the
/// declared algorithm is the pinned one (RSA with a 256-bit hash), and the
/// declared key identifier, if any.
pub struct TokenHeader {
    pub rs256: bool,
    pub kid: Option<String>,
}

/// Mathematical model of a token envelope.
pub ghost struct HeaderModel {
    pub rs256: bool,
    pub kid: Option<Seq<char>>,
}

impl View for TokenHeader {
    type V = HeaderModel;

    open spec fn view(&self) -> HeaderModel {
        HeaderModel { rs256: self.rs256, kid: crate::claims::opt_str_view(self.kid) }
    }
}

/// What a token's envelope declares: its header decoded without any
/// signature check, or nothing when the token is not well-formed.
pub uninterp spec fn jwt_header_of(token: Seq<char>) -> Option<HeaderModel>;

/// Relies on jsonwebtoken::decode_header: decodes the token envelope's
/// header without checking the signature; the result is a function of the
/// token text alone.
#[verifier::external_body]
fn decode_token_header(token: &str) -> (r: Option<TokenHeader>)
    ensures
        match r {
            Some(h) => jwt_header_of(token@) == Some(h@),
            None => jwt_header_of(token@) is None,
        },
{
    match decode_header(token) {
        Ok(h) => Some(TokenHeader { rs256: matches!(h.alg, Algorithm::RS256), kid: h.kid }),
        Err(_) => None,
    }
}

/// The outcome of the cryptographic step on one token and one key: the
/// decoded payload text when the signature verifies, or why it did not.
pub enum DecodeOutcome {
    /// The signature verifies; the payload's text, with object keys in a
    /// fixed order.
    Decoded(String),
    /// The signature does not verify under the key.
    BadSignature,
    /// The token declares an algorithm other than the pinned one.
    WrongAlg,
    /// The key material is not a usable RSA public key.
    BadKey,
    /// The token is not well-formed.
    Malformed,
}

/// Mathematical model of the cryptographic step's outcome.
pub ghost enum DecodeModel {
    Decoded(Seq<char>),
    BadSignature,
    WrongAlg,
    BadKey,
    Malformed,
}

impl View for DecodeOutcome {
    type V = DecodeModel;

    open spec fn view(&self) -> DecodeModel {
        match self {
            DecodeOutcome::Decoded(p) => DecodeModel::Decoded(p@),
            DecodeOutcome::BadSignature => DecodeModel::BadSignature,
            DecodeOutcome::WrongAlg => DecodeModel::WrongAlg,
            DecodeOutcome::BadKey => DecodeModel::BadKey,
            DecodeOutcome::Malformed => DecodeModel::Malformed,
        }
    }
}

/// What the cryptographic step yields on a token and a PEM-encoded key; a
/// function of the two texts alone.
pub uninterp spec fn rs256_decode_of(token: Seq<char>, pem: Seq<char>) -> DecodeModel;

/// Relies on jsonwebtoken::decode: checks, with the pinned RSA-SHA-256
/// algorithm, that the token's signature verifies under the given public
/// key, and hands back the decoded payload. Claim checks are switched off
/// there; this library does them itself. DecodingKey::from_rsa_pem converts
/// the key argument and serde_json::Value's to_string converts the payload
/// (object keys kept in a fixed order), so the outcome is a function of the
/// token and key texts alone.
#[verifier::external_body]
fn decode_rs256(token: &str, pem: &str) -> (r: DecodeOutcome)
    ensures
        r@ == rs256_decode_of(token@, pem@),
{
    let key = match DecodingKey::from_rsa_pem(pem.as_bytes()) { Ok(k) => k, Err(_) => return DecodeOutcome::BadKey };
    let mut v = Validation::new(Algorithm::RS256);
    v.validate_exp = false;
    v.validate_aud = false;
    v.required_spec_claims = std::collections::HashSet::new();
    match decode::<serde_json::Value>(token, &key, &v) {
        Ok(data) => DecodeOutcome::Decoded(data.claims.to_string()),
        Err(e) => match e.kind() {
            ErrorKind::InvalidSignature => DecodeOutcome::BadSignature,
            ErrorKind::InvalidAlgorithm => DecodeOutcome::WrongAlg,
            _ => DecodeOutcome::Malformed,
        },
    }
}

/// The whole verification pipeline on one token against one key-set
/// snapshot, as a function of the inputs: decode the envelope, find the key
/// identifier, resolve the key, hold the algorithm to the pinned one, check
/// the signature, and validate the claims; the first failing step decides
/// the error.
pub open spec fn verify_spec(
    token: Seq<char>,
    keys: Seq<(Seq<char>, Seq<char>)>,
    audience: Seq<char>,
    issuer_base: Seq<char>,
    now: u64,
) -> Result<ClaimsModel, VerifyError> {
    match jwt_header_of(token) {
        None => Err(VerifyError::MalformedToken),
        Some(h) => match h.kid {
            None => Err(VerifyError::MissingKeyId),
            Some(kid) => match lookup_spec(keys, kid) {
                None => Err(VerifyError::UnknownKey),
                Some(pem) => if !h.rs256 {
                    Err(VerifyError::AlgorithmMismatch)
                } else {
                    match rs256_decode_of(token, pem) {
                        DecodeModel::Decoded(payload) => match claims_json_of(payload) {
                            None => Err(VerifyError::MalformedToken),
                            Some(raw) => match first_claim_fault(
                                raw,
                                audience,
                                expected_issuer(issuer_base, audience),
                                now,
                            ) {
                                Some(f) => Err(VerifyError::ClaimValidation(f)),
                                None => Ok(claims_of(raw)),
                            },
                        },
                        DecodeModel::BadSignature => Err(VerifyError::SignatureInvalid),
                        DecodeModel::WrongAlg => Err(VerifyError::AlgorithmMismatch),
                        DecodeModel::BadKey => Err(VerifyError::SignatureInvalid),
                        DecodeModel::Malformed => Err(VerifyError::MalformedToken),
                    }
                },
            },
        },
    }
}

/// Verify one token against a key-set snapshot, the expected audience, the
/// issuer base and the verification time. Claims come back exactly when
/// every step of the pipeline passes, and the error names the first step
/// that failed. The snapshot is taken by shared reference: verification
/// never changes it.
pub fn verify_with_keys(
    token: &str,
    keys: &SigningKeySet,
    audience: &str,
    issuer_base: &str,
    now: u64,
) -> (r: Result<Claims, VerifyError>)
    ensures
        match r {
            Ok(c) => verify_spec(token@, keys@, audience@, issuer_base@, now) == Ok::<
                ClaimsModel,
                VerifyError,
            >(c@),
            Err(e) => verify_spec(token@, keys@, audience@, issuer_base@, now) == Err::<
                ClaimsModel,
                VerifyError,
            >(e),
        },
{
    let header = match decode_token_header(token) {
        Some(h) => h,
        None => { return Err(VerifyError::MalformedToken) },
    };
    let TokenHeader { rs256, kid } = header;
    let kid = match kid {
        Some(k) => k,
        None => { return Err(VerifyError::MissingKeyId) },
    };
    let pem = match keys.lookup(kid.as_str()) {
        Some(p) => p,
        None => { return Err(VerifyError::UnknownKey) },
    };
    if !rs256 {
        return Err(VerifyError::AlgorithmMismatch);
    }
    let payload = match decode_rs256(token, pem.as_str()) {
        DecodeOutcome::Decoded(p) => p,
        DecodeOutcome::BadSignature => { return Err(VerifyError::SignatureInvalid) },
        DecodeOutcome::WrongAlg => { return Err(VerifyError::AlgorithmMismatch) },
        DecodeOutcome::BadKey => { return Err(VerifyError::SignatureInvalid) },
        DecodeOutcome::Malformed => { return Err(VerifyError::MalformedToken) },
    };
    let raw = match parse_claims_json(payload.as_str()) {
        Some(c) => c,
        None => { return Err(VerifyError::MalformedToken) },
    };
    let expected_iss = compute_expected_issuer(issuer_base, audience);
    match validate_claims(raw, audience, expected_iss.as_str(), now) {
        Ok(c) => Ok(c),
        Err(f) => Err(VerifyError::ClaimValidation(f)),
    }
}

/// A verification attempt against the cached key set: either it completed,
/// or the caller must fetch a fresh key set first and then verify against
/// that snapshot — at most one such fetch per attempt.
pub enum VerifyAttempt {
    Done(Result<Claims, VerifyError>),
    NeedsKeys,
}

/// Mathematical model of a verification attempt.
pub ghost enum AttemptModel {
    Done(Result<ClaimsModel, VerifyError>),
    NeedsKeys,
}

impl View for VerifyAttempt {
    type V = AttemptModel;

    open spec fn view(&self) -> AttemptModel {
        match self {
            VerifyAttempt::Done(Ok(c)) => AttemptModel::Done(Ok(c@)),
            VerifyAttempt::Done(Err(e)) => AttemptModel::Done(Err(*e)),
            VerifyAttempt::NeedsKeys => AttemptModel::NeedsKeys,
        }
    }
}

/// What an attempt against a cache yields: a fetch is requested exactly when
/// the token is well-formed, declares a key identifier, and the cache cannot
/// resolve it; everything else completes against the cached snapshot.
pub open spec fn attempt_spec(
    token: Seq<char>,
    cache: Option<Seq<(Seq<char>, Seq<char>)>>,
    audience: Seq<char>,
    issuer_base: Seq<char>,
    now: u64,
) -> AttemptModel {
    match jwt_header_of(token) {
        None => AttemptModel::Done(Err(VerifyError::MalformedToken)),
        Some(h) => match h.kid {
            None => AttemptModel::Done(Err(VerifyError::MissingKeyId)),
            Some(kid) => match cache {
                None => AttemptModel::NeedsKeys,
                Some(keys) => if lookup_spec(keys, kid) is None {
                    AttemptModel::NeedsKeys
                } else {
                    AttemptModel::Done(verify_spec(token, keys, audience, issuer_base, now))
                },
            },
        },
    }
}

/// Verify one token against the cached key set, without fetching: when the
/// cache cannot resolve the token's key identifier the caller is asked to
/// fetch once and verify against the fresh snapshot (where an identifier
/// that is still unknown then fails for good). The cache is taken by shared
/// reference: an attempt never changes it.
pub fn verify_with_cache(
    token: &str,
    cache: &KeyCache,
    audience: &str,
    issuer_base: &str,
    now: u64,
) -> (r: VerifyAttempt)
    ensures
        r@ == attempt_spec(token@, cache@, audience@, issuer_base@, now),
{
    let header = match decode_token_header(token) {
        Some(h) => h,
        None => { return VerifyAttempt::Done(Err(VerifyError::MalformedToken)) },
    };
    let kid = match header.kid {
        Some(k) => k,
        None => { return VerifyAttempt::Done(Err(VerifyError::MissingKeyId)) },
    };
    let snapshot = match cache.snapshot() {
        Some(s) => s,
        None => { return VerifyAttempt::NeedsKeys },
    };
    if !snapshot.contains(kid.as_str()) {
        return VerifyAttempt::NeedsKeys;
    }
    VerifyAttempt::Done(verify_with_keys(token, snapshot, audience, issuer_base, now))
}

/// A verification that succeeds did so with the key that the key set holds
/// for the token's declared key identifier, under the pinned algorithm, with
/// the signature verifying under exactly that key; and a token whose key
/// identifier matches no key in the set is rejected as an unknown key —
/// it never succeeds.
pub proof fn lemma_success_requires_known_key(
    token: Seq<char>,
    keys: Seq<(Seq<char>, Seq<char>)>,
    audience: Seq<char>,
    issuer_base: Seq<char>,
    now: u64,
)
    ensures
        verify_spec(token, keys, audience, issuer_base, now) is Ok ==> {
            &&& jwt_header_of(token) is Some
            &&& jwt_header_of(token)->0.kid is Some
            &&& jwt_header_of(token)->0.rs256
            &&& lookup_spec(keys, jwt_header_of(token)->0.kid->0) is Some
            &&& rs256_decode_of(
                token,
                lookup_spec(keys, jwt_header_of(token)->0.kid->0)->0,
            ) is Decoded
        },
        (jwt_header_of(token) matches Some(h) && h.kid matches Some(kid) && lookup_spec(keys, kid)
            is None) ==> verify_spec(token, keys, audience, issuer_base, now) == Err::<
            ClaimsModel,
            VerifyError,
        >(VerifyError::UnknownKey),
{
}

/// Claims are never handed out unless every check passed: a verification
/// that succeeds returned claims whose audience equals the expected audience,
/// whose issuer equals the issuer base followed by the audience, and whose
/// expiry lies strictly after the verification time. In particular a token
/// whose expiry is not in the future never verifies.
pub proof fn lemma_success_pins_claims(
    token: Seq<char>,
    keys: Seq<(Seq<char>, Seq<char>)>,
    audience: Seq<char>,
    issuer_base: Seq<char>,
    now: u64,
)
    ensures
        verify_spec(token, keys, audience, issuer_base, now) matches Ok(c) ==> {
            &&& c.aud == audience
            &&& c.iss == expected_issuer(issuer_base, audience)
            &&& c.exp > now
        },
{
}

/// A token whose payload carries no expiry, or an expiry not strictly in the
/// future, is never accepted: once the pipeline reaches claim validation it
/// fails as a claim fault, whatever the other claims hold.
pub proof fn lemma_expired_token_rejected(
    token: Seq<char>,
    keys: Seq<(Seq<char>, Seq<char>)>,
    audience: Seq<char>,
    issuer_base: Seq<char>,
    now: u64,
)
    requires
        jwt_header_of(token) matches Some(h),
        jwt_header_of(token)->0.kid is Some,
        lookup_spec(keys, jwt_header_of(token)->0.kid->0) matches Some(pem) && rs256_decode_of(
            token,
            pem,
        ) matches DecodeModel::Decoded(payload) && claims_json_of(payload) matches Some(raw) && (
        raw.exp is None || raw.exp->0 <= now),
    ensures
        verify_spec(token, keys, audience, issuer_base, now) matches Err(e) && (
        e matches VerifyError::ClaimValidation(_) || e == VerifyError::AlgorithmMismatch),
        jwt_header_of(token)->0.rs256 ==> (verify_spec(token, keys, audience, issuer_base, now)
            matches Err(e) && e matches VerifyError::ClaimValidation(_)),
{
}

/// A token that declares an algorithm other than the pinned one is rejected
/// as an algorithm mismatch, even when the key set holds a key for its
/// declared key identifier.
pub proof fn lemma_algorithm_pinned(
    token: Seq<char>,
    keys: Seq<(Seq<char>, Seq<char>)>,
    audience: Seq<char>,
    issuer_base: Seq<char>,
    now: u64,
)
    requires
        jwt_header_of(token) matches Some(h),
        jwt_header_of(token)->0.kid is Some,
        lookup_spec(keys, jwt_header_of(token)->0.kid->0) is Some,
        !jwt_header_of(token)->0.rs256,
    ensures
        verify_spec(token, keys, audience, issuer_base, now) == Err::<ClaimsModel, VerifyError>(
            VerifyError::AlgorithmMismatch,
        ),
{
}

/// Verification is a function of the token, the key set, the configuration
/// and the time alone: two verifications of the same token against the same
/// snapshot yield the same claims (or the same error) both times.
pub proof fn lemma_verification_idempotent(
    first: Result<ClaimsModel, VerifyError>,
    second: Result<ClaimsModel, VerifyError>,
    token: Seq<char>,
    keys: Seq<(Seq<char>, Seq<char>)>,
    audience: Seq<char>,
    issuer_base: Seq<char>,
    now: u64,
)
    requires
        first == verify_spec(token, keys, audience, issuer_base, now),
        second == verify_spec(token, keys, audience, issuer_base, now),
    ensures
        first == second,
{
}

/// An attempt against a cache asks for a key fetch exactly when the token is
/// well-formed, declares a key identifier, and the cache cannot resolve it;
/// with a cached snapshot that holds the identifier, verification completes
/// with no fetch at all.
pub proof fn lemma_fetch_only_on_cache_miss(
    token: Seq<char>,
    cache: Option<Seq<(Seq<char>, Seq<char>)>>,
    audience: Seq<char>,
    issuer_base: Seq<char>,
    now: u64,
)
    ensures
        attempt_spec(token, cache, audience, issuer_base, now) == AttemptModel::NeedsKeys <==> (
        jwt_header_of(token) matches Some(h) && h.kid matches Some(kid) && cache_lookup(cache, kid)
            is None),
{
}

} // verus!
