use vstd::prelude::*;
use vstd::string::StringExecFns;

verus! {

/// Which claim of a token failed validation, for diagnostics.
#[derive(Clone, Copy, Debug, PartialEq, Eq, Structural)]
pub enum ClaimField {
    Iss,
    Sub,
    Aud,
    Iat,
    Exp,
}

/// The verified assertions of a token. A value of this type is only ever
/// produced after the signature, algorithm, issuer, audience and expiry
/// checks have all passed.
#[derive(Clone, Debug, PartialEq, Eq)]
pub struct Claims {
    pub iss: String,
    pub sub: String,
    pub aud: String,
    pub iat: u64,
    pub exp: u64,
    pub email: Option<String>,
    pub uid: Option<String>,
}

/// Mathematical model of a claim set.
pub ghost struct ClaimsModel {
    pub iss: Seq<char>,
    pub sub: Seq<char>,
    pub aud: Seq<char>,
    pub iat: u64,
    pub exp: u64,
    pub email: Option<Seq<char>>,
    pub uid: Option<Seq<char>>,
}

pub open spec fn opt_str_view(o: Option<String>) -> Option<Seq<char>> {
    match o {
        Some(s) => Some(s@),
        None => None,
    }
}

impl View for Claims {
    type V = ClaimsModel;

    open spec fn view(&self) -> ClaimsModel {
        ClaimsModel {
            iss: self.iss@,
            sub: self.sub@,
            aud: self.aud@,
            iat: self.iat,
            exp: self.exp,
            email: opt_str_view(self.email),
            uid: opt_str_view(self.uid),
        }
    }
}

/// The claim fields as they appear in a token's payload, before any of them
/// has been checked: each may be absent (or of the wrong JSON type, which is
/// treated the same).
pub struct RawClaims {
    pub iss: Option<String>,
    pub sub: Option<String>,
    pub aud: Option<String>,
    pub iat: Option<u64>,
    pub exp: Option<u64>,
    pub email: Option<String>,
    pub uid: Option<String>,
}

/// Mathematical model of an unchecked claim set.
pub ghost struct RawClaimsModel {
    pub iss: Option<Seq<char>>,
    pub sub: Option<Seq<char>>,
    pub aud: Option<Seq<char>>,
    pub iat: Option<u64>,
    pub exp: Option<u64>,
    pub email: Option<Seq<char>>,
    pub uid: Option<Seq<char>>,
}

impl View for RawClaims {
    type V = RawClaimsModel;

    open spec fn view(&self) -> RawClaimsModel {
        RawClaimsModel {
            iss: opt_str_view(self.iss),
            sub: opt_str_view(self.sub),
            aud: opt_str_view(self.aud),
            iat: self.iat,
            exp: self.exp,
            email: opt_str_view(self.email),
            uid: opt_str_view(self.uid),
        }
    }
}

/// The expected issuer is the issuer base followed by the audience: the
/// trusted issuer publishes one issuer identity per audience (project).
pub open spec fn expected_issuer(base: Seq<char>, audience: Seq<char>) -> Seq<char> {
    base + audience
}

pub fn compute_expected_issuer(base: &str, audience: &str) -> (r: String)
    ensures
        r@ == expected_issuer(base@, audience@),
{
    let s: String = base.to_owned();
    s.concat(audience)
}

/// The first claim check that fails on `raw`, in the fixed check order:
/// presence of the required claims (issuer, subject, audience, issued-at,
/// expiry), then audience equality, issuer equality, and expiry strictly in
/// the future. `None` means every check passes.
pub open spec fn first_claim_fault(
    raw: RawClaimsModel,
    audience: Seq<char>,
    expected_iss: Seq<char>,
    now: u64,
) -> Option<ClaimField> {
    if raw.iss is None {
        Some(ClaimField::Iss)
    } else if raw.sub is None {
        Some(ClaimField::Sub)
    } else if raw.aud is None {
        Some(ClaimField::Aud)
    } else if raw.iat is None {
        Some(ClaimField::Iat)
    } else if raw.exp is None {
        Some(ClaimField::Exp)
    } else if raw.aud->0 != audience {
        Some(ClaimField::Aud)
    } else if raw.iss->0 != expected_iss {
        Some(ClaimField::Iss)
    } else if raw.exp->0 <= now {
        Some(ClaimField::Exp)
    } else {
        None
    }
}

/// The claim set assembled from a raw claim set on which every check passed.
pub open spec fn claims_of(raw: RawClaimsModel) -> ClaimsModel {
    ClaimsModel {
        iss: raw.iss->0,
        sub: raw.sub->0,
        aud: raw.aud->0,
        iat: raw.iat->0,
        exp: raw.exp->0,
        email: raw.email,
        uid: raw.uid,
    }
}

/// What a token payload's text parses to: the claim fields of a JSON object,
/// each absent when the object lacks it or holds it with another type; or
/// nothing when the text is not a JSON object.
pub uninterp spec fn claims_json_of(payload: Seq<char>) -> Option<RawClaimsModel>;

/// Relies on serde_json::from_str and serde_json::Value's accessors: parses
/// the payload as a JSON object and reads out the claim fields; the result
/// is a function of the payload text alone.
#[verifier::external_body]
pub(crate) fn parse_claims_json(payload: &str) -> (r: Option<RawClaims>)
    ensures
        match r {
            Some(c) => claims_json_of(payload@) == Some(c@),
            None => claims_json_of(payload@) is None,
        },
{
    let v: serde_json::Value = match serde_json::from_str(payload) {
        Ok(x) => x,
        Err(_) => return None,
    };
    if !v.is_object() {
        return None;
    }
    let s = |k: &str| v.get(k).and_then(|x| x.as_str()).map(str::to_string);
    let n = |k: &str| v.get(k).and_then(|x| x.as_u64());
    Some(RawClaims {
        iss: s("iss"), sub: s("sub"), aud: s("aud"),
        iat: n("iat"), exp: n("exp"),
        email: s("email"), uid: s("uid"),
    })
}

/// Validate an unchecked claim set against the expected audience and issuer
/// and the verification time: returns the claims exactly when no check
/// fails, and otherwise the first failing claim.
pub fn validate_claims(raw: RawClaims, audience: &str, expected_iss: &str, now: u64) -> (r: Result<
    Claims,
    ClaimField,
>)
    ensures
        match r {
            Ok(c) => first_claim_fault(raw@, audience@, expected_iss@, now) is None && c@
                == claims_of(raw@),
            Err(f) => first_claim_fault(raw@, audience@, expected_iss@, now) == Some(f),
        },
{
    let RawClaims { iss, sub, aud, iat, exp, email, uid } = raw;
    let iss = match iss {
        Some(s) => s,
        None => { return Err(ClaimField::Iss) },
    };
    let sub = match sub {
        Some(s) => s,
        None => { return Err(ClaimField::Sub) },
    };
    let aud = match aud {
        Some(s) => s,
        None => { return Err(ClaimField::Aud) },
    };
    let iat = match iat {
        Some(v) => v,
        None => { return Err(ClaimField::Iat) },
    };
    let exp = match exp {
        Some(v) => v,
        None => { return Err(ClaimField::Exp) },
    };
    if !(aud == audience.to_owned()) {
        return Err(ClaimField::Aud);
    }
    if !(iss == expected_iss.to_owned()) {
        return Err(ClaimField::Iss);
    }
    if exp <= now {
        return Err(ClaimField::Exp);
    }
    Ok(Claims { iss, sub, aud, iat, exp, email, uid })
}


} // verus!
