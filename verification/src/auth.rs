use vstd::prelude::*;
use crate::error::ApiError;

verus! {

/// The claims of a verified bearer token; `sub` is the caller's user identifier.
#[derive(Clone, Debug, PartialEq, Eq)]
pub struct JWTClaims {
    pub sub: u128,
    pub aud: String,
    pub preferred_username: String,
}

#[verifier::external_type_specification]
#[verifier::external_body]
pub struct ExDecodingKey(jsonwebtoken::DecodingKey);

#[verifier::external_type_specification]
#[verifier::external_body]
pub struct ExJwtError(jsonwebtoken::errors::Error);

/// A symbol of the URL-safe base64 alphabet: `A`-`Z`, `a`-`z`, `0`-`9`, `-`, `_`.
pub open spec fn is_url_safe_symbol(c: char) -> bool {
    ||| (65 <= c as int <= 90)
    ||| (97 <= c as int <= 122)
    ||| (48 <= c as int <= 57)
    ||| c == '-'
    ||| c == '_'
}

/// The six-bit value of a URL-safe base64 symbol.
pub open spec fn url_safe_value(c: char) -> int {
    if 65 <= c as int <= 90 {
        c as int - 65
    } else if 97 <= c as int <= 122 {
        c as int - 97 + 26
    } else if 48 <= c as int <= 57 {
        c as int - 48 + 52
    } else if c == '-' {
        62
    } else {
        63
    }
}

/// `s` is canonical unpadded URL-safe base64: every symbol is in the alphabet,
/// the length leaves no lone symbol, and the bits of the last symbol that no
/// byte uses are zero.
pub open spec fn is_unpadded_url_safe_base64(s: Seq<char>) -> bool {
    &&& forall|i: int| 0 <= i < s.len() ==> is_url_safe_symbol(#[trigger] s[i])
    &&& s.len() % 4 != 1
    &&& (s.len() % 4 == 2 ==> url_safe_value(s.last()) % 16 == 0)
    &&& (s.len() % 4 == 3 ==> url_safe_value(s.last()) % 4 == 0)
}

/// Both components of an RSA key decode as canonical unpadded URL-safe base64.
pub open spec fn rsa_components_accepted(modulus: Seq<char>, exponent: Seq<char>) -> bool {
    is_unpadded_url_safe_base64(modulus) && is_unpadded_url_safe_base64(exponent)
}

/// The key that `jsonwebtoken::DecodingKey::from_rsa_components` builds from
/// this modulus and exponent when it accepts them; it depends on them alone.
pub uninterp spec fn rsa_decoding_key(modulus: Seq<char>, exponent: Seq<char>) -> jsonwebtoken::DecodingKey;

/// Calls `jsonwebtoken::DecodingKey::from_rsa_components`. Trusted: it decodes
/// both strings with base64's `URL_SAFE_NO_PAD` engine (no padding, trailing
/// bits refused) and succeeds exactly when both decode, that is when both are
/// canonical unpadded URL-safe base64; the key it builds is the one named
/// `rsa_decoding_key` for the same two strings.
#[verifier::external_body]
fn decoding_key_from_rsa_components(modulus: &str, exponent: &str) -> (r: Result<
    jsonwebtoken::DecodingKey,
    jsonwebtoken::errors::Error,
>)
    ensures
        r is Ok <==> rsa_components_accepted(modulus@, exponent@),
        r matches Ok(k) ==> k == rsa_decoding_key(modulus@, exponent@),
{
    jsonwebtoken::DecodingKey::from_rsa_components(modulus, exponent)
}

/// The modulus of the realm's RSA signing key, unpadded URL-safe base64.
pub open spec fn realm_key_modulus() -> Seq<char> {
    "yAcBu_w5fZCauZv3jkSbek7Z4pX-h7rmhWdxVfHt6azWjz74UmkKzHIhwvPW2DyNUjZ56oRJAIJ9YDKoW37mhn-K8b8-gjrtgh96Fobg3Ga4emxwfiTYsPkR9XXiKZPo-zGdnEJ9he_pfDC-bLwsK0J4sAJUsq9lDO33oiL_u3elQOis5uP4BQL46ne4SceV6zQSMpxnISwK0ayv0Ckn7_4BuB_MMCBlfFTUAnOAS4buQ3o4sjPztCnwBB6A1H-2fTD0R4NbyFO9VCiEyU5JrhVwp5BF3Ska5HS3htm1uRED7oE-utHSu_bL-pGf_LynBl3V8WBOZgOMrcu4cZwaLQ"@
}

/// The public exponent of the realm's RSA signing key.
pub open spec fn realm_key_exponent() -> Seq<char> {
    "AQAB"@
}

/// The realm's modulus and exponent are canonical unpadded URL-safe base64.
pub proof fn realm_key_is_valid_base64()
    ensures
        is_unpadded_url_safe_base64(realm_key_modulus()),
        is_unpadded_url_safe_base64(realm_key_exponent()),
{
    reveal_strlit("yAcBu_w5fZCauZv3jkSbek7Z4pX-h7rmhWdxVfHt6azWjz74UmkKzHIhwvPW2DyNUjZ56oRJAIJ9YDKoW37mhn-K8b8-gjrtgh96Fobg3Ga4emxwfiTYsPkR9XXiKZPo-zGdnEJ9he_pfDC-bLwsK0J4sAJUsq9lDO33oiL_u3elQOis5uP4BQL46ne4SceV6zQSMpxnISwK0ayv0Ckn7_4BuB_MMCBlfFTUAnOAS4buQ3o4sjPztCnwBB6A1H-2fTD0R4NbyFO9VCiEyU5JrhVwp5BF3Ska5HS3htm1uRED7oE-utHSu_bL-pGf_LynBl3V8WBOZgOMrcu4cZwaLQ");
    reveal_strlit("AQAB");
    assert(realm_key_modulus().len() == 342);
    assert(realm_key_modulus().last() == 'Q');
    assert(realm_key_exponent().len() == 4);
}

/// The key that checks the signatures of bearer tokens, built from the realm's
/// RSA modulus and exponent; both are valid, so it is always built.
pub fn public_key() -> (r: Result<jsonwebtoken::DecodingKey, jsonwebtoken::errors::Error>)
    ensures
        r == Ok::<jsonwebtoken::DecodingKey, jsonwebtoken::errors::Error>(
            rsa_decoding_key(realm_key_modulus(), realm_key_exponent()),
        ),
{
    proof {
        realm_key_is_valid_base64();
    }
    decoding_key_from_rsa_components(
        "yAcBu_w5fZCauZv3jkSbek7Z4pX-h7rmhWdxVfHt6azWjz74UmkKzHIhwvPW2DyNUjZ56oRJAIJ9YDKoW37mhn-K8b8-gjrtgh96Fobg3Ga4emxwfiTYsPkR9XXiKZPo-zGdnEJ9he_pfDC-bLwsK0J4sAJUsq9lDO33oiL_u3elQOis5uP4BQL46ne4SceV6zQSMpxnISwK0ayv0Ckn7_4BuB_MMCBlfFTUAnOAS4buQ3o4sjPztCnwBB6A1H-2fTD0R4NbyFO9VCiEyU5JrhVwp5BF3Ska5HS3htm1uRED7oE-utHSu_bL-pGf_LynBl3V8WBOZgOMrcu4cZwaLQ",
        "AQAB",
    )
}

/// Turns the outcome of building the decoding key into the key or a 500 refusal.
pub fn decode_key_or_rejection(built: Result<jsonwebtoken::DecodingKey, jsonwebtoken::errors::Error>) -> (r: Result<jsonwebtoken::DecodingKey, ApiError>)
    ensures
        built is Ok <==> r is Ok,
        r matches Ok(k) ==> built == Ok::<jsonwebtoken::DecodingKey, jsonwebtoken::errors::Error>(k),
        built is Err ==> r == Err::<jsonwebtoken::DecodingKey, ApiError>(ApiError::InvalidDecodeKey),
{
    match built {
        Ok(k) => Ok(k),
        Err(_) => Err(ApiError::InvalidDecodeKey),
    }
}

/// The decoding key; since the realm key is valid base64, a request never meets
/// the 500 refusal that `decode_key_or_rejection` gives for a key that fails.
pub fn load_decode_key() -> (r: Result<jsonwebtoken::DecodingKey, ApiError>)
    ensures
        r == Ok::<jsonwebtoken::DecodingKey, ApiError>(
            rsa_decoding_key(realm_key_modulus(), realm_key_exponent()),
        ),
{
    decode_key_or_rejection(public_key())
}

/// The signature algorithms that bearer tokens may use.
#[derive(Clone, Copy, Debug, PartialEq, Eq, Structural)]
pub enum TokenAlgorithm {
    /// RSASSA-PKCS1-v1_5 with SHA-256, the algorithm of the realm's key.
    RS256,
}

/// The algorithm that bearer tokens must be signed with: RS256.
pub fn token_algorithm() -> (r: TokenAlgorithm)
    ensures
        r == TokenAlgorithm::RS256,
{
    TokenAlgorithm::RS256
}

/// The audiences that a bearer token must name: the single audience "account".
pub fn token_audiences() -> (r: Vec<String>)
    ensures
        r@.len() == 1,
        r@[0]@ == "account"@,
{
    let mut r: Vec<String> = Vec::new();
    r.push(String::from_str("account"));
    r
}

/// The claims of a token that passed the checks, or the 401 refusal when it did not.
pub fn claims_or_rejection(verified: Option<JWTClaims>) -> (r: Result<JWTClaims, ApiError>)
    ensures
        r == match verified {
            Some(c) => Ok(c),
            None => Err(ApiError::TokenRejected),
        },
{
    match verified {
        Some(c) => Ok(c),
        None => Err(ApiError::TokenRejected),
    }
}

/// Authentication for endpoints where it is optional: any refusal means "no caller".
pub fn optional_claims(outcome: Result<JWTClaims, ApiError>) -> (r: Option<JWTClaims>)
    ensures
        r == match outcome {
            Ok(c) => Some(c),
            Err(_) => None::<JWTClaims>,
        },
{
    match outcome {
        Ok(c) => Some(c),
        Err(_) => None,
    }
}

} // verus!
