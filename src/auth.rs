//! Authentication: reading the bearer token from the `Authorization`
//! header, turning it into the key stored in the tenant database, and
//! deciding on the stored key.
use vstd::prelude::*;
use sha2::{Digest, Sha256};
use vstd::string::StringSliceAdditionalSpecFns;
use crate::error::{AppError, ErrorCode, invalid_auth_error};
use crate::stream::{trim_line, trimmed_copy};
use crate::text::{push_char, str_eq};

verus! {

/// The authenticated principal of a request.
#[derive(Debug, Clone)]
pub struct Auth {
    pub tenant_id: String,
}

/// Bytes a header value may hold to be read as text: visible ASCII and tab.
pub open spec fn visible_ascii(b: u8) -> bool {
    (32 <= b && b < 127) || b == 9
}

/// `Bearer ` as bytes.
pub open spec fn bearer_prefix() -> Seq<u8> {
    seq![66u8, 101u8, 97u8, 114u8, 101u8, 114u8, 32u8]
}

/// Bytes a token may hold: ASCII letters and digits, `-`, `_` and `.`.
pub open spec fn token_byte(b: u8) -> bool {
    (48 <= b <= 57) || (65 <= b <= 90) || (97 <= b <= 122) || b == 45 || b == 95 || b == 46
}

/// ASCII bytes read as characters.
pub open spec fn ascii_chars(s: Seq<u8>) -> Seq<char> {
    Seq::new(s.len(), |i: int| s[i] as char)
}

/// The token an `Authorization` header value yields, or the error kind and
/// message it is refused with.
pub open spec fn token_outcome(header: Option<Seq<u8>>) -> Result<Seq<u8>, (ErrorCode, Seq<char>)> {
    match header {
        None => Err((ErrorCode::MissingToken, "Missing Authorization header"@)),
        Some(h) => if !(forall|i: int| 0 <= i < h.len() ==> visible_ascii(#[trigger] h[i])) {
            Err((ErrorCode::InvalidTokenFormat, "Authorization header contains invalid characters"@))
        } else if !(h.len() >= 7 && h.subrange(0, 7) == bearer_prefix()) {
            Err((ErrorCode::InvalidBearerFormat, "Authorization header must start with 'Bearer '"@))
        } else {
            let token = trim_line(h.subrange(7, h.len() as int));
            if token.len() == 0 {
                Err((ErrorCode::InvalidToken, "Bearer token cannot be empty"@))
            } else if !(forall|i: int| 0 <= i < token.len() ==> token_byte(#[trigger] token[i])) {
                Err((ErrorCode::InvalidTokenFormat, "Bearer token contains invalid characters"@))
            } else {
                Ok(token)
            }
        },
    }
}

/// The bytes of an optional header value.
pub open spec fn opt_bytes(h: Option<&[u8]>) -> Option<Seq<u8>> {
    match h {
        Some(b) => Some(b@),
        None => None,
    }
}

fn ascii_string(b: &[u8]) -> (r: String)
    ensures
        r@ == ascii_chars(b@),
{
    let mut r = String::new();
    let mut i: usize = 0;
    while i < b.len()
        invariant
            i <= b@.len(),
            r@ == ascii_chars(b@.subrange(0, i as int)),
        decreases b@.len() - i,
    {
        push_char(&mut r, b[i] as char);
        assert(ascii_chars(b@.subrange(0, i + 1)) =~= ascii_chars(b@.subrange(0, i as int)).push(
            b@[i as int] as char,
        ));
        i += 1;
    }
    assert(b@.subrange(0, b@.len() as int) =~= b@);
    r
}

/// Reads the bearer token from the raw bytes of the `Authorization` header
/// (`None` when the header is absent).
pub fn bearer_token(header: Option<&[u8]>) -> (r: Result<String, AppError>)
    ensures
        match token_outcome(opt_bytes(header)) {
            Ok(t) => r is Ok && r->Ok_0@ == ascii_chars(t),
            Err((code, message)) => r is Err && r->Err_0.code == code && r->Err_0.message@ == message,
        },
{
    let h = match header {
        Some(h) => h,
        None => {
            return Err(
                AppError::new(ErrorCode::MissingToken, String::from_str("Missing Authorization header")),
            );
        },
    };
    let mut i: usize = 0;
    while i < h.len()
        invariant
            i <= h@.len(),
            opt_bytes(header) == Some(h@),
            forall|j: int| 0 <= j < i ==> visible_ascii(#[trigger] h@[j]),
        decreases h@.len() - i,
    {
        let b = h[i];
        if !((32 <= b && b < 127) || b == 9) {
            assert(!visible_ascii(h@[i as int]));
            return Err(
                AppError::new(
                    ErrorCode::InvalidTokenFormat,
                    String::from_str("Authorization header contains invalid characters"),
                ),
            );
        }
        i += 1;
    }
    let is_bearer = h.len() >= 7 && h[0] == 66 && h[1] == 101 && h[2] == 97 && h[3] == 114 && h[4]
        == 101 && h[5] == 114 && h[6] == 32;
    proof {
        if h@.len() >= 7 {
            if is_bearer {
                assert(h@.subrange(0, 7) =~= bearer_prefix());
            } else {
                assert(h@.subrange(0, 7) != bearer_prefix()) by {
                    if h@.subrange(0, 7) == bearer_prefix() {
                        assert(h@.subrange(0, 7)[0] == h@[0]);
                        assert(h@.subrange(0, 7)[6] == h@[6]);
                    }
                }
            }
        }
    }
    if !is_bearer {
        return Err(
            AppError::new(
                ErrorCode::InvalidBearerFormat,
                String::from_str("Authorization header must start with 'Bearer '"),
            ),
        );
    }
    let token = trimmed_copy(h, 7, h.len());
    if token.len() == 0 {
        return Err(invalid_auth_error(String::from_str("Bearer token cannot be empty")));
    }
    let mut k: usize = 0;
    while k < token.len()
        invariant
            k <= token@.len(),
            opt_bytes(header) == Some(h@),
            forall|j: int| 0 <= j < h@.len() ==> visible_ascii(#[trigger] h@[j]),
            h@.len() >= 7 && h@.subrange(0, 7) == bearer_prefix(),
            token@ == trim_line(h@.subrange(7, h@.len() as int)),
            token@.len() > 0,
            forall|j: int| 0 <= j < k ==> token_byte(#[trigger] token@[j]),
        decreases token@.len() - k,
    {
        let b = token[k];
        if !((48 <= b && b <= 57) || (65 <= b && b <= 90) || (97 <= b && b <= 122) || b == 45 || b
            == 95 || b == 46) {
            assert(!token_byte(token@[k as int]));
            return Err(
                AppError::new(
                    ErrorCode::InvalidTokenFormat,
                    String::from_str("Bearer token contains invalid characters"),
                ),
            );
        }
        k += 1;
    }
    Ok(ascii_string(token.as_slice()))
}

/// The SHA-256 digest of a byte string.
pub uninterp spec fn sha256_of(data: Seq<u8>) -> Seq<u8>;

/// Relies on sha2's `Sha256::digest`: the SHA-256 digest of `data`.
#[verifier::external_body]
fn sha256(data: &[u8]) -> (r: Vec<u8>)
    ensures
        r@ == sha256_of(data@),
{
    Sha256::digest(data).to_vec()
}

/// A lowercase hexadecimal digit.
pub open spec fn hex_digit(n: nat) -> char {
    if n < 10 {
        ((48 + n) as u8) as char
    } else {
        ((87 + n) as u8) as char
    }
}

/// Bytes as lowercase hexadecimal, two digits per byte.
pub open spec fn hex_of(s: Seq<u8>) -> Seq<char>
    decreases s.len(),
{
    if s.len() == 0 {
        Seq::empty()
    } else {
        hex_of(s.drop_last()).push(hex_digit((s.last() / 16) as nat)).push(
            hex_digit((s.last() % 16) as nat),
        )
    }
}

fn hex_char(n: u8) -> (c: char)
    requires
        n < 16,
    ensures
        c == hex_digit(n as nat),
{
    if n < 10 {
        (48 + n) as char
    } else {
        (87 + n) as char
    }
}

/// Writes bytes as lowercase hexadecimal.
pub fn hex_lower(bytes: &[u8]) -> (r: String)
    ensures
        r@ == hex_of(bytes@),
{
    let mut r = String::new();
    let mut i: usize = 0;
    while i < bytes.len()
        invariant
            i <= bytes@.len(),
            r@ == hex_of(bytes@.subrange(0, i as int)),
        decreases bytes@.len() - i,
    {
        let b = bytes[i];
        push_char(&mut r, hex_char(b / 16));
        push_char(&mut r, hex_char(b % 16));
        assert(bytes@.subrange(0, i + 1).drop_last() =~= bytes@.subrange(0, i as int));
        i += 1;
    }
    assert(bytes@.subrange(0, bytes@.len() as int) =~= bytes@);
    r
}

/// Keys with this prefix are stored as they are, not hashed.
pub open spec fn has_plain_prefix(s: Seq<char>) -> bool {
    s.len() >= 5 && s.subrange(0, 5) == "mlpi_"@
}

/// The key stored for a token: the token itself when it starts with
/// `mlpi_`, else the lowercase hex SHA-256 digest of its UTF-8 bytes.
pub fn hash_api_key(api_key: &str) -> (r: String)
    ensures
        r@ == (if has_plain_prefix(api_key@) {
            api_key@
        } else {
            hex_of(sha256_of(api_key.spec_bytes()))
        }),
{
    let plain = api_key.unicode_len() >= 5 && str_eq(api_key.substring_char(0, 5), "mlpi_");
    if plain {
        String::from_str(api_key)
    } else {
        let digest = sha256(api_key.as_bytes());
        hex_lower(digest.as_slice())
    }
}

/// An API key as the tenant database stores it; times are microseconds since
/// the Unix epoch.
#[derive(Debug, Clone)]
pub struct ApiKey {
    pub id: String,
    pub organization_id: String,
    pub key: String,
    pub expires_at: Option<i64>,
    pub last_used: Option<i64>,
    pub created_at: i64,
}

/// What looking up a stored key gave.
#[derive(Debug, Clone)]
pub enum ApiKeyLookup {
    Found(ApiKey),
    NotFound,
    Failed,
}

/// The tenant a looked-up key grants at `now_micros`, or why it grants none.
pub open spec fn tenant_outcome(lookup: ApiKeyLookup, now_micros: i64) -> Result<Seq<char>, (ErrorCode, Seq<char>)> {
    match lookup {
        ApiKeyLookup::NotFound => Err((ErrorCode::InvalidToken, "Invalid API key"@)),
        ApiKeyLookup::Failed => Err((ErrorCode::DatabaseError, "Failed to validate API key"@)),
        ApiKeyLookup::Found(k) => match k.expires_at {
            Some(t) => if t < now_micros {
                Err((ErrorCode::InvalidToken, "API key has expired"@))
            } else {
                Ok(k.organization_id@)
            },
            None => Ok(k.organization_id@),
        },
    }
}

/// Decides on a looked-up key: unknown and expired keys are refused, a
/// failed lookup is a database error, and a valid key grants its tenant.
pub fn tenant_for_key(lookup: ApiKeyLookup, now_micros: i64) -> (r: Result<String, AppError>)
    ensures
        match tenant_outcome(lookup, now_micros) {
            Ok(t) => r is Ok && r->Ok_0@ == t,
            Err((code, message)) => r is Err && r->Err_0.code == code && r->Err_0.message@ == message,
        },
{
    match lookup {
        ApiKeyLookup::NotFound => Err(
            AppError::new(ErrorCode::InvalidToken, String::from_str("Invalid API key")),
        ),
        ApiKeyLookup::Failed => Err(
            AppError::new(ErrorCode::DatabaseError, String::from_str("Failed to validate API key")),
        ),
        ApiKeyLookup::Found(k) => {
            match k.expires_at {
                Some(t) => {
                    if t < now_micros {
                        return Err(
                            AppError::new(
                                ErrorCode::InvalidToken,
                                String::from_str("API key has expired"),
                            ),
                        );
                    }
                },
                None => {},
            }
            Ok(k.organization_id)
        },
    }
}

} // verus!
