//! Session tokens: opaque, encrypted, self-contained.
//!
//! A token carries the principal's account id and a validity window
//! (`not-before` and expiry instants, seconds of the Unix epoch). The
//! claims are serialised by this crate as three fixed-width decimal
//! fields, encrypted under a process-wide 32-byte symmetric key, and
//! decoded back here; the validity window is checked here against the
//! caller's clock, never inside the cipher. No server-side session
//! state exists: logout is a client-side discard, and compromise is
//! bounded by the one-day lifetime.

use crate::custom_errors::account::Error;
use crate::digits::all_digits;
use crate::digits::dec_val;
use crate::digits::fixed_dec;
use crate::digits::lemma_fixed_dec_val_small;
use crate::digits::pow10;
use crate::digits::push_fixed_dec;
use crate::digits::read_fixed_dec;
use crate::models::account::AccountId;
use crate::models::account::Session;
use vstd::prelude::*;
use vstd::string::StringSliceAdditionalSpecFns;

verus! {

/// How long an issued token stays valid, in seconds.
pub const TOKEN_TTL_SECONDS: i64 = 86400;

/// The byte sequence of a string, for stating token contracts over
/// one canonical view.
pub open spec fn str_bytes(s: Seq<char>) -> Seq<u8> {
    vstd::utf8::encode_utf8(s)
}

/// What decrypting this token under this key yields: the claim bytes,
/// or `None` when the ciphertext fails authentication or is not a
/// well-formed token. The result depends on the two arguments alone.
pub uninterp spec fn paseto_plaintext(token: Seq<u8>, key: Seq<u8>) -> Option<Seq<u8>>;

/// The shape every well-formed encrypted token has: the `v2.local.`
/// header followed by a payload of at least 32 characters before any
/// further separator. Tokens without this shape are rejected outright;
/// the cipher is only consulted for tokens that have it.
pub open spec fn token_shape_ok(t: Seq<u8>) -> bool {
    &&& t.len() >= 41
    &&& t[0] == 118 && t[1] == 50 && t[2] == 46
    &&& t[3] == 108 && t[4] == 111 && t[5] == 99 && t[6] == 97 && t[7] == 108 && t[8] == 46
    &&& (forall|i: int| 9 <= i < 41 ==> #[trigger] t[i] != 46)
}

/// Relies on paseto's v2 local_paseto (crate paseto): encrypts the
/// message under the 32-byte key with a fresh nonce, producing
/// `v2.local.` followed by at least 53 base64 characters (24 nonce
/// bytes plus a 16-byte tag, at least), none of which is a dot; and
/// decrypt_paseto of the result under the same key returns the
/// message. Fails only if the system's randomness source does.
#[verifier::external_body]
fn encrypt_claims(claims: &Vec<u8>, key: &Vec<u8>) -> (r: Option<String>)
    requires
        key@.len() == 32,
        all_digits(claims@),
    ensures
        r matches Some(t) ==> paseto_plaintext(str_bytes(t@), key@) == Some(claims@)
            && token_shape_ok(str_bytes(t@)),
{
    let msg = match std::str::from_utf8(claims.as_slice()) {
        Ok(m) => m,
        Err(_) => return None,
    };
    paseto::v2::local::local_paseto(msg, None, key.as_slice()).ok()
}

/// Relies on paseto's v2 decrypt_paseto (crate paseto): splits the
/// token at the dots, base64-decodes the payload, authenticates and
/// decrypts it under the key, and returns the embedded message; any
/// tampering or wrong key fails the AEAD and yields an error. The
/// shape precondition keeps the payload long enough that the crate's
/// nonce split cannot be reached with fewer than 24 decoded bytes.
#[verifier::external_body]
fn decrypt_claims(token: &str, key: &Vec<u8>) -> (r: Option<Vec<u8>>)
    requires
        key@.len() == 32,
        token_shape_ok(token.spec_bytes()),
    ensures
        match r {
            Some(p) => paseto_plaintext(token.spec_bytes(), key@) == Some(p@),
            None => paseto_plaintext(token.spec_bytes(), key@) is None,
        },
{
    paseto::v2::local::decrypt_paseto(token, None, key.as_slice()).ok().map(|s| s.into_bytes())
}

/// The claim bytes for a principal and validity window: account id in
/// ten decimal digits, then not-before and expiry in nineteen each.
pub open spec fn claims_bytes(id: nat, nbf: nat, exp: nat) -> Seq<u8> {
    fixed_dec(id, 10) + fixed_dec(nbf, 19) + fixed_dec(exp, 19)
}

/// Reads claim bytes back: exactly 48 decimal digits, split as
/// written by [`claims_bytes`].
pub open spec fn parse_claims(p: Seq<u8>) -> Option<(nat, nat, nat)> {
    if p.len() == 48 && all_digits(p) {
        Some(
            (
                dec_val(p.subrange(0, 10)),
                dec_val(p.subrange(10, 29)),
                dec_val(p.subrange(29, 48)),
            ),
        )
    } else {
        None
    }
}

/// Claim serialisation round-trips for every id and window that fit
/// their fields.
pub proof fn lemma_claims_round_trip(id: nat, nbf: nat, exp: nat)
    requires
        id < pow10(10),
        nbf < pow10(19),
        exp < pow10(19),
    ensures
        claims_bytes(id, nbf, exp).len() == 48,
        all_digits(claims_bytes(id, nbf, exp)),
        parse_claims(claims_bytes(id, nbf, exp)) == Some((id, nbf, exp)),
{
    lemma_fixed_dec_val_small(id, 10);
    lemma_fixed_dec_val_small(nbf, 19);
    lemma_fixed_dec_val_small(exp, 19);
    let p = claims_bytes(id, nbf, exp);
    assert(p.subrange(0, 10) =~= fixed_dec(id, 10));
    assert(p.subrange(10, 29) =~= fixed_dec(nbf, 19));
    assert(p.subrange(29, 48) =~= fixed_dec(exp, 19));
    assert forall|i: int| 0 <= i < p.len() implies crate::digits::is_digit(#[trigger] p[i]) by {
        if i < 10 {
            assert(p[i] == fixed_dec(id, 10)[i]);
        } else if i < 29 {
            assert(p[i] == fixed_dec(nbf, 19)[i - 10]);
        } else {
            assert(p[i] == fixed_dec(exp, 19)[i - 29]);
        }
    }
}

/// Serialises the claims.
fn encode_claims(id: u64, nbf: u64, exp: u64) -> (r: Vec<u8>)
    ensures
        r@ == claims_bytes(id as nat, nbf as nat, exp as nat),
{
    let mut out: Vec<u8> = Vec::new();
    push_fixed_dec(&mut out, id, 10);
    push_fixed_dec(&mut out, nbf, 19);
    push_fixed_dec(&mut out, exp, 19);
    proof {
        assert(out@ =~= claims_bytes(id as nat, nbf as nat, exp as nat));
    }
    out
}

/// Splits decrypted claim bytes into id, not-before and expiry.
fn split_claims(p: &[u8]) -> (r: Option<(u64, u64, u64)>)
    ensures
        match r {
            Some(t) => parse_claims(p@) == Some(((t.0 as nat), (t.1 as nat), (t.2 as nat))),
            None => parse_claims(p@) is None,
        },
{
    if p.len() != 48 {
        return None;
    }
    let a = read_fixed_dec(p, 0, 10);
    let b = read_fixed_dec(p, 10, 29);
    let c = read_fixed_dec(p, 29, 48);
    match (a, b, c) {
        (Some(a), Some(b), Some(c)) => {
            proof {
                assert forall|i: int| 0 <= i < p@.len() implies crate::digits::is_digit(
                    #[trigger] p@[i],
                ) by {
                    if i < 10 {
                        assert(p@.subrange(0, 10)[i] == p@[i]);
                    } else if i < 29 {
                        assert(p@.subrange(10, 29)[i - 10] == p@[i]);
                    } else {
                        assert(p@.subrange(29, 48)[i - 29] == p@[i]);
                    }
                }
            }
            Some((a, b, c))
        },
        _ => {
            proof {
                let s0 = p@.subrange(0, 10);
                let s1 = p@.subrange(10, 29);
                let s2 = p@.subrange(29, 48);
                if !all_digits(s0) {
                    let i = choose|i: int|
                        0 <= i < s0.len() && !crate::digits::is_digit(#[trigger] s0[i]);
                    assert(p@[i] == s0[i]);
                } else if !all_digits(s1) {
                    let i = choose|i: int|
                        0 <= i < s1.len() && !crate::digits::is_digit(#[trigger] s1[i]);
                    assert(p@[i + 10] == s1[i]);
                } else {
                    assert(!all_digits(s2));
                    let i = choose|i: int|
                        0 <= i < s2.len() && !crate::digits::is_digit(#[trigger] s2[i]);
                    assert(p@[i + 29] == s2[i]);
                }
                assert(!all_digits(p@));
            }
            None
        },
    }
}

/// The session a token decodes to under a key, before the validity
/// window is checked: `None` for anything ill-shaped, unauthentic, or
/// whose claims do not read back as id and window.
pub open spec fn token_session(token: Seq<u8>, key: Seq<u8>) -> Option<Session> {
    if token_shape_ok(token) {
        match paseto_plaintext(token, key) {
            Some(p) => match parse_claims(p) {
                Some(t) => if t.0 <= 0x7fff_ffff && t.1 <= 0x7fff_ffff_ffff_ffff && t.2
                    <= 0x7fff_ffff_ffff_ffff {
                    Some(
                        Session {
                            exp: t.2 as i64,
                            account_id: AccountId(t.0 as i32),
                            nbf: t.1 as i64,
                        },
                    )
                } else {
                    None
                },
                None => None,
            },
            None => None,
        }
    } else {
        None
    }
}

/// Issues a token for this principal: claims are the account id and
/// the window from `now` to `now` plus the fixed lifetime, encrypted
/// under the key. On the rare failure of the randomness source the
/// token cannot be created and exactly that is reported.
pub fn issue_token(key: &Vec<u8>, account_id: AccountId, now: i64) -> (r: Result<String, Error>)
    requires
        key@.len() == 32,
        0 <= account_id.0,
        0 <= now <= i64::MAX - TOKEN_TTL_SECONDS,
    ensures
        r matches Ok(t) ==> token_session(str_bytes(t@), key@) == Some(
            Session { exp: (now + TOKEN_TTL_SECONDS) as i64, account_id, nbf: now },
        ),
        r is Err ==> r == Err::<String, Error>(Error::CannotCreateToken),
{
    let exp = now + TOKEN_TTL_SECONDS;
    proof {
        assert((account_id.0 as nat) < pow10(10) && (now as nat) < pow10(19) && (exp as nat)
            < pow10(19)) by {
            reveal_with_fuel(pow10, 20);
        }
        lemma_claims_round_trip(account_id.0 as nat, now as nat, exp as nat);
    }
    let claims = encode_claims(account_id.0 as u64, now as u64, exp as u64);
    match encrypt_claims(&claims, key) {
        Some(t) => Ok(t),
        None => Err(Error::CannotCreateToken),
    }
}

/// Decodes a token and checks its validity window against `now`: the
/// embedded session comes back only if decryption, authentication and
/// parsing all succeed and `now` lies inside `[nbf, exp]`. Every
/// failure is the same decryption error; which check failed is not
/// revealed.
pub fn verify_token(key: &Vec<u8>, token: &str, now: i64) -> (r: Result<Session, Error>)
    requires
        key@.len() == 32,
    ensures
        match token_session(token.spec_bytes(), key@) {
            Some(s) => if s.nbf <= now && now <= s.exp {
                r == Ok::<Session, Error>(s)
            } else {
                r == Err::<Session, Error>(Error::CannotDecryptToken)
            },
            None => r == Err::<Session, Error>(Error::CannotDecryptToken),
        },
{
    let bytes = token.as_bytes();
    if bytes.len() < 41 {
        return Err(Error::CannotDecryptToken);
    }
    if !(bytes[0] == 118 && bytes[1] == 50 && bytes[2] == 46 && bytes[3] == 108 && bytes[4] == 111
        && bytes[5] == 99 && bytes[6] == 97 && bytes[7] == 108 && bytes[8] == 46) {
        return Err(Error::CannotDecryptToken);
    }
    let mut i: usize = 9;
    while i < 41
        invariant
            9 <= i <= 41,
            bytes@ == token.spec_bytes(),
            bytes@.len() >= 41,
            forall|k: int| 9 <= k < i ==> #[trigger] bytes@[k] != 46,
        decreases 41 - i,
    {
        if bytes[i] == 46 {
            return Err(Error::CannotDecryptToken);
        }
        i = i + 1;
    }
    let p = match decrypt_claims(token, key) {
        Some(p) => p,
        None => {
            return Err(Error::CannotDecryptToken);
        },
    };
    let (id, nbf, exp) = match split_claims(p.as_slice()) {
        Some(t) => t,
        None => {
            return Err(Error::CannotDecryptToken);
        },
    };
    if id > 0x7fff_ffff || nbf > 0x7fff_ffff_ffff_ffff || exp > 0x7fff_ffff_ffff_ffff {
        return Err(Error::CannotDecryptToken);
    }
    let session = Session { exp: exp as i64, account_id: AccountId(id as i32), nbf: nbf as i64 };
    if session.nbf <= now && now <= session.exp {
        Ok(session)
    } else {
        Err(Error::CannotDecryptToken)
    }
}

} // verus!
