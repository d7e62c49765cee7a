//! The WebAuthn challenge check: the signature payload is re-encoded as
//! unpadded base64-url and must equal, byte for byte, the `challenge`
//! member of the assertion's client data.  The member is located by a
//! small JSON scan: the quoted `challenge` key, optional JSON whitespace
//! around the colon, and an unescaped string value; client data whose
//! challenge cannot be read this way (no such member, an unterminated
//! value, or one containing an escape) is rejected as malformed.

use vstd::prelude::*;

use crate::bytes::bytes_eq;

verus! {

/// The unpadded URL-safe base64 text of a byte string, as base64ct
/// computes it.
pub uninterp spec fn b64url_of(s: Seq<u8>) -> Seq<u8>;

/// Relies on base64ct's `Base64UrlUnpadded::encode_string`: the unpadded
/// URL-safe base64 text of the input, a function of those bytes alone;
/// a 32-byte input yields 43 text bytes.
#[verifier::external_body]
pub fn b64url_encode(bytes: &Vec<u8>) -> (r: Vec<u8>)
    requires
        bytes@.len() == 32,
    ensures
        r@ == b64url_of(bytes@),
        r@.len() == 43,
{
    <base64ct::Base64UrlUnpadded as base64ct::Encoding>::encode_string(bytes.as_slice())
        .into_bytes()
}

/// The quoted member name that introduces the challenge in client data.
pub open spec fn challenge_key() -> Seq<u8> {
    seq![34u8, 99u8, 104u8, 97u8, 108u8, 108u8, 101u8, 110u8, 103u8, 101u8, 34u8]
}

/// True when the quoted challenge key occurs in `s` at position `i`.
pub open spec fn key_at(s: Seq<u8>, i: int) -> bool {
    0 <= i && i + 11 <= s.len() && s.subrange(i, i + 11) == challenge_key()
}

/// The first occurrence of the quoted challenge key at or after `i`.
pub open spec fn find_key_from(s: Seq<u8>, i: int) -> Option<int>
    decreases s.len() - i,
    when 0 <= i <= s.len()
{
    if i + 11 > s.len() {
        None
    } else if key_at(s, i) {
        Some(i)
    } else {
        find_key_from(s, i + 1)
    }
}

/// True for the four JSON whitespace bytes: space, tab, line feed,
/// carriage return.
pub open spec fn is_json_ws(b: u8) -> bool {
    b == 32 || b == 9 || b == 10 || b == 13
}

/// The first position at or after `i` holding a non-whitespace byte
/// (or the end of `s`).
pub open spec fn skip_ws_from(s: Seq<u8>, i: int) -> int
    decreases s.len() - i,
    when 0 <= i <= s.len()
{
    if i >= s.len() {
        i
    } else if is_json_ws(s[i]) {
        skip_ws_from(s, i + 1)
    } else {
        i
    }
}

/// The first double quote or backslash at or after `i`: the end of an
/// unescaped JSON string value, or the first escape in it.
pub open spec fn find_delim_from(s: Seq<u8>, i: int) -> Option<int>
    decreases s.len() - i,
    when 0 <= i <= s.len()
{
    if i >= s.len() {
        None
    } else if s[i] == 34 || s[i] == 92 {
        Some(i)
    } else {
        find_delim_from(s, i + 1)
    }
}

/// The challenge value inside `s`: after the first quoted `challenge` key
/// come optional whitespace, a colon, optional whitespace and a quoted
/// string; the value ends at the next quote and must not contain an
/// escape.  Anything else reads as "no challenge".
pub open spec fn spec_extract_challenge(s: Seq<u8>) -> Option<Seq<u8>> {
    match find_key_from(s, 0) {
        None => None,
        Some(i) => if i + 11 > s.len() {
            None
        } else {
            let c = skip_ws_from(s, i + 11);
            if c >= s.len() || s[c] != 58 {
                None
            } else {
                let q = skip_ws_from(s, c + 1);
                if q >= s.len() || s[q] != 34 {
                    None
                } else {
                    match find_delim_from(s, q + 1) {
                        None => None,
                        Some(j) => if s[j] == 92 {
                            None
                        } else {
                            Some(s.subrange(q + 1, j))
                        },
                    }
                }
            }
        },
    }
}

/// True when the client data's challenge equals the re-encoded payload.
pub open spec fn challenge_matches(client_data_json: Seq<u8>, payload: Seq<u8>) -> bool {
    spec_extract_challenge(client_data_json) == Some(b64url_of(payload))
}

/// The executable form of [`challenge_key`].
fn challenge_key_bytes() -> (r: Vec<u8>)
    ensures
        r@ == challenge_key(),
{
    let r: Vec<u8> = vec![34u8, 99u8, 104u8, 97u8, 108u8, 108u8, 101u8, 110u8, 103u8, 101u8, 34u8];
    proof {
        assert(r@ =~= challenge_key());
    }
    r
}

/// True when `pat` occurs in `s` at position `i`.
fn bytes_at(s: &Vec<u8>, i: usize, pat: &Vec<u8>) -> (r: bool)
    requires
        i + pat@.len() <= s@.len(),
    ensures
        r == (s@.subrange(i as int, i as int + pat@.len() as int) == pat@),
{
    let ghost window = s@.subrange(i as int, i as int + pat@.len() as int);
    let n = s.len();
    let mut k: usize = 0;
    while k < pat.len()
        invariant
            k <= pat@.len(),
            i + pat@.len() <= s@.len(),
            n == s@.len(),
            window == s@.subrange(i as int, i as int + pat@.len() as int),
            forall|m: int| 0 <= m < k ==> window[m] == pat@[m],
        decreases pat@.len() - k,
    {
        if s[i + k] != pat[k] {
            proof {
                assert(window[k as int] != pat@[k as int]);
            }
            return false;
        }
        k = k + 1;
    }
    proof {
        assert(window =~= pat@);
    }
    true
}

/// Finds the first occurrence of the quoted challenge key in `s`.
fn find_challenge_key(s: &Vec<u8>) -> (r: Option<usize>)
    ensures
        match r {
            Some(i) => find_key_from(s@, 0) == Some(i as int) && i + 11 <= s@.len() && key_at(
                s@,
                i as int,
            ),
            None => find_key_from(s@, 0) is None,
        },
{
    let pat = challenge_key_bytes();
    if s.len() < 11 {
        proof {
            assert(find_key_from(s@, 0) is None);
        }
        return None;
    }
    let mut i: usize = 0;
    while i <= s.len() - 11
        invariant
            s@.len() >= 11,
            i <= s@.len(),
            pat@ == challenge_key(),
            find_key_from(s@, 0) == find_key_from(s@, i as int),
        decreases s@.len() - i,
    {
        if bytes_at(s, i, &pat) {
            proof {
                assert(key_at(s@, i as int));
                assert(find_key_from(s@, i as int) == Some(i as int));
            }
            return Some(i);
        }
        proof {
            assert(!key_at(s@, i as int));
            assert(find_key_from(s@, i as int) == find_key_from(s@, i as int + 1));
        }
        i = i + 1;
    }
    proof {
        assert(find_key_from(s@, i as int) is None);
    }
    None
}

/// Skips JSON whitespace, handing back the first non-whitespace position
/// at or after `start`.
fn skip_ws(s: &Vec<u8>, start: usize) -> (r: usize)
    requires
        start <= s@.len(),
    ensures
        r as int == skip_ws_from(s@, start as int),
        start <= r <= s@.len(),
{
    let mut j: usize = start;
    while j < s.len()
        invariant
            start <= j <= s@.len(),
            skip_ws_from(s@, start as int) == skip_ws_from(s@, j as int),
        decreases s@.len() - j,
    {
        let b = s[j];
        if !(b == 32 || b == 9 || b == 10 || b == 13) {
            proof {
                assert(skip_ws_from(s@, j as int) == j as int);
            }
            return j;
        }
        proof {
            assert(skip_ws_from(s@, j as int) == skip_ws_from(s@, j as int + 1));
        }
        j = j + 1;
    }
    proof {
        assert(skip_ws_from(s@, j as int) == j as int);
    }
    j
}

/// Finds the first double quote or backslash at or after `start`.
fn find_delim(s: &Vec<u8>, start: usize) -> (r: Option<usize>)
    requires
        start <= s@.len(),
    ensures
        match r {
            Some(j) => find_delim_from(s@, start as int) == Some(j as int) && start <= j
                < s@.len() && (s@[j as int] == 34 || s@[j as int] == 92),
            None => find_delim_from(s@, start as int) is None,
        },
{
    let mut j: usize = start;
    while j < s.len()
        invariant
            start <= j <= s@.len(),
            find_delim_from(s@, start as int) == find_delim_from(s@, j as int),
        decreases s@.len() - j,
    {
        let b = s[j];
        if b == 34u8 || b == 92u8 {
            proof {
                assert(find_delim_from(s@, j as int) == Some(j as int));
            }
            return Some(j);
        }
        proof {
            assert(find_delim_from(s@, j as int) == find_delim_from(s@, j as int + 1));
        }
        j = j + 1;
    }
    proof {
        assert(find_delim_from(s@, j as int) is None);
    }
    None
}

/// Extracts the challenge member from the client data, exactly as
/// [`spec_extract_challenge`] describes it.
pub fn extract_challenge(json: &Vec<u8>) -> (r: Option<Vec<u8>>)
    ensures
        r matches Some(v) ==> spec_extract_challenge(json@) == Some(v@),
        r is None <==> spec_extract_challenge(json@) is None,
{
    let n = json.len();
    match find_challenge_key(json) {
        None => None,
        Some(i) => {
            let c = skip_ws(json, i + 11);
            if c >= n || json[c] != 58u8 {
                None
            } else {
                let q = skip_ws(json, c + 1);
                if q >= n || json[q] != 34u8 {
                    None
                } else {
                    match find_delim(json, q + 1) {
                        None => None,
                        Some(j) => {
                            if json[j] == 92u8 {
                                None
                            } else {
                                let start = q + 1;
                                let mut out: Vec<u8> = Vec::new();
                                let mut k: usize = start;
                                while k < j
                                    invariant
                                        start <= k <= j,
                                        j < json@.len(),
                                        out@ == json@.subrange(start as int, k as int),
                                    decreases j - k,
                                {
                                    out.push(json[k]);
                                    k = k + 1;
                                    proof {
                                        assert(out@ =~= json@.subrange(start as int, k as int));
                                    }
                                }
                                Some(out)
                            }
                        },
                    }
                }
            }
        },
    }
}

/// The outcome of the recoverable WebAuthn checks that follow a successful
/// cryptographic verification: the client data must be small enough, must
/// carry a readable challenge, and the challenge must equal the re-encoded
/// payload.
pub open spec fn secp_verify_outcome(
    client_data_json: Seq<u8>,
    payload: Seq<u8>,
) -> Result<(), crate::error::Error> {
    if client_data_json.len() > 1024 {
        Err(crate::error::Error::InvalidWebauthnClientDataJson)
    } else {
        match spec_extract_challenge(client_data_json) {
            None => Err(crate::error::Error::InvalidWebauthnClientDataJson),
            Some(ch) => if ch == b64url_of(payload) {
                Ok(())
            } else {
                Err(crate::error::Error::ClientDataJsonIncorrectChallenge)
            },
        }
    }
}

} // verus!
