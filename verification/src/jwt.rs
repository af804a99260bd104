//! Advisory expiry check for JWT-shaped tokens.
//!
//! A token is a string of three segments separated by two `.` characters.
//! Only the middle segment (the payload) is consumed: it is base64-decoded
//! after re-adding `=` padding, parsed as JSON, and its `exp` claim is
//! compared against a wall-clock time in seconds since the Unix epoch.
//! No signature is verified: the check is advisory only.

use base64::Engine;
use vstd::prelude::*;
use vstd::string::*;

verus! {

/// Why an expiry check failed.
#[derive(Clone, Copy, Debug, PartialEq, Eq, Structural)]
pub enum TokenError {
    /// The token does not consist of exactly three `.`-separated segments.
    Malformed,
    /// The padded payload segment is not valid standard-alphabet base64.
    Decode,
    /// The decoded payload is not valid JSON.
    Parse,
    /// The payload has no `exp` claim, or its value is not an integer.
    MissingClaim,
    /// The wall clock could not be read.
    Clock,
}

/// The message a [`TokenError`] is rendered as.
pub open spec fn message_of(e: TokenError) -> Seq<char> {
    match e {
        TokenError::Malformed => "Invalid JWT format"@,
        TokenError::Decode => "Base64 decode error"@,
        TokenError::Parse => "JSON parse error"@,
        TokenError::MissingClaim => "Missing exp claim"@,
        TokenError::Clock => "Clock error"@,
    }
}

impl TokenError {
    /// A descriptive message, as the application surfaces it to its caller.
    pub fn message(&self) -> (r: String)
        ensures
            r@ == message_of(*self),
    {
        match self {
            TokenError::Malformed => "Invalid JWT format".to_owned(),
            TokenError::Decode => "Base64 decode error".to_owned(),
            TokenError::Parse => "JSON parse error".to_owned(),
            TokenError::MissingClaim => "Missing exp claim".to_owned(),
            TokenError::Clock => "Clock error".to_owned(),
        }
    }
}

/// Number of `.` characters in a token.
pub open spec fn dot_count(s: Seq<char>) -> nat
    decreases s.len(),
{
    if s.len() == 0 {
        0
    } else {
        dot_count(s.drop_last()) + if s.last() == '.' {
            1nat
        } else {
            0nat
        }
    }
}

/// `i` and `j` mark the only two `.` characters of `s`, in order: the three
/// segments of the token are what lies before `i`, between `i` and `j`, and
/// after `j`.
pub open spec fn token_shape(s: Seq<char>, i: int, j: int) -> bool {
    &&& 0 <= i < j < s.len()
    &&& s[i] == '.'
    &&& s[j] == '.'
    &&& forall|k: int| 0 <= k < s.len() && s[k] == '.' ==> k == i || k == j
}

/// The payload segment of a token: the characters strictly between its two
/// `.` separators.
pub open spec fn payload_of(s: Seq<char>) -> Seq<char> {
    let (i, j) = choose|i: int, j: int| token_shape(s, i, j);
    s.subrange(i + 1, j)
}

/// Number of `=` characters that bring a byte length `n` up to the next
/// multiple of 4 (zero when `n` is already a multiple of 4).
pub open spec fn pad_len(n: nat) -> nat {
    if n % 4 == 0 {
        0
    } else {
        (4 - n % 4) as nat
    }
}

/// A payload with `=` padding re-added, as the base64 decoder expects it.
/// The padding count is determined by the payload's UTF-8 byte length.
pub open spec fn padded(p: Seq<char>) -> Seq<char> {
    p + Seq::new(pad_len(vstd::utf8::encode_utf8(p).len()), |i: int| '=')
}

/// Re-adds `=` padding to a base64 payload segment: appends `=` until the
/// byte length is a multiple of 4, and returns the input unchanged when it
/// already is one.
pub fn add_padding(input: &str) -> (r: String)
    ensures
        r@ == padded(input@),
{
    let len: usize = input.as_bytes().len();
    let rem: usize = len % 4;
    proof {
        assert(len == vstd::utf8::encode_utf8(input@).len());
    }
    let mut r = input.to_owned();
    proof {
        reveal_strlit("=");
        vstd::string::axiom_str_literal_len("=");
        vstd::string::axiom_str_literal_get_char("=", 0);
    }
    if rem != 0 {
        let mut k: usize = rem;
        while k < 4
            invariant
                1 <= rem <= k <= 4,
                rem == vstd::utf8::encode_utf8(input@).len() % 4,
                r@ == input@ + Seq::new((k - rem) as nat, |i: int| '='),
                "="@ =~= seq!['='],
            decreases 4 - k,
        {
            r.append("=");
            k = k + 1;
            proof {
                assert(r@ =~= input@ + Seq::new((k - rem) as nat, |i: int| '='));
            }
        }
        proof {
            assert(r@ =~= padded(input@));
        }
    } else {
        proof {
            assert(r@ =~= padded(input@));
        }
    }
    r
}

/// Extracts the payload segment of a token, or `None` unless the token has
/// exactly two `.` separators.
pub fn token_payload<'a>(token: &'a str) -> (r: Option<&'a str>)
    ensures
        r is Some <==> dot_count(token@) == 2,
        r matches Some(p) ==> p@ == payload_of(token@),
{
    let n: usize = token.unicode_len();
    let mut k: usize = 0;
    let mut dots: usize = 0;
    let mut i1: usize = 0;
    let mut i2: usize = 0;
    let mut i3: usize = 0;
    while k < n
        invariant
            n == token@.len(),
            k <= n,
            dots <= k,
            dots == dot_count(token@.subrange(0, k as int)),
            dots >= 1 ==> i1 < k && token@[i1 as int] == '.',
            dots >= 2 ==> i1 < i2 < k && token@[i2 as int] == '.',
            dots >= 3 ==> i2 < i3 < k && token@[i3 as int] == '.',
            forall|m: int|
                0 <= m < k && token@[m] == '.' ==> (dots >= 1 && m == i1) || (dots >= 2 && m
                    == i2) || dots >= 3,
        decreases n - k,
    {
        let c = token.get_char(k);
        proof {
            assert(token@.subrange(0, k + 1).drop_last() =~= token@.subrange(0, k as int));
        }
        if c == '.' {
            if dots == 0 {
                i1 = k;
            } else if dots == 1 {
                i2 = k;
            } else if dots == 2 {
                i3 = k;
            }
            dots = dots + 1;
        }
        k = k + 1;
    }
    proof {
        assert(token@.subrange(0, n as int) =~= token@);
    }
    if dots == 2 {
        proof {
            assert(token_shape(token@, i1 as int, i2 as int));
            let (ci, cj) = choose|ci: int, cj: int| token_shape(token@, ci, cj);
            assert(ci == i1 && cj == i2);
            assert(payload_of(token@) =~= token@.subrange(i1 + 1, i2 as int));
        }
        Some(token.substring_char(i1 + 1, i2))
    } else {
        None
    }
}

/// What the base64 decoder yields on a (padded) payload: `None` when the
/// characters are not valid standard-alphabet base64.
pub uninterp spec fn b64_decode_of(s: Seq<char>) -> Option<Seq<u8>>;

/// Relies on base64's `Engine::decode` on the standard-alphabet engine
/// `base64::engine::general_purpose::STANDARD`: whether decoding succeeds,
/// and the bytes it yields, are a function of the input characters alone.
#[verifier::external_body]
fn b64_decode(s: &str) -> (r: Option<Vec<u8>>)
    ensures
        r is Some <==> b64_decode_of(s@) is Some,
        r matches Some(v) ==> b64_decode_of(s@) == Some(v@),
{
    base64::engine::general_purpose::STANDARD.decode(s).ok()
}

/// Whether a byte string parses as JSON.
pub uninterp spec fn json_parses(b: Seq<u8>) -> bool;

/// The integer held under `key` of a JSON document `b`: `None` when the
/// document is no object, the key is absent, or the value under it is not
/// representable as an `i64`.
pub uninterp spec fn json_i64_of(b: Seq<u8>, key: Seq<char>) -> Option<i64>;

/// Relies on `serde_json::from_slice` to parse the bytes into a
/// `serde_json::Value`, and on `Value::get` with `Value::as_i64` to look up
/// an integer claim in it: both are functions of the bytes and the key alone.
#[verifier::external_body]
fn json_i64_field(b: &[u8], key: &str) -> (r: Result<i64, TokenError>)
    ensures
        match r {
            Ok(v) => json_parses(b@) && json_i64_of(b@, key@) == Some(v),
            Err(TokenError::Parse) => !json_parses(b@),
            Err(TokenError::MissingClaim) => json_parses(b@) && json_i64_of(b@, key@) is None,
            Err(_) => false,
        },
{
    match serde_json::from_slice::<serde_json::Value>(b) {
        Err(_) => Err(TokenError::Parse),
        Ok(v) => match v.get(key).and_then(serde_json::Value::as_i64) {
            Some(n) => Ok(n),
            None => Err(TokenError::MissingClaim),
        },
    }
}

/// Relies on `std::time::SystemTime::now` and `duration_since` against
/// `UNIX_EPOCH`: the reading is the current wall-clock time in whole seconds
/// since the epoch, about which nothing can be promised; `None` when the
/// clock reads before the epoch.
#[verifier::external_body]
fn unix_now() -> (r: Option<i64>) {
    match std::time::SystemTime::now().duration_since(std::time::UNIX_EPOCH) {
        Ok(d) => Some(d.as_secs() as i64),
        Err(_) => None,
    }
}

/// The `exp` claim a token carries, or the error that extracting it runs
/// into: the shape check, base64 decoding of the padded payload, JSON
/// parsing, and the claim lookup, in that order.
pub open spec fn exp_of(s: Seq<char>) -> Result<i64, TokenError> {
    if dot_count(s) != 2 {
        Err(TokenError::Malformed)
    } else {
        match b64_decode_of(padded(payload_of(s))) {
            Option::None => Err(TokenError::Decode),
            Option::Some(d) => if !json_parses(d) {
                Err(TokenError::Parse)
            } else {
                match json_i64_of(d, "exp"@) {
                    Option::None => Err(TokenError::MissingClaim),
                    Option::Some(e) => Ok(e),
                }
            },
        }
    }
}

/// The result of the expiry check at wall-clock time `now`: the token is
/// valid exactly when `now` lies strictly before its `exp` claim.
pub open spec fn expiry_of(s: Seq<char>, now: i64) -> Result<bool, TokenError> {
    match exp_of(s) {
        Ok(e) => Ok(now < e),
        Err(t) => Err(t),
    }
}

/// Extracts the `exp` claim of a token.
pub fn token_exp(token: &str) -> (r: Result<i64, TokenError>)
    ensures
        r == exp_of(token@),
{
    match token_payload(token) {
        None => Err(TokenError::Malformed),
        Some(p) => {
            let repadded = add_padding(p);
            match b64_decode(repadded.as_str()) {
                None => Err(TokenError::Decode),
                Some(bytes) => json_i64_field(bytes.as_slice(), "exp"),
            }
        },
    }
}

/// Checks a token against the given wall-clock time (seconds since the
/// Unix epoch): `Ok(true)` exactly when `now` lies strictly before the
/// token's `exp` claim.
pub fn check_token_expiry_at(token: &str, now: i64) -> (r: Result<bool, TokenError>)
    ensures
        r == expiry_of(token@, now),
{
    match token_exp(token) {
        Ok(e) => Ok(now < e),
        Err(t) => Err(t),
    }
}

/// Checks a token against the current wall-clock time.  Every error the
/// token itself provokes is fixed by the token; only the verdict on a
/// well-formed token, and a failure to read the clock, depend on the world.
pub fn check_token_expiry(token: String) -> (r: Result<bool, TokenError>)
    ensures
        exp_of(token@) matches Err(e) ==> r == Err::<bool, TokenError>(e),
        exp_of(token@) is Ok ==> r is Ok || r == Err::<bool, TokenError>(TokenError::Clock),
{
    match token_exp(token.as_str()) {
        Err(t) => Err(t),
        Ok(e) => match unix_now() {
            None => Err(TokenError::Clock),
            Some(now) => Ok(now < e),
        },
    }
}

/// A token whose `exp` claim lies strictly after the clock reading checks
/// as valid.
pub proof fn lemma_future_exp_is_valid(s: Seq<char>, now: i64)
    requires
        exp_of(s) matches Ok(e) && now < e,
    ensures
        expiry_of(s, now) == Ok::<bool, TokenError>(true),
{
}

/// A token whose `exp` claim lies at or before the clock reading checks as
/// expired.
pub proof fn lemma_past_exp_is_expired(s: Seq<char>, now: i64)
    requires
        exp_of(s) matches Ok(e) && e <= now,
    ensures
        expiry_of(s, now) == Ok::<bool, TokenError>(false),
{
}

/// A string without exactly two `.` separators fails the check with a
/// format error, whatever the clock reads.
pub proof fn lemma_wrong_shape_is_malformed(s: Seq<char>, now: i64)
    requires
        dot_count(s) != 2,
    ensures
        exp_of(s) == Err::<i64, TokenError>(TokenError::Malformed),
        expiry_of(s, now) == Err::<bool, TokenError>(TokenError::Malformed),
{
}

/// Padding leaves a payload whose byte length is a multiple of 4 unchanged;
/// otherwise it appends only `=` characters, as many as bring the byte
/// length up to the next multiple of 4.
pub proof fn lemma_padding_aligns(p: Seq<char>)
    ensures
        vstd::utf8::encode_utf8(p).len() % 4 == 0 ==> padded(p) == p,
        padded(p).len() == p.len() + pad_len(vstd::utf8::encode_utf8(p).len()),
        (vstd::utf8::encode_utf8(p).len() + pad_len(vstd::utf8::encode_utf8(p).len())) % 4 == 0,
        pad_len(vstd::utf8::encode_utf8(p).len()) < 4,
        padded(p).subrange(0, p.len() as int) == p,
        forall|k: int| p.len() <= k < padded(p).len() ==> padded(p)[k] == '=',
{
    if vstd::utf8::encode_utf8(p).len() % 4 == 0 {
        assert(padded(p) =~= p);
    }
    assert(padded(p).subrange(0, p.len() as int) =~= p);
}

} // verus!

