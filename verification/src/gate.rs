//! The request gate: the single entry point through which an incoming
//! request's authorization header turns into a trusted identity. The header
//! must carry a `Bearer` prefix (matched case-sensitively); what follows it,
//! less surrounding whitespace, is the token, which is then checked in two
//! phases — cryptographic validity and expiry first, then liveness against
//! the store. Anything else is rejected with the same generic failure a bad
//! token gets.

use vstd::prelude::*;
use vstd::string::StrSliceExecFns;

use crate::store::Store;
use crate::token::{token_of, verify, verify_token, TokenError, UserToken};

verus! {

/// The whitespace characters trimmed around the token.
pub open spec fn spec_is_space(c: char) -> bool {
    c == ' ' || c == '\t' || c == '\r' || c == '\n'
}

/// The header opens with the bearer scheme's name.
pub open spec fn spec_bearer_prefix(h: Seq<char>) -> bool {
    h.len() >= 6 && h.subrange(0, 6) == "Bearer"@
}

/// The sequence less its leading whitespace.
pub open spec fn spec_trim_start(s: Seq<char>) -> Seq<char>
    decreases s.len(),
{
    if s.len() > 0 && spec_is_space(s[0]) {
        spec_trim_start(s.drop_first())
    } else {
        s
    }
}

/// The sequence less its trailing whitespace.
pub open spec fn spec_trim_end(s: Seq<char>) -> Seq<char>
    decreases s.len(),
{
    if s.len() > 0 && spec_is_space(s.last()) {
        spec_trim_end(s.drop_last())
    } else {
        s
    }
}

/// The sequence less its surrounding whitespace.
pub open spec fn spec_trim(s: Seq<char>) -> Seq<char> {
    spec_trim_end(spec_trim_start(s))
}

/// Trimming the front stops at the first non-space: when everything before
/// `k` is whitespace and `k` itself is not (or is the end), what is left is
/// the suffix from `k`.
proof fn lemma_trim_start_at(s: Seq<char>, k: int)
    requires
        0 <= k <= s.len(),
        forall|j: int| 0 <= j < k ==> spec_is_space(#[trigger] s[j]),
        k == s.len() || !spec_is_space(s[k]),
    ensures
        spec_trim_start(s) == s.subrange(k, s.len() as int),
    decreases k,
{
    if k == 0 {
        assert(s.subrange(0, s.len() as int) =~= s);
    } else {
        lemma_trim_start_at(s.drop_first(), k - 1);
        assert(s.drop_first().subrange(k - 1, s.drop_first().len() as int) =~= s.subrange(
            k,
            s.len() as int,
        ));
    }
}

/// Trimming the back stops at the last non-space: when everything from `h`
/// on is whitespace and what precedes `h` is not (or nothing does), what is
/// left is the prefix up to `h`.
proof fn lemma_trim_end_at(s: Seq<char>, h: int)
    requires
        0 <= h <= s.len(),
        forall|j: int| h <= j < s.len() ==> spec_is_space(#[trigger] s[j]),
        h == 0 || !spec_is_space(s[h - 1]),
    ensures
        spec_trim_end(s) == s.subrange(0, h),
    decreases s.len() - h,
{
    if h == s.len() {
        assert(s.subrange(0, s.len() as int) =~= s);
    } else {
        lemma_trim_end_at(s.drop_last(), h);
        assert(s.drop_last().subrange(0, h) =~= s.subrange(0, h));
    }
}

/// Extracts the bearer token from an authorization header value: the
/// header must open with `Bearer`, matched case-sensitively, and the token
/// is what follows, less surrounding whitespace. Anything else is
/// unauthenticated.
pub fn extract_bearer(header: &str) -> (r: Option<String>)
    ensures
        r is Some <==> spec_bearer_prefix(header@),
        r matches Some(t) ==> t@ == spec_trim(
            header@.subrange(6, header@.len() as int),
        ),
{
    let n = header.unicode_len();
    if n < 6 {
        proof {
            reveal_strlit("Bearer");
        }
        return None;
    }
    if !(header.get_char(0) == 'B' && header.get_char(1) == 'e' && header.get_char(2) == 'a'
        && header.get_char(3) == 'r' && header.get_char(4) == 'e' && header.get_char(5) == 'r') {
        proof {
            reveal_strlit("Bearer");
            if spec_bearer_prefix(header@) {
                assert(header@.subrange(0, 6)[0] == header@[0]);
                assert(header@.subrange(0, 6)[1] == header@[1]);
                assert(header@.subrange(0, 6)[2] == header@[2]);
                assert(header@.subrange(0, 6)[3] == header@[3]);
                assert(header@.subrange(0, 6)[4] == header@[4]);
                assert(header@.subrange(0, 6)[5] == header@[5]);
            }
        }
        return None;
    }
    proof {
        reveal_strlit("Bearer");
        assert(header@.subrange(0, 6) =~= "Bearer"@);
    }
    let ghost rest = header@.subrange(6, header@.len() as int);
    let mut lo: usize = 6;
    while lo < n && is_space(header.get_char(lo))
        invariant
            6 <= lo <= n,
            n == header@.len(),
            forall|j: int| 6 <= j < lo ==> spec_is_space(#[trigger] header@[j]),
        decreases n - lo,
    {
        lo += 1;
    }
    let mut hi: usize = n;
    while hi > lo && is_space(header.get_char(hi - 1))
        invariant
            lo <= hi <= n,
            n == header@.len(),
            6 <= lo,
            forall|j: int| hi <= j < n ==> spec_is_space(#[trigger] header@[j]),
        decreases hi,
    {
        hi -= 1;
    }
    let token = header.substring_char(lo, hi).to_owned();
    proof {
        lemma_trim_start_at(rest, lo - 6);
        assert(rest.subrange(lo - 6, rest.len() as int) =~= header@.subrange(
            lo as int,
            header@.len() as int,
        ));
        let started = header@.subrange(lo as int, header@.len() as int);
        lemma_trim_end_at(started, hi - lo);
        assert(started.subrange(0, hi - lo) =~= header@.subrange(lo as int, hi as int));
        assert(token@ == spec_trim(rest));
    }
    Some(token)
}

/// Whether this character counts as whitespace around the token.
fn is_space(c: char) -> (r: bool)
    ensures
        r == spec_is_space(c),
{
    c == ' ' || c == '\t' || c == '\r' || c == '\n'
}

/// Turns an incoming authorization header into a trusted identity, or a
/// rejection. The checks run in their mandatory order: the bearer prefix
/// and the token's shape and signature first (`Malformed`, `BadSignature`),
/// then expiry against the injected clock (`Expired`), and only then the
/// revocation lookup against the store (`Revoked`). Every failure is
/// surfaced to the client alike; the claims of a token that passes all
/// phases are trusted downstream.
pub fn verify_and_authenticate(header: &str, secret: &Vec<u8>, now: u64, store: &Store) -> (r:
    Result<UserToken, TokenError>)
    ensures
        !spec_bearer_prefix(header@) ==> r == Result::<UserToken, TokenError>::Err(
            TokenError::Malformed,
        ),
        r matches Ok(c) ==> now < c.exp && store.spec_token_live(c),
        forall|iat: u64, exp: u64, id: i32, username: Seq<char>, session: u64|
            (spec_bearer_prefix(header@) && spec_trim(header@.subrange(6, header@.len() as int))
                == token_of(iat, exp, id, username, session, secret@)) ==> if now >= exp {
                r == Result::<UserToken, TokenError>::Err(TokenError::Expired)
            } else if !store.spec_session_live(id as int, username, session) {
                r == Result::<UserToken, TokenError>::Err(TokenError::Revoked)
            } else {
                r matches Ok(c) && c.iat == iat && c.exp == exp && c.id == id && c.username@
                    == username && c.session == session
            },
{
    let token = match extract_bearer(header) {
        Some(t) => t,
        None => {
            return Err(TokenError::Malformed);
        },
    };
    let claims = match verify(token.as_str(), secret, now) {
        Ok(c) => c,
        Err(e) => {
            return Err(e);
        },
    };
    if verify_token(&claims, store) {
        Ok(claims)
    } else {
        Err(TokenError::Revoked)
    }
}

} // verus!
