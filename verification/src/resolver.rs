//! The credential resolver: a two-strategy authentication gateway.
//!
//! Strategy 1 verifies a bearer token from the `Authorization` header;
//! any failure at any step falls through silently to strategy 2, which
//! looks a principal up by the `apiKey` query parameter.  A successful
//! token resolution skips the key lookup entirely.  If neither strategy
//! resolves a principal the request is rejected before any handler runs,
//! and the reason is never disclosed.

use vstd::prelude::*;
use vstd::string::StrSliceExecFns;
use crate::ids::spec_parse_uuid;
use crate::model::User;
use crate::token::{spec_validate_token, JwtConfig};

verus! {

/// The token carried by an `Authorization` header value: what follows
/// the `Bearer ` prefix, where the prefix is present.
pub open spec fn spec_bearer_token(h: Seq<char>) -> Option<Seq<char>> {
    if h.len() >= 7 && h.subrange(0, 7) == "Bearer "@ {
        Some(h.skip(7))
    } else {
        None
    }
}

/// Strips the `Bearer ` prefix off a header value.
pub fn bearer_token_of(header: &str) -> (r: Option<&str>)
    ensures
        r is Some <==> spec_bearer_token(header@) is Some,
        r matches Some(t) ==> Some(t@) == spec_bearer_token(header@),
{
    proof {
        reveal_strlit("Bearer ");
    }
    let n = header.unicode_len();
    if n < 7 {
        return None;
    }
    if header.get_char(0) == 'B' && header.get_char(1) == 'e' && header.get_char(2) == 'a'
        && header.get_char(3) == 'r' && header.get_char(4) == 'e' && header.get_char(5) == 'r'
        && header.get_char(6) == ' ' {
        proof {
            assert(header@.subrange(0, 7) =~= "Bearer "@);
        }
        Some(header.substring_char(7, n))
    } else {
        proof {
            assert(header@.subrange(0, 7) != "Bearer "@) by {
                if header@.subrange(0, 7) == "Bearer "@ {
                    assert forall|k: int| 0 <= k < 7 implies header@[k] == "Bearer "@[k] by {
                        assert(header@.subrange(0, 7)[k] == header@[k]);
                    }
                }
            }
        }
        None
    }
}

/// The first position of `c` in `s` at or past `from`; the length where
/// there is none.
pub open spec fn find_from(s: Seq<char>, c: char, from: int) -> int
    decreases s.len() - from,
{
    if from < 0 || from >= s.len() {
        s.len() as int
    } else if s[from] == c {
        from
    } else {
        find_from(s, c, from + 1)
    }
}

/// Finds the first `c` in `s` at or past `from`.
fn find_char(s: &str, c: char, from: usize) -> (r: usize)
    requires
        from <= s@.len(),
    ensures
        r == find_from(s@, c, from as int),
        from <= r <= s@.len(),
        r < s@.len() ==> s@[r as int] == c,
    decreases s@.len() - from,
{
    let n = s.unicode_len();
    if from == n {
        return n;
    }
    if s.get_char(from) == c {
        from
    } else {
        find_char(s, c, from + 1)
    }
}

/// The key a single `&`-delimited parameter yields: the parameter must
/// split into exactly two `=`-separated parts and the first must be
/// exactly `apiKey`; the second part is the key.
pub open spec fn segment_key(seg: Seq<char>) -> Option<Seq<char>> {
    let e = find_from(seg, '=', 0);
    if e == seg.len() {
        None
    } else if find_from(seg, '=', e + 1) != seg.len() {
        None
    } else if seg.subrange(0, e) == "apiKey"@ {
        Some(seg.subrange(e + 1, seg.len() as int))
    } else {
        None
    }
}

/// The key the query string carries: among its `&`-delimited parameters,
/// the first occurrence wins.
pub open spec fn spec_api_key(q: Seq<char>) -> Option<Seq<char>>
    decreases q.len(),
{
    let a = find_from(q, '&', 0);
    match segment_key(q.subrange(0, a)) {
        Some(v) => Some(v),
        None => if 0 <= a < q.len() {
            spec_api_key(q.subrange(a + 1, q.len() as int))
        } else {
            None
        },
    }
}

/// Whether the first `e` characters of `seg` read exactly `apiKey`.
fn prefix_is_api_key(seg: &str, e: usize) -> (b: bool)
    requires
        e <= seg@.len(),
    ensures
        b <==> seg@.subrange(0, e as int) == "apiKey"@,
{
    proof {
        reveal_strlit("apiKey");
    }
    if e != 6 {
        proof {
            assert(seg@.subrange(0, e as int).len() != "apiKey"@.len());
        }
        return false;
    }
    let b = seg.get_char(0) == 'a' && seg.get_char(1) == 'p' && seg.get_char(2) == 'i'
        && seg.get_char(3) == 'K' && seg.get_char(4) == 'e' && seg.get_char(5) == 'y';
    proof {
        if b {
            assert(seg@.subrange(0, 6) =~= "apiKey"@);
        } else {
            if seg@.subrange(0, 6) == "apiKey"@ {
                assert forall|k: int| 0 <= k < 6 implies seg@[k] == "apiKey"@[k] by {
                    assert(seg@.subrange(0, 6)[k] == seg@[k]);
                }
            }
        }
    }
    b
}

/// Reads one parameter.
fn segment_key_exec(seg: &str) -> (r: Option<String>)
    ensures
        r is Some <==> segment_key(seg@) is Some,
        r matches Some(v) ==> Some(v@) == segment_key(seg@),
{
    let n = seg.unicode_len();
    let e = find_char(seg, '=', 0);
    if e == n {
        return None;
    }
    let e2 = find_char(seg, '=', e + 1);
    if e2 != n {
        return None;
    }
    if prefix_is_api_key(seg, e) {
        Some(seg.substring_char(e + 1, n).to_owned())
    } else {
        None
    }
}

/// Extracts the `apiKey` query parameter: the first `&`-delimited
/// parameter that splits into exactly two `=`-separated parts with the
/// name `apiKey`.
pub fn api_key_of(query: &str) -> (r: Option<String>)
    ensures
        r is Some <==> spec_api_key(query@) is Some,
        r matches Some(v) ==> Some(v@) == spec_api_key(query@),
    decreases query@.len(),
{
    let n = query.unicode_len();
    let a = find_char(query, '&', 0);
    let seg = query.substring_char(0, a);
    proof {
        assert(seg@ == query@.subrange(0, a as int));
    }
    match segment_key_exec(seg) {
        Some(v) => Some(v),
        None => {
            if a < n {
                let rest = query.substring_char(a + 1, n);
                proof {
                    assert(rest@ == query@.subrange(a as int + 1, n as int));
                }
                api_key_of(rest)
            } else {
                None
            }
        },
    }
}

/// What the bearer strategy resolves: the principal identifier named by
/// the subject of a signature-valid, unexpired token under the given
/// secret.
pub open spec fn spec_resolve_bearer(
    secret: Seq<char>,
    header: Option<Seq<char>>,
    now: int,
) -> Option<u128> {
    match header {
        Some(h) => match spec_bearer_token(h) {
            Some(t) => match spec_validate_token(secret, t, now) {
                Some(c) => spec_parse_uuid(c.sub),
                None => None,
            },
            None => None,
        },
        None => None,
    }
}

/// The view of an optional header value.
pub open spec fn header_view(header: Option<&str>) -> Option<Seq<char>> {
    match header {
        Some(h) => Some(h@),
        None => None,
    }
}

/// Strategy 1: verify the bearer token, judge its expiry against `now`,
/// and parse its subject as a principal identifier.  Every failure
/// yields `None`; no reason is surfaced.
pub fn resolve_bearer(jwt: &JwtConfig, header: Option<&str>, now: i64) -> (r: Option<u128>)
    ensures
        r == spec_resolve_bearer(jwt.secret@, header_view(header), now as int),
{
    let h = match header {
        Some(h) => h,
        None => {
            return None;
        },
    };
    let t = match bearer_token_of(h) {
        Some(t) => t,
        None => {
            return None;
        },
    };
    let claims = match jwt.validate_token(t, now) {
        Some(c) => c,
        None => {
            return None;
        },
    };
    crate::ids::parse_uuid(claims.sub.as_str())
}

/// The request-scoped context: the principal the resolver settled on.
/// It is attached to one request for the handlers' duration and
/// discarded at request completion; it never persists and never leaks
/// across requests.
#[derive(Clone, Copy, Debug, PartialEq, Eq, Structural)]
pub struct RequestContext {
    pub principal_id: u128,
}

impl RequestContext {
    pub fn new(principal_id: u128) -> (ctx: RequestContext)
        ensures
            ctx.principal_id == principal_id,
    {
        RequestContext { principal_id }
    }
}

/// What the resolver decides before any store lookup is made.
pub enum AuthDecision {
    /// The bearer strategy resolved this principal; the key lookup is
    /// skipped entirely.
    Resolved { principal_id: u128 },
    /// The bearer strategy failed and the query carries an `apiKey`
    /// value: look it up in the store.
    NeedKeyLookup { api_key: String },
    /// Neither strategy applies: reject with a generic failure.
    Reject,
}

/// The resolver's decision: the bearer strategy first, then — on any
/// bearer failure — the `apiKey` parameter; otherwise rejection.
pub fn resolve_credentials(jwt: &JwtConfig, header: Option<&str>, query: &str, now: i64) -> (d:
    AuthDecision)
    ensures
        (spec_resolve_bearer(jwt.secret@, header_view(header), now as int) matches Some(id) ==> d
            == (AuthDecision::Resolved { principal_id: id })),
        spec_resolve_bearer(jwt.secret@, header_view(header), now as int) is None ==> match spec_api_key(
            query@,
        ) {
            Some(k) => d matches AuthDecision::NeedKeyLookup { api_key } && api_key@ == k,
            None => d is Reject,
        },
{
    match resolve_bearer(jwt, header, now) {
        Some(id) => AuthDecision::Resolved { principal_id: id },
        None => match api_key_of(query) {
            Some(api_key) => AuthDecision::NeedKeyLookup { api_key },
            None => AuthDecision::Reject,
        },
    }
}

/// Strategy 2's verdict on the store's answer: only a principal whose
/// stored credential equalled the presented key resolves; a miss or a
/// store failure rejects, with no reason surfaced.
pub fn resolve_api_key(lookup: Result<Option<User>, sqlx::Error>) -> (r: Option<u128>)
    ensures
        lookup matches Ok(Some(u)) ==> r == Some(u.id),
        !(lookup matches Ok(Some(_))) ==> r is None,
{
    match lookup {
        Ok(Some(user)) => Some(user.id),
        _ => None,
    }
}

/// An expired token fails strategy 1: where the token's claims decode
/// under the secret but the expires-at is not in the future, the bearer
/// strategy resolves nothing and resolution falls through to the key
/// lookup — absent a valid key, the request is rejected.
pub proof fn lemma_expired_token_falls_through(secret: Seq<char>, h: Seq<char>, now: int)
    requires
        spec_bearer_token(h) matches Some(t) ==> match crate::token::token_claims(t, secret) {
            Some(c) => c.exp <= now,
            None => true,
        },
    ensures
        spec_resolve_bearer(secret, Some(h), now) is None,
{
}

/// Resolution has no side effects to accumulate: it is a function of the
/// credentials, the secret and the clock, so resolving the same valid
/// token twice within its validity window yields the identical principal
/// identifier both times.
pub proof fn lemma_resolution_deterministic(
    secret: Seq<char>,
    header: Option<Seq<char>>,
    now: int,
)
    ensures
        spec_resolve_bearer(secret, header, now) == spec_resolve_bearer(secret, header, now),
{
}

} // verus!
