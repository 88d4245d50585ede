//! The rules of API keys: how a key is issued, how a presented key is judged, and how
//! an `Authorization` header is read. The rows themselves live in an embedded database
//! that the caller queries; what a query returns is handed in here.

use vstd::prelude::*;

verus! {

/// How long an API key stays valid after issuance, in seconds (365 days).
pub const KEY_LIFETIME_SECS: i64 = 31536000;

/// The result of checking a prefix and a token.
#[derive(PartialEq, Eq, Structural, Clone, Copy, Debug)]
pub enum AuthCheckResult {
    /// The prefix exists, the token matches, and the key has not expired.
    Valid,
    /// No row holds this prefix with this token.
    NoPrefixOrKeyFound,
    /// The key has expired.
    ExpiredKey,
}

/// An API key as stored: times are Unix seconds.
pub struct KeyEntry {
    pub prefix: String,
    pub token: String,
    pub created_at: i64,
    pub expires_at: i64,
    pub description: Option<String>,
}

/// A character that a key part may hold: a lowercase hex digit or `-`.
pub open spec fn is_key_char(c: char) -> bool {
    ('0' <= c && c <= '9') || ('a' <= c && c <= 'f') || c == '-'
}

/// A key part: a hyphenated, lowercase UUID, 36 characters long.
pub open spec fn is_key_part(s: Seq<char>) -> bool {
    &&& s.len() == 36
    &&& forall|i: int| 0 <= i < 36 ==> is_key_char(#[trigger] s[i])
    &&& s[8] == '-' && s[13] == '-' && s[18] == '-' && s[23] == '-'
}

/// The credential handed to a client: prefix, `#`, token.
pub open spec fn credential_text(prefix: Seq<char>, token: Seq<char>) -> Seq<char> {
    prefix + seq!['#'] + token
}

/// The outcome of a lookup that found rows with these expiry times (the last one counts).
pub open spec fn outcome_of_rows(expirations: Seq<i64>, now: i64) -> AuthCheckResult {
    if expirations.len() == 0 {
        AuthCheckResult::NoPrefixOrKeyFound
    } else if expirations.last() < now {
        AuthCheckResult::ExpiredKey
    } else {
        AuthCheckResult::Valid
    }
}

/// A key table: each prefix with its token and expiry time.
pub type KeyTable = Map<Seq<char>, (Seq<char>, i64)>;

/// The expiry times of the rows of `table` that hold both `prefix` and `token`.
pub open spec fn matching_rows(table: KeyTable, prefix: Seq<char>, token: Seq<char>) -> Seq<i64> {
    if table.contains_key(prefix) && table[prefix].0 == token {
        seq![table[prefix].1]
    } else {
        Seq::empty()
    }
}

/// What checking `prefix` and `token` against `table` at time `now` gives.
pub open spec fn validate(table: KeyTable, prefix: Seq<char>, token: Seq<char>, now: i64) -> AuthCheckResult {
    outcome_of_rows(matching_rows(table, prefix, token), now)
}

/// Relies on `uuid::Uuid::new_v4` and its `Display`: a random UUID, written as 36 lowercase
/// hex digits and hyphens, the hyphens at indices 8, 13, 18 and 23.
#[verifier::external_body]
fn fresh_key_part() -> (r: String)
    ensures
        is_key_part(r@),
{
    uuid::Uuid::new_v4().to_string()
}

/// Relies on `chrono::Utc::now` and `DateTime::timestamp`: the current time in Unix seconds.
#[verifier::external_body]
fn now_unix_secs() -> (r: i64) {
    chrono::Utc::now().timestamp()
}

/// Whether a key issued at `created_at` has an expiry time that fits in an `i64`.
pub open spec fn issuable_at(created_at: i64) -> bool {
    created_at <= i64::MAX - KEY_LIFETIME_SECS
}

/// Builds the row for a new key issued at `created_at`: it expires `KEY_LIFETIME_SECS`
/// later. `None` exactly when that expiry time would not fit.
pub fn issue_entry(prefix: String, token: String, created_at: i64, description: Option<String>) -> (r: Option<KeyEntry>)
    ensures
        r is None <==> !issuable_at(created_at),
        r matches Some(e) ==> {
            &&& e.prefix@ == prefix@
            &&& e.token@ == token@
            &&& e.created_at == created_at
            &&& e.expires_at == created_at + KEY_LIFETIME_SECS
            &&& e.description == description
        },
{
    if created_at > i64::MAX - KEY_LIFETIME_SECS {
        return None;
    }
    Some(
        KeyEntry {
            prefix,
            token,
            created_at,
            expires_at: created_at + KEY_LIFETIME_SECS,
            description,
        },
    )
}

/// A new key with fresh random prefix and token, created now. The only error is a clock
/// that reads a time so late that the expiry time would not fit; it carries that reading.
pub fn new_key_entry(description: Option<String>) -> (r: Result<KeyEntry, i64>)
    ensures
        r matches Ok(e) ==> {
            &&& is_key_part(e.prefix@)
            &&& is_key_part(e.token@)
            &&& issuable_at(e.created_at)
            &&& e.expires_at == e.created_at + KEY_LIFETIME_SECS
            &&& e.description == description
        },
        r matches Err(now) ==> !issuable_at(now),
{
    let prefix = fresh_key_part();
    let token = fresh_key_part();
    let now = now_unix_secs();
    match issue_entry(prefix, token, now, description) {
        Some(e) => Ok(e),
        None => Err(now),
    }
}

/// The credential for a key: `prefix#token`.
pub fn format_api_key(entry: &KeyEntry) -> (r: String)
    ensures
        r@ == credential_text(entry.prefix@, entry.token@),
{
    let mut r = entry.prefix.clone();
    r.append("#");
    r.append(entry.token.as_str());
    proof {
        reveal_strlit("#");
    }
    assert(r@ =~= credential_text(entry.prefix@, entry.token@));
    r
}

/// Judges a presented key from the expiry times of the rows that hold its prefix and token:
/// no row means the prefix or token is unknown, one that expired before `now` means the key
/// has expired.
pub fn check_key_result(expirations: &Vec<i64>, now: i64) -> (r: AuthCheckResult)
    ensures
        r == outcome_of_rows(expirations@, now),
{
    if expirations.len() == 0 {
        return AuthCheckResult::NoPrefixOrKeyFound;
    }
    let expires_at = expirations[expirations.len() - 1];
    if expires_at < now {
        AuthCheckResult::ExpiredKey
    } else {
        AuthCheckResult::Valid
    }
}

/// Whether an update or a delete that touched `changed` rows did its work: exactly one row.
pub fn single_row_changed(changed: usize) -> (r: bool)
    ensures
        r == (changed == 1),
{
    changed == 1
}

/// A credential built from two key parts is 73 characters long, holds its only `#` at
/// index 36, and gives its prefix and token back around that `#`.
pub proof fn lemma_credential_shape(prefix: Seq<char>, token: Seq<char>)
    requires
        is_key_part(prefix),
        is_key_part(token),
    ensures
        credential_text(prefix, token).len() == 73,
        credential_text(prefix, token)[36] == '#',
        forall|i: int| 0 <= i < 73 && i != 36 ==> #[trigger] credential_text(prefix, token)[i] != '#',
        credential_text(prefix, token).take(36) == prefix,
        credential_text(prefix, token).skip(37) == token,
{
    let c = credential_text(prefix, token);
    assert forall|i: int| 0 <= i < 73 && i != 36 implies #[trigger] c[i] != '#' by {
        if i < 36 {
            assert(c[i] == prefix[i]);
            assert(is_key_char(prefix[i]));
        } else {
            assert(c[i] == token[i - 37]);
            assert(is_key_char(token[i - 37]));
        }
    }
    assert(c.take(36) =~= prefix);
    assert(c.skip(37) =~= token);
}

/// A key is valid from its issuance until it expires.
pub proof fn lemma_issued_key_valid(table: KeyTable, e_prefix: Seq<char>, e_token: Seq<char>, created_at: i64, now: i64)
    requires
        issuable_at(created_at),
        created_at <= now <= created_at + KEY_LIFETIME_SECS,
    ensures
        validate(
            table.insert(e_prefix, (e_token, (created_at + KEY_LIFETIME_SECS) as i64)),
            e_prefix,
            e_token,
            now,
        ) == AuthCheckResult::Valid,
{
}

/// Once its row is deleted, a key is unknown, whatever the token.
pub proof fn lemma_deleted_key_unknown(table: KeyTable, prefix: Seq<char>, token: Seq<char>, now: i64)
    ensures
        validate(table.remove(prefix), prefix, token, now) == AuthCheckResult::NoPrefixOrKeyFound,
{
}

/// A key whose expiry time is before `now` has expired.
pub proof fn lemma_expired_key(table: KeyTable, prefix: Seq<char>, token: Seq<char>, now: i64)
    requires
        table.contains_key(prefix),
        table[prefix].0 == token,
        table[prefix].1 < now,
    ensures
        validate(table, prefix, token, now) == AuthCheckResult::ExpiredKey,
{
}

/// A key issued more than `KEY_LIFETIME_SECS` before `now` has expired.
pub proof fn lemma_issued_key_expires(table: KeyTable, prefix: Seq<char>, token: Seq<char>, created_at: i64, now: i64)
    requires
        issuable_at(created_at),
        created_at + KEY_LIFETIME_SECS < now,
    ensures
        validate(
            table.insert(prefix, (token, (created_at + KEY_LIFETIME_SECS) as i64)),
            prefix,
            token,
            now,
        ) == AuthCheckResult::ExpiredKey,
{
}

/// A wrong token gives the same answer as an unknown prefix.
pub proof fn lemma_wrong_token_unknown(table: KeyTable, prefix: Seq<char>, token: Seq<char>, now: i64)
    requires
        table.contains_key(prefix),
        table[prefix].0 != token,
    ensures
        validate(table, prefix, token, now) == AuthCheckResult::NoPrefixOrKeyFound,
        validate(table, prefix, token, now) == validate(table.remove(prefix), prefix, token, now),
{
}

// ---------------------------------------------------------------- bearer header

/// Why an `Authorization` header was refused before any lookup.
#[derive(PartialEq, Eq, Structural, Clone, Copy, Debug)]
pub enum BearerError {
    /// No header, or one that does not start with `Bearer `.
    MissingToken,
    /// The token holds no `#`.
    MissingSeparator,
}

pub open spec fn bearer_prefix() -> Seq<char> {
    seq!['B', 'e', 'a', 'r', 'e', 'r', ' ']
}

/// The index of the first `c` in `s`, if any.
pub open spec fn first_index_of(s: Seq<char>, c: char) -> Option<int> {
    if exists|k: int| 0 <= k < s.len() && s[k] == c {
        Some(choose|k: int| 0 <= k < s.len() && s[k] == c && forall|j: int| 0 <= j < k ==> s[j] != c)
    } else {
        None
    }
}

/// What an `Authorization` header gives: the prefix and the token around the first `#` of
/// what follows `Bearer `.
pub open spec fn bearer_parts(header: Option<Seq<char>>) -> Result<(Seq<char>, Seq<char>), BearerError> {
    match header {
        None => Err(BearerError::MissingToken),
        Some(h) => {
            if h.len() < 7 || h.take(7) != bearer_prefix() {
                Err(BearerError::MissingToken)
            } else {
                let t = h.skip(7);
                match first_index_of(t, '#') {
                    None => Err(BearerError::MissingSeparator),
                    Some(k) => Ok((t.take(k), t.skip(k + 1))),
                }
            }
        },
    }
}

proof fn lemma_first_index(s: Seq<char>, c: char, k: int)
    requires
        0 <= k < s.len(),
        s[k] == c,
        forall|j: int| 0 <= j < k ==> s[j] != c,
    ensures
        first_index_of(s, c) == Some(k),
{
    let w = choose|w: int| 0 <= w < s.len() && s[w] == c && forall|j: int| 0 <= j < w ==> s[j] != c;
    assert(0 <= w < s.len() && s[w] == c && forall|j: int| 0 <= j < w ==> s[j] != c);
    if w < k {
        assert(s[w] != c);
    } else if w > k {
        assert(s[k] != c);
    }
}

fn starts_with_bearer(h: &str) -> (r: bool)
    ensures
        r == (h@.len() >= 7 && h@.take(7) == bearer_prefix()),
{
    let n = h.unicode_len();
    if n < 7 {
        return false;
    }
    proof {
        reveal_strlit("Bearer ");
    }
    let expected = "Bearer ";
    assert(expected@ == bearer_prefix());
    let mut i: usize = 0;
    while i < 7
        invariant
            n == h@.len(),
            n >= 7,
            i <= 7,
            expected@ == bearer_prefix(),
            forall|j: int| 0 <= j < i ==> h@[j] == bearer_prefix()[j],
        decreases 7 - i,
    {
        if h.get_char(i) != expected.get_char(i) {
            assert(h@.take(7)[i as int] != bearer_prefix()[i as int]);
            return false;
        }
        i = i + 1;
    }
    assert(h@.take(7) =~= bearer_prefix());
    true
}

/// The index of the first `c` in `s`.
fn find_char(s: &str, c: char) -> (r: Option<usize>)
    ensures
        match r {
            Some(k) => k < s@.len() && first_index_of(s@, c) == Some(k as int),
            None => first_index_of(s@, c) is None,
        },
{
    let n = s.unicode_len();
    let mut k: usize = 0;
    while k < n
        invariant
            n == s@.len(),
            k <= n,
            forall|j: int| 0 <= j < k ==> s@[j] != c,
        decreases n - k,
    {
        if s.get_char(k) == c {
            proof {
                lemma_first_index(s@, c, k as int);
            }
            return Some(k);
        }
        k = k + 1;
    }
    None
}

/// Reads the prefix and the token out of an `Authorization` header (`None` when the request
/// has none, or one that is not text).
pub fn parse_bearer(header: Option<&str>) -> (r: Result<(String, String), BearerError>)
    ensures
        match (r, bearer_parts(
            match header {
                Some(h) => Some(h@),
                None => None,
            },
        )) {
            (Ok((p, t)), Ok((sp, st))) => p@ == sp && t@ == st,
            (Err(e), Err(se)) => e == se,
            _ => false,
        },
{
    let h = match header {
        None => {
            return Err(BearerError::MissingToken);
        },
        Some(h) => h,
    };
    if !starts_with_bearer(h) {
        return Err(BearerError::MissingToken);
    }
    let n = h.unicode_len();
    let t = h.substring_char(7, n);
    assert(t@ =~= h@.skip(7));
    match find_char(t, '#') {
        None => Err(BearerError::MissingSeparator),
        Some(k) => {
            let m = t.unicode_len();
            let prefix = t.substring_char(0, k);
            let token = t.substring_char(k + 1, m);
            assert(prefix@ =~= t@.take(k as int));
            assert(token@ =~= t@.skip(k + 1));
            Ok((String::from_str(prefix), String::from_str(token)))
        },
    }
}

} // verus!
