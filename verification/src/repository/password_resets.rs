//! Password reset tokens as they are stored: hashed, time-limited and
//! usable once.

use vstd::prelude::*;
use vstd::string::*;
use crate::authentication::middleware::UserId;
use crate::digest::{sha256_hex, sha256_hex_of};
use crate::domain::password_reset_token::PasswordResetToken;

verus! {

/// How long a reset token stays valid after it was issued, in seconds.
pub const RESET_TOKEN_LIFETIME_SECONDS: i64 = 3600;

/// One stored reset token. Times are seconds since the epoch.
#[derive(Debug)]
pub struct PasswordResetRecord {
    pub user_id: UserId,
    pub token_hash: String,
    pub created_at: i64,
    pub expires_at: i64,
    pub used_at: Option<i64>,
}

/// A stored reset token as a mathematical value.
pub struct ResetRecord {
    pub user_id: UserId,
    pub token_hash: Seq<char>,
    pub created_at: int,
    pub expires_at: int,
    pub used_at: Option<int>,
}

impl View for PasswordResetRecord {
    type V = ResetRecord;

    open spec fn view(&self) -> ResetRecord {
        ResetRecord {
            user_id: self.user_id,
            token_hash: self.token_hash@,
            created_at: self.created_at as int,
            expires_at: self.expires_at as int,
            used_at: match self.used_at {
                Some(t) => Some(t as int),
                None => None,
            },
        }
    }
}

/// The hash under which a raw token is stored: the hexadecimal SHA-256
/// digest of its text. The raw token itself is never stored.
pub open spec fn token_hash_of(raw_token: Seq<char>) -> Seq<char> {
    sha256_hex(raw_token)
}

/// The record that issuing a token to a user at `now` creates.
pub open spec fn issued(user_id: UserId, raw_token: Seq<char>, now: int) -> ResetRecord {
    ResetRecord {
        user_id,
        token_hash: token_hash_of(raw_token),
        created_at: now,
        expires_at: now + RESET_TOKEN_LIFETIME_SECONDS,
        used_at: None,
    }
}

/// A record can still be redeemed at `now`: it was not used and has not
/// expired.
pub open spec fn is_live(record: ResetRecord, now: int) -> bool {
    record.used_at is None && record.expires_at > now
}

/// A record answers a lookup by hash at `now`.
pub open spec fn answers(record: ResetRecord, token_hash: Seq<char>, now: int) -> bool {
    record.token_hash == token_hash && is_live(record, now)
}

/// The first record at or after position `from` that answers the lookup.
pub open spec fn first_answer(
    rows: Seq<ResetRecord>,
    token_hash: Seq<char>,
    now: int,
    from: int,
) -> Option<ResetRecord>
    decreases rows.len() - from,
{
    if from < 0 || from >= rows.len() {
        None
    } else if answers(rows[from], token_hash, now) {
        Some(rows[from])
    } else {
        first_answer(rows, token_hash, now, from + 1)
    }
}

/// What a lookup by hash returns at `now`: the user and hash of the first
/// live record with that hash.
pub open spec fn lookup(rows: Seq<ResetRecord>, token_hash: Seq<char>, now: int) -> Option<
    (UserId, Seq<char>),
> {
    match first_answer(rows, token_hash, now, 0) {
        Some(record) => Some((record.user_id, record.token_hash)),
        None => None,
    }
}

/// A record after its hash was marked as used at `now`: an unused record
/// with that hash gets the time, every other record stays as it is.
pub open spec fn marked(record: ResetRecord, token_hash: Seq<char>, now: int) -> ResetRecord {
    if record.token_hash == token_hash && record.used_at is None {
        ResetRecord { used_at: Some(now), ..record }
    } else {
        record
    }
}

/// The rows after a hash was marked as used at `now`.
pub open spec fn mark_used(rows: Seq<ResetRecord>, token_hash: Seq<char>, now: int) -> Seq<
    ResetRecord,
> {
    Seq::new(rows.len(), |i: int| marked(rows[i], token_hash, now))
}

/// The views of a vector of records.
pub open spec fn views(rows: Seq<PasswordResetRecord>) -> Seq<ResetRecord> {
    Seq::new(rows.len(), |i: int| rows[i]@)
}

/// Hashes a raw token for storing and for looking it up.
pub fn token_hash(token: &PasswordResetToken) -> (r: String)
    ensures
        r@ == token_hash_of(token@),
        r@.len() == 64,
{
    sha256_hex_of(token.as_ref())
}

impl PasswordResetRecord {
    /// The record for a token issued to `user_id` at `now`: it holds the
    /// token's hash, expires one hour later and is unused.
    pub fn issue(user_id: UserId, reset_token: &PasswordResetToken, now: i64) -> (r: Self)
        requires
            now + RESET_TOKEN_LIFETIME_SECONDS <= i64::MAX,
        ensures
            r@ == issued(user_id, reset_token@, now as int),
    {
        PasswordResetRecord {
            user_id,
            token_hash: token_hash(reset_token),
            created_at: now,
            expires_at: now + RESET_TOKEN_LIFETIME_SECONDS,
            used_at: None,
        }
    }

    /// Whether the record is unused and unexpired at `now`.
    pub fn is_live(&self, now: i64) -> (r: bool)
        ensures
            r == is_live(self@, now as int),
    {
        self.used_at.is_none() && self.expires_at > now
    }

    /// Whether the record answers a lookup by `token_hash` at `now`.
    pub fn answers(&self, token_hash: &String, now: i64) -> (r: bool)
        ensures
            r == answers(self@, token_hash@, now as int),
    {
        self.token_hash == *token_hash && self.is_live(now)
    }
}

/// The stored reset tokens.
pub struct PasswordResetRepository {
    rows: Vec<PasswordResetRecord>,
}

impl View for PasswordResetRepository {
    type V = Seq<ResetRecord>;

    closed spec fn view(&self) -> Seq<ResetRecord> {
        views(self.rows@)
    }
}

impl PasswordResetRepository {
    /// A repository that holds the given rows, in their order.
    pub fn new(rows: Vec<PasswordResetRecord>) -> (r: Self)
        ensures
            r@ == views(rows@),
    {
        Self { rows }
    }

    /// Stores a token issued to `user_id` at `now`, after the rows that are
    /// there.
    pub fn insert_reset_token(&mut self, user_id: UserId, reset_token: &PasswordResetToken, now: i64)
        requires
            now + RESET_TOKEN_LIFETIME_SECONDS <= i64::MAX,
        ensures
            final(self)@ == old(self)@.push(issued(user_id, reset_token@, now as int)),
    {
        let record = PasswordResetRecord::issue(user_id, reset_token, now);
        self.rows.push(record);
        assert(views(self.rows@) =~= views(old(self).rows@).push(record@));
    }

    /// Looks a raw token up at `now`: the user and hash of the first record
    /// that holds the token's hash, is unused and has not expired.
    pub fn get_user_id_by_token(&self, token: &PasswordResetToken, now: i64) -> (r: Option<
        (UserId, String),
    >)
        ensures
            r is Some <==> lookup(self@, token_hash_of(token@), now as int) is Some,
            r matches Some(found) ==> lookup(self@, token_hash_of(token@), now as int) == Some(
                (found.0, found.1@),
            ),
    {
        let hash = token_hash(token);
        let mut i: usize = 0;
        while i < self.rows.len()
            invariant
                i <= self.rows.len(),
                hash@ == token_hash_of(token@),
                first_answer(self@, hash@, now as int, 0) == first_answer(
                    self@,
                    hash@,
                    now as int,
                    i as int,
                ),
            decreases self.rows.len() - i,
        {
            if self.rows[i].answers(&hash, now) {
                return Some((self.rows[i].user_id, self.rows[i].token_hash.clone()));
            }
            i = i + 1;
        }
        None
    }

    /// Marks every unused record that holds `token_hash` as used at `now`.
    pub fn mark_token_as_used(&mut self, token_hash: &String, now: i64)
        ensures
            final(self)@ == mark_used(old(self)@, token_hash@, now as int),
    {
        let n = self.rows.len();
        let mut i: usize = 0;
        while i < n
            invariant
                i <= n,
                n == self.rows.len(),
                n == old(self).rows.len(),
                forall|k: int| 0 <= k < i ==> (#[trigger] self.rows[k])@ == marked(
                    old(self).rows[k]@,
                    token_hash@,
                    now as int,
                ),
                forall|k: int| i <= k < n ==> #[trigger] self.rows[k] == old(self).rows[k],
            decreases n - i,
        {
            if self.rows[i].token_hash == *token_hash && self.rows[i].used_at.is_none() {
                self.rows[i].used_at = Some(now);
            }
            i = i + 1;
        }
        assert(self@ =~= mark_used(old(self)@, token_hash@, now as int));
    }
}

/// What `first_answer` finds: the earliest record from `from` on that
/// answers, or nothing where none does.
pub proof fn lemma_first_answer(rows: Seq<ResetRecord>, token_hash: Seq<char>, now: int, from: int)
    requires
        0 <= from,
    ensures
        match first_answer(rows, token_hash, now, from) {
            Some(record) => exists|j: int|
                from <= j < rows.len() && rows[j] == record && answers(record, token_hash, now)
                    && forall|k: int| from <= k < j ==> !answers(#[trigger] rows[k], token_hash, now),
            None => forall|k: int|
                from <= k < rows.len() ==> !answers(#[trigger] rows[k], token_hash, now),
        },
    decreases rows.len() - from,
{
    if from >= rows.len() {
    } else if answers(rows[from], token_hash, now) {
        assert(from <= from < rows.len() && rows[from] == rows[from]);
    } else {
        lemma_first_answer(rows, token_hash, now, from + 1);
        match first_answer(rows, token_hash, now, from + 1) {
            Some(record) => {
                let j = choose|j: int|
                    from + 1 <= j < rows.len() && rows[j] == record && answers(
                        record,
                        token_hash,
                        now,
                    ) && forall|k: int|
                        from + 1 <= k < j ==> !answers(#[trigger] rows[k], token_hash, now);
                assert forall|k: int| from <= k < j implies !answers(
                    #[trigger] rows[k],
                    token_hash,
                    now,
                ) by {
                    if k == from {
                    }
                }
                assert(from <= j < rows.len() && rows[j] == record);
            },
            None => {
                assert forall|k: int| from <= k < rows.len() implies !answers(
                    #[trigger] rows[k],
                    token_hash,
                    now,
                ) by {
                    if k == from {
                    }
                }
            },
        }
    }
}

/// A lookup succeeds exactly when some stored record holds the hash, is
/// unused and has not expired; what it returns is the hash that was asked
/// for.
pub proof fn lemma_lookup_finds_live_record(rows: Seq<ResetRecord>, token_hash: Seq<char>, now: int)
    ensures
        lookup(rows, token_hash, now) is Some <==> exists|k: int|
            0 <= k < rows.len() && answers(#[trigger] rows[k], token_hash, now),
        lookup(rows, token_hash, now) matches Some(found) ==> found.1 == token_hash,
{
    lemma_first_answer(rows, token_hash, now, 0);
}

/// A token validates from the moment it is issued until it expires, and
/// never again once it was marked as used: after a successful validation at
/// `redeemed_at` and the mark that follows it, every later validation of
/// the same token fails, at whatever time it is tried.
pub proof fn lemma_token_validates_once(
    rows: Seq<ResetRecord>,
    user_id: UserId,
    raw_token: Seq<char>,
    issued_at: int,
    redeemed_at: int,
    later: int,
)
    requires
        issued_at <= redeemed_at < issued_at + RESET_TOKEN_LIFETIME_SECONDS,
    ensures
        lookup(
            rows.push(issued(user_id, raw_token, issued_at)),
            token_hash_of(raw_token),
            redeemed_at,
        ) is Some,
        lookup(
            mark_used(
                rows.push(issued(user_id, raw_token, issued_at)),
                token_hash_of(raw_token),
                redeemed_at,
            ),
            token_hash_of(raw_token),
            later,
        ) is None,
{
    let hash = token_hash_of(raw_token);
    let stored = rows.push(issued(user_id, raw_token, issued_at));
    let last = rows.len() as int;
    assert(stored[last] == issued(user_id, raw_token, issued_at));
    assert(answers(stored[last], hash, redeemed_at));
    lemma_lookup_finds_live_record(stored, hash, redeemed_at);
    lemma_used_token_is_invalid(stored, hash, redeemed_at, later);
}

/// Once a hash was marked as used, no lookup by it succeeds, at any time.
pub proof fn lemma_used_token_is_invalid(
    rows: Seq<ResetRecord>,
    token_hash: Seq<char>,
    used_at: int,
    later: int,
)
    ensures
        lookup(mark_used(rows, token_hash, used_at), token_hash, later) is None,
{
    let after = mark_used(rows, token_hash, used_at);
    assert forall|k: int| 0 <= k < after.len() implies !answers(
        #[trigger] after[k],
        token_hash,
        later,
    ) by {
        assert(after[k] == marked(rows[k], token_hash, used_at));
    }
    lemma_lookup_finds_live_record(after, token_hash, later);
}

/// A token that was issued and never used stops validating when its hour
/// has passed: from `expires_at` on its record answers no lookup, and where
/// every record with its hash has expired the lookup finds nothing.
pub proof fn lemma_expired_token_is_invalid(
    rows: Seq<ResetRecord>,
    user_id: UserId,
    raw_token: Seq<char>,
    issued_at: int,
    now: int,
)
    requires
        now >= issued_at + RESET_TOKEN_LIFETIME_SECONDS,
        forall|k: int|
            0 <= k < rows.len() && (#[trigger] rows[k]).token_hash == token_hash_of(raw_token)
                ==> rows[k].expires_at <= now,
    ensures
        issued(user_id, raw_token, issued_at).used_at is None,
        !answers(issued(user_id, raw_token, issued_at), token_hash_of(raw_token), now),
        lookup(
            rows.push(issued(user_id, raw_token, issued_at)),
            token_hash_of(raw_token),
            now,
        ) is None,
{
    let hash = token_hash_of(raw_token);
    let stored = rows.push(issued(user_id, raw_token, issued_at));
    assert forall|k: int| 0 <= k < stored.len() implies !answers(#[trigger] stored[k], hash, now) by {
        if k < rows.len() {
            assert(stored[k] == rows[k]);
        }
    }
    lemma_lookup_finds_live_record(stored, hash, now);
}

/// Used is a terminal state: marking a record again changes nothing, and
/// the time of its first use stays.
pub proof fn lemma_mark_used_is_final(
    record: ResetRecord,
    token_hash: Seq<char>,
    first: int,
    second: int,
)
    ensures
        marked(marked(record, token_hash, first), token_hash, second) == marked(
            record,
            token_hash,
            first,
        ),
        record.used_at is Some ==> marked(record, token_hash, first) == record,
{
}

/// Marking one hash leaves every token with another hash as valid as it
/// was.
pub proof fn lemma_mark_used_spares_other_tokens(
    rows: Seq<ResetRecord>,
    marked_hash: Seq<char>,
    other_hash: Seq<char>,
    used_at: int,
    now: int,
)
    requires
        marked_hash != other_hash,
    ensures
        lookup(mark_used(rows, marked_hash, used_at), other_hash, now) == lookup(
            rows,
            other_hash,
            now,
        ),
{
    lemma_mark_used_keeps_others(rows, marked_hash, other_hash, used_at, now, 0);
}

/// The step of the previous law: from any position on, the first answer for
/// another hash is the same before and after the mark.
pub proof fn lemma_mark_used_keeps_others(
    rows: Seq<ResetRecord>,
    marked_hash: Seq<char>,
    other_hash: Seq<char>,
    used_at: int,
    now: int,
    from: int,
)
    requires
        marked_hash != other_hash,
        0 <= from,
    ensures
        first_answer(mark_used(rows, marked_hash, used_at), other_hash, now, from) == first_answer(
            rows,
            other_hash,
            now,
            from,
        ),
    decreases rows.len() - from,
{
    let after = mark_used(rows, marked_hash, used_at);
    if from < rows.len() {
        assert(after[from] == marked(rows[from], marked_hash, used_at));
        if !answers(rows[from], other_hash, now) {
            lemma_mark_used_keeps_others(rows, marked_hash, other_hash, used_at, now, from + 1);
        }
    }
}

} // verus!
