//! The record of each keyed request and the decision that it allows.
//!
//! A record is a placeholder while its request is being processed and holds
//! the response once the request is done. A request is processed only where
//! no record of its user and key exists; a finished one is answered from
//! the record. A request that meets the placeholder of another one still in
//! flight is turned away with a conflict.

use vstd::prelude::*;
use vstd::string::*;
use crate::authentication::middleware::UserId;
use crate::idempotency::key::IdempotencyKey;
use crate::text::str_eq;

verus! {

/// One header of a saved response.
#[derive(Debug)]
pub struct HeaderPair {
    pub name: String,
    pub value: Vec<u8>,
}

/// A response as it is kept for replay: status, headers and body.
#[derive(Debug)]
pub struct SavedResponse {
    pub status_code: u16,
    pub headers: Vec<HeaderPair>,
    pub body: Vec<u8>,
}

/// A saved response as a mathematical value.
pub struct Response {
    pub status_code: u16,
    pub headers: Seq<(Seq<char>, Seq<u8>)>,
    pub body: Seq<u8>,
}

impl View for HeaderPair {
    type V = (Seq<char>, Seq<u8>);

    open spec fn view(&self) -> (Seq<char>, Seq<u8>) {
        (self.name@, self.value@)
    }
}

impl View for SavedResponse {
    type V = Response;

    open spec fn view(&self) -> Response {
        Response {
            status_code: self.status_code,
            headers: Seq::new(self.headers@.len(), |i: int| self.headers@[i]@),
            body: self.body@,
        }
    }
}

impl HeaderPair {
    /// A copy with the same name and value.
    pub fn duplicate(&self) -> (r: Self)
        ensures
            r@ == self@,
    {
        let value = self.value.clone();
        assert(value@ =~= self.value@);
        HeaderPair { name: self.name.clone(), value }
    }
}

impl SavedResponse {
    /// A copy with the same status, headers and body.
    pub fn duplicate(&self) -> (r: Self)
        ensures
            r@ == self@,
    {
        let mut headers: Vec<HeaderPair> = Vec::new();
        let mut i: usize = 0;
        while i < self.headers.len()
            invariant
                i <= self.headers.len(),
                headers@.len() == i,
                forall|k: int| 0 <= k < i ==> (#[trigger] headers@[k])@ == self.headers@[k]@,
            decreases self.headers.len() - i,
        {
            headers.push(self.headers[i].duplicate());
            i = i + 1;
        }
        let body = self.body.clone();
        assert(body@ =~= self.body@);
        let r = SavedResponse { status_code: self.status_code, headers, body };
        assert(r@.headers =~= self@.headers);
        r
    }
}

/// One stored record. `response` is `None` while the request is being
/// processed.
#[derive(Debug)]
pub struct IdempotencyRecord {
    pub user_id: UserId,
    pub idempotency_key: String,
    pub response: Option<SavedResponse>,
    pub created_at: i64,
}

/// A stored record as a mathematical value.
pub struct Record {
    pub user_id: UserId,
    pub idempotency_key: Seq<char>,
    pub response: Option<Response>,
    pub created_at: int,
}

impl View for IdempotencyRecord {
    type V = Record;

    open spec fn view(&self) -> Record {
        Record {
            user_id: self.user_id,
            idempotency_key: self.idempotency_key@,
            response: match self.response {
                Some(response) => Some(response@),
                None => None,
            },
            created_at: self.created_at as int,
        }
    }
}

/// What the caller of `try_processing` does next.
#[derive(Debug)]
pub enum NextAction {
    /// No record existed: a placeholder was written, and the protected work
    /// runs now.
    StartProcessing,
    /// The request was processed before: answer with the saved response and
    /// do not run the protected work.
    ReturnSavedResponse(SavedResponse),
}

/// A next action as a mathematical value.
pub enum Action {
    StartProcessing,
    ReturnSavedResponse(Response),
}

impl View for NextAction {
    type V = Action;

    open spec fn view(&self) -> Action {
        match self {
            NextAction::StartProcessing => Action::StartProcessing,
            NextAction::ReturnSavedResponse(response) => Action::ReturnSavedResponse(response@),
        }
    }
}

/// Why a request could not go on.
#[derive(Debug, Clone, Copy, PartialEq, Eq, Structural)]
pub enum IdempotencyError {
    /// Another request with the same user and key is being processed:
    /// answered with 409 Conflict.
    InFlight,
    /// A response was to be saved, but no placeholder of the user and key
    /// is waiting for one.
    NotProcessing,
}

/// A record belongs to a user and key. The key counts per user: the same
/// key of another user is another record.
pub open spec fn is_for(record: Record, user_id: UserId, key: Seq<char>) -> bool {
    record.user_id == user_id && record.idempotency_key == key
}

/// The position of the first record of the user and key at or after `from`.
pub open spec fn position(rows: Seq<Record>, user_id: UserId, key: Seq<char>, from: int) -> Option<
    int,
>
    decreases rows.len() - from,
{
    if from < 0 || from >= rows.len() {
        None
    } else if is_for(rows[from], user_id, key) {
        Some(from)
    } else {
        position(rows, user_id, key, from + 1)
    }
}

/// The record of the user and key, if there is one.
pub open spec fn record_of(rows: Seq<Record>, user_id: UserId, key: Seq<char>) -> Option<Record> {
    match position(rows, user_id, key, 0) {
        Some(i) => Some(rows[i]),
        None => None,
    }
}

/// The placeholder that a first request writes.
pub open spec fn placeholder(user_id: UserId, key: Seq<char>, now: int) -> Record {
    Record { user_id, idempotency_key: key, response: None, created_at: now }
}

/// The decision for a request, given the record of its user and key.
pub open spec fn decision(found: Option<Record>) -> Result<Action, IdempotencyError> {
    match found {
        None => Ok(Action::StartProcessing),
        Some(record) => match record.response {
            Some(response) => Ok(Action::ReturnSavedResponse(response)),
            None => Err(IdempotencyError::InFlight),
        },
    }
}

/// The rows after `try_processing`: a placeholder is added where no record
/// of the user and key existed, and nothing changes otherwise.
pub open spec fn after_try(rows: Seq<Record>, user_id: UserId, key: Seq<char>, now: int) -> Seq<
    Record,
> {
    if record_of(rows, user_id, key) is None {
        rows.push(placeholder(user_id, key, now))
    } else {
        rows
    }
}

/// The rows after `save_response`: the placeholder of the user and key
/// holds the response; where no placeholder waits, nothing changes.
pub open spec fn after_save(rows: Seq<Record>, user_id: UserId, key: Seq<char>, response: Response) -> Seq<
    Record,
> {
    match position(rows, user_id, key, 0) {
        Some(i) => if rows[i].response is None {
            rows.update(i, Record { response: Some(response), ..rows[i] })
        } else {
            rows
        },
        None => rows,
    }
}

/// The rows after a request was abandoned before its response was saved:
/// its placeholder is gone, as if the request had never come.
pub open spec fn after_rollback(rows: Seq<Record>, user_id: UserId, key: Seq<char>) -> Seq<Record> {
    match position(rows, user_id, key, 0) {
        Some(i) => if rows[i].response is None {
            rows.remove(i)
        } else {
            rows
        },
        None => rows,
    }
}

/// The views of a vector of records.
pub open spec fn views(rows: Seq<IdempotencyRecord>) -> Seq<Record> {
    Seq::new(rows.len(), |i: int| rows[i]@)
}

/// Decides from what the storage layer reported: whether the placeholder
/// was inserted, and, where it was not, the saved response that was found.
pub fn next_action(inserted: bool, saved: Option<SavedResponse>) -> (r: Result<
    NextAction,
    IdempotencyError,
>)
    ensures
        inserted ==> r matches Ok(NextAction::StartProcessing),
        !inserted ==> match saved {
            Some(response) => r matches Ok(NextAction::ReturnSavedResponse(replayed))
                && replayed@ == response@,
            None => r == Err::<NextAction, IdempotencyError>(IdempotencyError::InFlight),
        },
{
    if inserted {
        Ok(NextAction::StartProcessing)
    } else {
        match saved {
            Some(response) => Ok(NextAction::ReturnSavedResponse(response)),
            None => Err(IdempotencyError::InFlight),
        }
    }
}

/// The idempotency records.
pub struct IdempotencyStore {
    rows: Vec<IdempotencyRecord>,
}

impl View for IdempotencyStore {
    type V = Seq<Record>;

    closed spec fn view(&self) -> Seq<Record> {
        views(self.rows@)
    }
}

impl IdempotencyStore {
    /// A store without records.
    pub fn new() -> (r: Self)
        ensures
            r@ == Seq::<Record>::empty(),
    {
        let r = Self { rows: Vec::new() };
        assert(r@ =~= Seq::<Record>::empty());
        r
    }

    /// The number of records.
    pub fn len(&self) -> (r: usize)
        ensures
            r == self@.len(),
    {
        self.rows.len()
    }

    /// The position of the record of the user and key.
    fn find(&self, user_id: UserId, key: &str) -> (r: Option<usize>)
        ensures
            match r {
                Some(i) => position(self@, user_id, key@, 0) == Some(i as int) && i < self.rows.len()
                    && is_for(self.rows[i as int]@, user_id, key@),
                None => position(self@, user_id, key@, 0) is None,
            },
    {
        let mut i: usize = 0;
        while i < self.rows.len()
            invariant
                i <= self.rows.len(),
                position(self@, user_id, key@, 0) == position(self@, user_id, key@, i as int),
            decreases self.rows.len() - i,
        {
            if self.rows[i].user_id == user_id && str_eq(self.rows[i].idempotency_key.as_str(), key) {
                return Some(i);
            }
            i = i + 1;
        }
        None
    }
}

/// Starts a request or replays it. Where the user and key have no record, a
/// placeholder is written and the answer is `StartProcessing`; where the
/// record holds a response, the answer is that response and nothing is
/// written; where the record is a placeholder, the request is turned away
/// and nothing is written.
pub fn try_processing(
    store: &mut IdempotencyStore,
    idempotency_key: &IdempotencyKey,
    user_id: UserId,
    now: i64,
) -> (r: Result<NextAction, IdempotencyError>)
    ensures
        final(store)@ == after_try(old(store)@, user_id, idempotency_key@, now as int),
        match r {
            Ok(action) => decision(record_of(old(store)@, user_id, idempotency_key@)) == Ok::<
                Action,
                IdempotencyError,
            >(action@),
            Err(e) => decision(record_of(old(store)@, user_id, idempotency_key@)) == Err::<
                Action,
                IdempotencyError,
            >(e),
        },
{
    let found = store.find(user_id, idempotency_key.as_ref());
    match found {
        None => {
            let mut key = String::new();
            key.append(idempotency_key.as_ref());
            assert(key@ =~= idempotency_key@);
            let record = IdempotencyRecord {
                user_id,
                idempotency_key: key,
                response: None,
                created_at: now,
            };
            store.rows.push(record);
            assert(store@ =~= old(store)@.push(
                placeholder(user_id, idempotency_key@, now as int),
            ));
            next_action(true, None)
        },
        Some(i) => {
            let saved = match &store.rows[i].response {
                Some(response) => Some(response.duplicate()),
                None => None,
            };
            next_action(false, saved)
        },
    }
}

/// Saves the response of a request that was started, and hands it back.
/// The placeholder of the user and key becomes the finished record. Where
/// no placeholder waits, nothing is written and the call fails: a finished
/// record never changes.
pub fn save_response(
    store: &mut IdempotencyStore,
    idempotency_key: &IdempotencyKey,
    user_id: UserId,
    response: SavedResponse,
) -> (r: Result<SavedResponse, IdempotencyError>)
    ensures
        final(store)@ == after_save(old(store)@, user_id, idempotency_key@, response@),
        r is Ok <==> (record_of(old(store)@, user_id, idempotency_key@) matches Some(record)
            && record.response is None),
        r matches Ok(returned) ==> returned@ == response@,
        r matches Err(e) ==> e == IdempotencyError::NotProcessing,
{
    let found = store.find(user_id, idempotency_key.as_ref());
    match found {
        Some(i) => {
            if store.rows[i].response.is_none() {
                let kept = response.duplicate();
                store.rows[i].response = Some(kept);
                assert(store@ =~= after_save(old(store)@, user_id, idempotency_key@, response@));
                Ok(response)
            } else {
                Err(IdempotencyError::NotProcessing)
            }
        },
        None => Err(IdempotencyError::NotProcessing),
    }
}

/// Abandons a request that was started: its placeholder is removed, so that
/// a retry starts afresh. A finished record stays.
pub fn rollback(store: &mut IdempotencyStore, idempotency_key: &IdempotencyKey, user_id: UserId)
    ensures
        final(store)@ == after_rollback(old(store)@, user_id, idempotency_key@),
{
    let found = store.find(user_id, idempotency_key.as_ref());
    match found {
        Some(i) => {
            if store.rows[i].response.is_none() {
                let _ = store.rows.remove(i);
                assert(store@ =~= after_rollback(old(store)@, user_id, idempotency_key@));
            }
        },
        None => {},
    }
}

/// What `position` finds: the earliest record of the user and key from
/// `from` on, or nothing where there is none.
pub proof fn lemma_position(rows: Seq<Record>, user_id: UserId, key: Seq<char>, from: int)
    requires
        0 <= from,
    ensures
        match position(rows, user_id, key, from) {
            Some(i) => from <= i < rows.len() && is_for(rows[i], user_id, key) && forall|k: int|
                from <= k < i ==> !is_for(#[trigger] rows[k], user_id, key),
            None => forall|k: int| from <= k < rows.len() ==> !is_for(#[trigger] rows[k], user_id, key),
        },
    decreases rows.len() - from,
{
    if from < rows.len() && !is_for(rows[from], user_id, key) {
        lemma_position(rows, user_id, key, from + 1);
        match position(rows, user_id, key, from + 1) {
            Some(i) => {
                assert forall|k: int| from <= k < i implies !is_for(
                    #[trigger] rows[k],
                    user_id,
                    key,
                ) by {
                    if k == from {
                    }
                }
            },
            None => {
                assert forall|k: int| from <= k < rows.len() implies !is_for(
                    #[trigger] rows[k],
                    user_id,
                    key,
                ) by {
                    if k == from {
                    }
                }
            },
        }
    }
}

/// The position of the first record of a user and key is the one index
/// that holds such a record with none before it.
pub proof fn lemma_position_is(rows: Seq<Record>, user_id: UserId, key: Seq<char>, i: int)
    requires
        0 <= i < rows.len(),
        is_for(rows[i], user_id, key),
        forall|k: int| 0 <= k < i ==> !is_for(#[trigger] rows[k], user_id, key),
    ensures
        position(rows, user_id, key, 0) == Some(i),
{
    lemma_position(rows, user_id, key, 0);
}

/// No two records have the same user and key.
pub open spec fn keyed_uniquely(rows: Seq<Record>) -> bool {
    forall|i: int, j: int|
        0 <= i < j < rows.len() ==> !is_for(
            #[trigger] rows[j],
            (#[trigger] rows[i]).user_id,
            rows[i].idempotency_key,
        )
}

/// The three operations keep the records unique by user and key.
pub proof fn lemma_uniqueness_is_kept(
    rows: Seq<Record>,
    user_id: UserId,
    key: Seq<char>,
    response: Response,
    now: int,
)
    requires
        keyed_uniquely(rows),
    ensures
        keyed_uniquely(after_try(rows, user_id, key, now)),
        keyed_uniquely(after_save(rows, user_id, key, response)),
        keyed_uniquely(after_rollback(rows, user_id, key)),
{
    lemma_position(rows, user_id, key, 0);
    let tried = after_try(rows, user_id, key, now);
    assert forall|i: int, j: int| 0 <= i < j < tried.len() implies !is_for(
        #[trigger] tried[j],
        (#[trigger] tried[i]).user_id,
        tried[i].idempotency_key,
    ) by {
        if j < rows.len() {
            assert(tried[i] == rows[i] && tried[j] == rows[j]);
        } else {
            assert(tried[i] == rows[i]);
            assert(!is_for(rows[i], user_id, key));
        }
    }
    let saved = after_save(rows, user_id, key, response);
    assert forall|i: int, j: int| 0 <= i < j < saved.len() implies !is_for(
        #[trigger] saved[j],
        (#[trigger] saved[i]).user_id,
        saved[i].idempotency_key,
    ) by {
        assert(saved[i].user_id == rows[i].user_id && saved[i].idempotency_key
            == rows[i].idempotency_key);
        assert(saved[j].user_id == rows[j].user_id && saved[j].idempotency_key
            == rows[j].idempotency_key);
        assert(!is_for(rows[j], rows[i].user_id, rows[i].idempotency_key));
    }
    let rolled = after_rollback(rows, user_id, key);
    assert forall|i: int, j: int| 0 <= i < j < rolled.len() implies !is_for(
        #[trigger] rolled[j],
        (#[trigger] rolled[i]).user_id,
        rolled[i].idempotency_key,
    ) by {
        if rolled.len() == rows.len() {
            assert(rolled == rows);
        } else {
            let p = position(rows, user_id, key, 0)->0;
            let oi = if i < p { i } else { i + 1 };
            let oj = if j < p { j } else { j + 1 };
            assert(rolled[i] == rows[oi] && rolled[j] == rows[oj]);
            assert(!is_for(rows[oj], rows[oi].user_id, rows[oi].idempotency_key));
        }
    }
}

/// A request that runs to its end is processed once and replayed ever
/// after. Where the user and key have no record, the first call starts the
/// processing; once the response is saved, every later call with the same
/// user and key gets that same response, is not told to process again, and
/// writes nothing.
pub proof fn lemma_completed_request_is_replayed(
    rows: Seq<Record>,
    user_id: UserId,
    key: Seq<char>,
    response: Response,
    first: int,
    later: int,
)
    requires
        record_of(rows, user_id, key) is None,
    ensures
        decision(record_of(rows, user_id, key)) == Ok::<Action, IdempotencyError>(
            Action::StartProcessing,
        ),
        ({
            let done = after_save(after_try(rows, user_id, key, first), user_id, key, response);
            &&& decision(record_of(done, user_id, key)) == Ok::<Action, IdempotencyError>(
                Action::ReturnSavedResponse(response),
            )
            &&& after_try(done, user_id, key, later) == done
        }),
{
    lemma_position(rows, user_id, key, 0);
    let started = after_try(rows, user_id, key, first);
    let last = rows.len() as int;
    assert(started[last] == placeholder(user_id, key, first));
    assert forall|k: int| 0 <= k < last implies !is_for(#[trigger] started[k], user_id, key) by {
        assert(started[k] == rows[k]);
    }
    lemma_position_is(started, user_id, key, last);
    let done = after_save(started, user_id, key, response);
    assert(done[last].response == Some(response));
    assert forall|k: int| 0 <= k < last implies !is_for(#[trigger] done[k], user_id, key) by {
        assert(done[k] == rows[k]);
    }
    lemma_position_is(done, user_id, key, last);
}

/// A request that is still being processed blocks a second one with the
/// same user and key: the second is turned away and writes nothing.
pub proof fn lemma_request_in_flight_is_turned_away(
    rows: Seq<Record>,
    user_id: UserId,
    key: Seq<char>,
    first: int,
    second: int,
)
    requires
        record_of(rows, user_id, key) is None,
    ensures
        ({
            let started = after_try(rows, user_id, key, first);
            &&& decision(record_of(started, user_id, key)) == Err::<Action, IdempotencyError>(
                IdempotencyError::InFlight,
            )
            &&& after_try(started, user_id, key, second) == started
        }),
{
    lemma_position(rows, user_id, key, 0);
    let started = after_try(rows, user_id, key, first);
    let last = rows.len() as int;
    assert(started[last] == placeholder(user_id, key, first));
    assert forall|k: int| 0 <= k < last implies !is_for(#[trigger] started[k], user_id, key) by {
        assert(started[k] == rows[k]);
    }
    lemma_position_is(started, user_id, key, last);
}

/// A request that is abandoned before its response is saved leaves no
/// trace: the records are those from before it started.
pub proof fn lemma_abandoned_request_leaves_no_trace(
    rows: Seq<Record>,
    user_id: UserId,
    key: Seq<char>,
    now: int,
)
    requires
        record_of(rows, user_id, key) is None,
    ensures
        after_rollback(after_try(rows, user_id, key, now), user_id, key) == rows,
{
    lemma_position(rows, user_id, key, 0);
    let started = after_try(rows, user_id, key, now);
    let last = rows.len() as int;
    assert(started[last] == placeholder(user_id, key, now));
    assert forall|k: int| 0 <= k < last implies !is_for(#[trigger] started[k], user_id, key) by {
        assert(started[k] == rows[k]);
    }
    lemma_position_is(started, user_id, key, last);
    assert(started.remove(last) =~= rows);
}

/// A finished record never changes: no operation on its user and key
/// touches the records.
pub proof fn lemma_finished_record_is_final(
    rows: Seq<Record>,
    user_id: UserId,
    key: Seq<char>,
    response: Response,
    now: int,
)
    requires
        record_of(rows, user_id, key) matches Some(record) && record.response is Some,
    ensures
        after_try(rows, user_id, key, now) == rows,
        after_save(rows, user_id, key, response) == rows,
        after_rollback(rows, user_id, key) == rows,
{
}

/// Keys count per user: what one user does under a key changes nothing for
/// another user with the same key, nor for the same user with another key.
pub proof fn lemma_keys_are_scoped_per_user(
    rows: Seq<Record>,
    user_id: UserId,
    key: Seq<char>,
    other_user: UserId,
    other_key: Seq<char>,
    response: Response,
    now: int,
)
    requires
        user_id != other_user || key != other_key,
    ensures
        record_of(after_try(rows, user_id, key, now), other_user, other_key) == record_of(
            rows,
            other_user,
            other_key,
        ),
        record_of(after_save(rows, user_id, key, response), other_user, other_key) == record_of(
            rows,
            other_user,
            other_key,
        ),
{
    lemma_position(rows, other_user, other_key, 0);
    lemma_position(rows, user_id, key, 0);
    let tried = after_try(rows, user_id, key, now);
    lemma_position(tried, other_user, other_key, 0);
    match position(rows, other_user, other_key, 0) {
        Some(i) => {
            assert(tried[i] == rows[i]);
            assert forall|k: int| 0 <= k < i implies !is_for(
                #[trigger] tried[k],
                other_user,
                other_key,
            ) by {
                assert(tried[k] == rows[k]);
            }
            lemma_position_is(tried, other_user, other_key, i);
        },
        None => {
            assert forall|k: int| 0 <= k < tried.len() implies !is_for(
                #[trigger] tried[k],
                other_user,
                other_key,
            ) by {
                if k < rows.len() {
                    assert(tried[k] == rows[k]);
                }
            }
        },
    }
    let saved = after_save(rows, user_id, key, response);
    lemma_position(saved, other_user, other_key, 0);
    assert(saved.len() == rows.len());
    assert forall|k: int| 0 <= k < rows.len() implies is_for(
        #[trigger] saved[k],
        other_user,
        other_key,
    ) == is_for(rows[k], other_user, other_key) by {}
    match position(rows, other_user, other_key, 0) {
        Some(i) => {
            assert(!is_for(rows[i], user_id, key));
            assert(saved[i] == rows[i]);
            assert forall|k: int| 0 <= k < i implies !is_for(
                #[trigger] saved[k],
                other_user,
                other_key,
            ) by {
                assert(is_for(saved[k], other_user, other_key) == is_for(
                    rows[k],
                    other_user,
                    other_key,
                ));
            }
            lemma_position_is(saved, other_user, other_key, i);
        },
        None => {
            assert forall|k: int| 0 <= k < saved.len() implies !is_for(
                #[trigger] saved[k],
                other_user,
                other_key,
            ) by {
                assert(is_for(saved[k], other_user, other_key) == is_for(
                    rows[k],
                    other_user,
                    other_key,
                ));
            }
        },
    }
}

} // verus!
