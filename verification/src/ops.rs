//! The five operations. Each builds its request, hands it to the function
//! that carries a request to the store, and returns what the store answered.

use vstd::prelude::*;

use crate::entry::KVPair;
use crate::payload::{base64_decoded, decoded_as, PayloadError};
use crate::request::{
    delete_plan, delete_request, get_plan, get_request, lock_plan, lock_request, put_plan,
    put_request, LockAction, Request, WriteRequest,
};
use crate::wire::KVResult;

verus! {

/// Why a lock operation returned no answer of the store.
#[derive(Debug, PartialEq, Eq)]
pub enum LockError<F> {
    /// The entry names no session. Nothing was sent.
    SessionRequired(LockAction),
    /// The request failed on its way; the failure is passed on as it came.
    Transport(F),
}

/// Why `get` returned no entry.
#[derive(Debug, PartialEq, Eq)]
pub enum GetError<F, P> {
    /// The request failed on its way; the failure is passed on as it came.
    Transport(F),
    /// The store answered with a record that does not decode.
    Payload(PayloadError<P>),
}

/// Text of a missing-session error.
pub open spec fn session_required_text(action: LockAction) -> Seq<char> {
    match action {
        LockAction::Acquire => "session required to acquire lock"@,
        LockAction::Release => "session required to release lock"@,
    }
}

/// The message of a missing-session error.
pub fn session_required_message(action: LockAction) -> (text: &'static str)
    ensures
        text@ == session_required_text(action),
{
    match action {
        LockAction::Acquire => "session required to acquire lock",
        LockAction::Release => "session required to release lock",
    }
}

/// What `get` makes of the records that the store returned: no record is an
/// absent key and no error; otherwise the first record is decoded and every
/// further one ignored.
pub open spec fn read_as<T, P, D: FnOnce(&str) -> Result<T, P>>(
    records: Seq<KVResult>,
    parse: D,
    r: Result<Option<KVPair<T>>, PayloadError<P>>,
) -> bool {
    if records.len() == 0 {
        r == Ok::<Option<KVPair<T>>, PayloadError<P>>(None)
    } else {
        match r {
            Ok(Some(pair)) => decoded_as(
                records[0]@,
                base64_decoded(records[0]@.value),
                parse,
                Ok(pair),
            ),
            Ok(None) => false,
            Err(e) => decoded_as(
                records[0]@,
                base64_decoded(records[0]@.value),
                parse,
                Err::<KVPair<T>, PayloadError<P>>(e),
            ),
        }
    }
}

/// Reads the answer to a `get`: the entry of the first record, or `None`
/// where the store returned no record.
pub fn first_entry<T, P, D: FnOnce(&str) -> Result<T, P>>(
    records: Vec<KVResult>,
    parse: D,
) -> (r: Result<Option<KVPair<T>>, PayloadError<P>>)
    requires
        forall|s: &str| parse.requires((s,)),
    ensures
        read_as(records@, parse, r),
        records@.len() == 0 ==> r == Ok::<Option<KVPair<T>>, PayloadError<P>>(None),
{
    let mut records = records;
    if records.len() == 0 {
        return Ok(None);
    }
    let first = records.swap_remove(0);
    match KVPair::from_record(first, parse) {
        Ok(pair) => Ok(Some(pair)),
        Err(e) => Err(e),
    }
}

/// Reads the entry of `key`. `fetch` gets the request of [`get_plan`] and
/// `options` as they are; its failure is passed on, and its records are read
/// by [`first_entry`]. The answer's metadata is returned untouched.
pub fn get<T, O, M, F, P, S, D>(key: &str, options: Option<&O>, fetch: S, parse: D) -> (r: Result<
    (Option<KVPair<T>>, M),
    GetError<F, P>,
>) where
    S: FnOnce(Request, Option<&O>) -> Result<(Vec<KVResult>, M), F>,
    D: FnOnce(&str) -> Result<T, P>,

    requires
        forall|q: Request| q@ == get_plan(key@) ==> fetch.requires((q, options)),
        forall|s: &str| parse.requires((s,)),
    ensures
        exists|q: Request, answer: Result<(Vec<KVResult>, M), F>|
            q@ == get_plan(key@) && #[trigger] fetch.ensures((q, options), answer) && match answer {
                Ok((records, meta)) => match r {
                    Ok((entry, m)) => m == meta && read_as(
                        records@,
                        parse,
                        Ok::<Option<KVPair<T>>, PayloadError<P>>(entry),
                    ),
                    Err(GetError::Payload(e)) => read_as(
                        records@,
                        parse,
                        Err::<Option<KVPair<T>>, PayloadError<P>>(e),
                    ),
                    Err(GetError::Transport(_)) => false,
                },
                Err(f) => r == Err::<(Option<KVPair<T>>, M), GetError<F, P>>(
                    GetError::Transport(f),
                ),
            },
{
    let q = get_request(key);
    let answer = fetch(q, options);
    match answer {
        Ok((records, meta)) => match first_entry(records, parse) {
            Ok(entry) => Ok((entry, meta)),
            Err(e) => Err(GetError::Payload(e)),
        },
        Err(f) => Err(GetError::Transport(f)),
    }
}

/// Writes the value of `pair` to its key. `send` gets the request of
/// [`put_plan`] and `options` as they are, and its answer is returned as it
/// came: `false` is the store declining, not an error.
pub fn put<T, O, M, F, S>(pair: &KVPair<T>, options: Option<&O>, send: S) -> (r: Result<
    (bool, M),
    F,
>) where S: FnOnce(WriteRequest<'_, T>, Option<&O>) -> Result<(bool, M), F>
    requires
        forall|w: WriteRequest<'_, T>| w@ == put_plan(pair@) ==> send.requires((w, options)),
    ensures
        exists|w: WriteRequest<'_, T>|
            w@ == put_plan(pair@) && #[trigger] send.ensures((w, options), r),
{
    send(put_request(pair), options)
}

/// Deletes `key`. `send` gets the request of [`delete_plan`] and `options` as
/// they are, and its answer is returned as it came.
pub fn delete<O, M, F, S>(key: &str, options: Option<&O>, send: S) -> (r: Result<(bool, M), F>) where
    S: FnOnce(Request, Option<&O>) -> Result<(bool, M), F>,

    requires
        forall|q: Request| q@ == delete_plan(key@) ==> send.requires((q, options)),
    ensures
        exists|q: Request| q@ == delete_plan(key@) && #[trigger] send.ensures((q, options), r),
{
    send(delete_request(key), options)
}

/// What a lock operation returns: without a session the missing-session
/// error, and `send` is not called; with one, the answer of `send` to the
/// request of [`lock_plan`].
pub open spec fn locked_as<T, O, M, F, S: FnOnce(WriteRequest<'_, T>, Option<&O>) -> Result<
    (bool, M),
    F,
>>(
    action: LockAction,
    pair: &KVPair<T>,
    options: Option<&O>,
    send: S,
    r: Result<(bool, M), LockError<F>>,
) -> bool {
    match lock_plan(action, pair@) {
        None => r == Err::<(bool, M), LockError<F>>(LockError::SessionRequired(action)),
        Some(plan) => exists|w: WriteRequest<'_, T>, answer: Result<(bool, M), F>|
            w@ == plan && #[trigger] send.ensures((w, options), answer) && r == match answer {
                Ok(done) => Ok::<(bool, M), LockError<F>>(done),
                Err(f) => Err::<(bool, M), LockError<F>>(LockError::Transport(f)),
            },
    }
}

fn lock<T, O, M, F, S>(action: LockAction, pair: &KVPair<T>, options: Option<&O>, send: S) -> (r:
    Result<(bool, M), LockError<F>>) where
    S: FnOnce(WriteRequest<'_, T>, Option<&O>) -> Result<(bool, M), F>,

    requires
        forall|w: WriteRequest<'_, T>|
            lock_plan(action, pair@) == Some(w@) ==> send.requires((w, options)),
    ensures
        locked_as(action, pair, options, send, r),
{
    match lock_request(action, pair) {
        Some(w) => {
            let answer = send(w, options);
            match answer {
                Ok(done) => Ok(done),
                Err(f) => Err(LockError::Transport(f)),
            }
        },
        None => Err(LockError::SessionRequired(action)),
    }
}

/// Tries once to take the lock on the key of `pair` for the session that
/// `pair` names, writing the value along. The store's `true` or `false` is
/// returned as it came. Without a session the call fails at once: `send` may
/// be called on the request of [`lock_plan`] alone, and there is none.
pub fn acquire<T, O, M, F, S>(pair: &KVPair<T>, options: Option<&O>, send: S) -> (r: Result<
    (bool, M),
    LockError<F>,
>) where S: FnOnce(WriteRequest<'_, T>, Option<&O>) -> Result<(bool, M), F>
    requires
        forall|w: WriteRequest<'_, T>|
            lock_plan(LockAction::Acquire, pair@) == Some(w@) ==> send.requires((w, options)),
    ensures
        locked_as(LockAction::Acquire, pair, options, send, r),
        pair.Session is None <==> r == Err::<(bool, M), LockError<F>>(
            LockError::SessionRequired(LockAction::Acquire),
        ),
{
    lock(LockAction::Acquire, pair, options, send)
}

/// Tries once to give up the lock on the key of `pair` that the session of
/// `pair` holds. The store's `true` or `false` is returned as it came.
/// Without a session the call fails at once, as [`acquire`] does.
pub fn release<T, O, M, F, S>(pair: &KVPair<T>, options: Option<&O>, send: S) -> (r: Result<
    (bool, M),
    LockError<F>,
>) where S: FnOnce(WriteRequest<'_, T>, Option<&O>) -> Result<(bool, M), F>
    requires
        forall|w: WriteRequest<'_, T>|
            lock_plan(LockAction::Release, pair@) == Some(w@) ==> send.requires((w, options)),
    ensures
        locked_as(LockAction::Release, pair, options, send, r),
        pair.Session is None <==> r == Err::<(bool, M), LockError<F>>(
            LockError::SessionRequired(LockAction::Release),
        ),
{
    lock(LockAction::Release, pair, options, send)
}

} // verus!
