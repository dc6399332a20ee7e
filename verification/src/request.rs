//! The request that each operation sends to the store.

use std::rc::Rc;
use vstd::prelude::*;
use vstd::string::*;

use crate::entry::{KVPair, KVPairView};

verus! {

/// HTTP method of a request.
#[derive(Clone, Copy, Debug, PartialEq, Eq, Structural)]
pub enum Method {
    Get,
    Put,
    Delete,
}

/// The two operations that need a session.
#[derive(Clone, Copy, Debug, PartialEq, Eq, Structural)]
pub enum LockAction {
    Acquire,
    Release,
}

/// Method, path and query parameters of one request.
#[derive(Debug)]
pub struct Request {
    pub method: Method,
    pub path: String,
    /// Query parameters as name and value, in the order in which they are
    /// appended to the path.
    pub params: Vec<(String, String)>,
}

/// A request whose body is the value of an entry.
pub struct WriteRequest<'a, T> {
    pub line: Request,
    pub body: &'a Rc<T>,
}

/// Mathematical content of a [`Request`].
pub struct RequestView {
    pub method: Method,
    pub path: Seq<char>,
    pub params: Seq<(Seq<char>, Seq<char>)>,
}

/// Mathematical content of a [`WriteRequest`].
pub struct WriteRequestView<T> {
    pub line: RequestView,
    pub body: T,
}

/// Names and values of a parameter list as characters.
pub open spec fn params_view(params: Seq<(String, String)>) -> Seq<(Seq<char>, Seq<char>)> {
    Seq::new(params.len(), |i: int| (params[i].0@, params[i].1@))
}

impl View for Request {
    type V = RequestView;

    open spec fn view(&self) -> RequestView {
        RequestView { method: self.method, path: self.path@, params: params_view(self.params@) }
    }
}

impl<'a, T> View for WriteRequest<'a, T> {
    type V = WriteRequestView<T>;

    open spec fn view(&self) -> WriteRequestView<T> {
        WriteRequestView { line: self.line@, body: **self.body }
    }
}

impl RequestView {
    /// Whether some parameter has this name.
    pub open spec fn has_param(self, name: Seq<char>) -> bool {
        exists|i: int| 0 <= i < self.params.len() && (#[trigger] self.params[i]).0 == name
    }

    /// No parameter name occurs twice, so the list reads as a map.
    pub open spec fn names_distinct(self) -> bool {
        forall|i: int, j: int|
            0 <= i < j < self.params.len() ==> (#[trigger] self.params[i]).0 != (
            #[trigger] self.params[j]).0
    }
}

/// The decimal digit of a number below ten.
pub open spec fn digit(d: nat) -> char {
    if d == 0 {
        '0'
    } else if d == 1 {
        '1'
    } else if d == 2 {
        '2'
    } else if d == 3 {
        '3'
    } else if d == 4 {
        '4'
    } else if d == 5 {
        '5'
    } else if d == 6 {
        '6'
    } else if d == 7 {
        '7'
    } else if d == 8 {
        '8'
    } else {
        '9'
    }
}

/// A number in base ten, most significant digit first, without leading zeros.
pub open spec fn decimal(n: nat) -> Seq<char>
    decreases n,
{
    if n < 10 {
        seq![digit(n)]
    } else {
        decimal(n / 10).push(digit(n % 10))
    }
}

/// Path of a key in the store's namespace.
pub open spec fn kv_path(key: Seq<char>) -> Seq<char> {
    "/v1/kv/"@ + key
}

/// The `flags` parameter: present exactly for a tag other than zero.
pub open spec fn flag_params(flags: Option<u64>) -> Seq<(Seq<char>, Seq<char>)> {
    match flags {
        Some(n) if n != 0 => seq![("flags"@, decimal(n as nat))],
        _ => Seq::empty(),
    }
}

/// Name of the parameter that carries the session of a lock operation.
pub open spec fn lock_param_name(action: LockAction) -> Seq<char> {
    match action {
        LockAction::Acquire => "acquire"@,
        LockAction::Release => "release"@,
    }
}

/// Request of `get`.
pub open spec fn get_plan(key: Seq<char>) -> RequestView {
    RequestView { method: Method::Get, path: kv_path(key), params: Seq::empty() }
}

/// Request of `delete`.
pub open spec fn delete_plan(key: Seq<char>) -> RequestView {
    RequestView { method: Method::Delete, path: kv_path(key), params: Seq::empty() }
}

/// Request of `put`.
pub open spec fn put_plan<T>(pair: KVPairView<T>) -> WriteRequestView<T> {
    WriteRequestView {
        line: RequestView {
            method: Method::Put,
            path: kv_path(pair.key),
            params: flag_params(pair.flags),
        },
        body: pair.value,
    }
}

/// Request of a lock operation, or nothing where the entry names no session.
pub open spec fn lock_plan<T>(action: LockAction, pair: KVPairView<T>) -> Option<
    WriteRequestView<T>,
> {
    match pair.session {
        Some(session) => Some(
            WriteRequestView {
                line: RequestView {
                    method: Method::Put,
                    path: kv_path(pair.key),
                    params: flag_params(pair.flags).push((lock_param_name(action), session)),
                },
                body: pair.value,
            },
        ),
        None => None,
    }
}

fn digit_text(d: u64) -> (s: &'static str)
    requires
        d < 10,
    ensures
        s@ == seq![digit(d as nat)],
{
    proof {
        reveal_strlit("0");
        reveal_strlit("1");
        reveal_strlit("2");
        reveal_strlit("3");
        reveal_strlit("4");
        reveal_strlit("5");
        reveal_strlit("6");
        reveal_strlit("7");
        reveal_strlit("8");
        reveal_strlit("9");
    }
    if d == 0 {
        "0"
    } else if d == 1 {
        "1"
    } else if d == 2 {
        "2"
    } else if d == 3 {
        "3"
    } else if d == 4 {
        "4"
    } else if d == 5 {
        "5"
    } else if d == 6 {
        "6"
    } else if d == 7 {
        "7"
    } else if d == 8 {
        "8"
    } else {
        "9"
    }
}

/// Writes a number in base ten.
pub fn decimal_string(n: u64) -> (s: String)
    ensures
        s@ == decimal(n as nat),
    decreases n,
{
    if n < 10 {
        String::from_str(digit_text(n))
    } else {
        let mut s = decimal_string(n / 10);
        s.append(digit_text(n % 10));
        s
    }
}

fn path_of(key: &str) -> (path: String)
    ensures
        path@ == kv_path(key@),
{
    let mut path = String::from_str("/v1/kv/");
    path.append(key);
    path
}

fn flag_list(flags: Option<u64>) -> (params: Vec<(String, String)>)
    ensures
        params_view(params@) == flag_params(flags),
{
    let mut params: Vec<(String, String)> = Vec::new();
    if let Some(n) = flags {
        if n != 0 {
            params.push((String::from_str("flags"), decimal_string(n)));
        }
    }
    params
}

/// The request that reads the record of `key`.
pub fn get_request(key: &str) -> (r: Request)
    ensures
        r@ == get_plan(key@),
{
    let r = Request { method: Method::Get, path: path_of(key), params: Vec::new() };
    assert(r@.params =~= Seq::empty());
    r
}

/// The request that deletes `key`, and nothing below it.
pub fn delete_request(key: &str) -> (r: Request)
    ensures
        r@ == delete_plan(key@),
{
    let r = Request { method: Method::Delete, path: path_of(key), params: Vec::new() };
    assert(r@.params =~= Seq::empty());
    r
}

/// The request that writes the value of `pair` to its key, whatever the key
/// holds.
pub fn put_request<'a, T>(pair: &'a KVPair<T>) -> (r: WriteRequest<'a, T>)
    ensures
        r@ == put_plan(pair@),
{
    WriteRequest {
        line: Request {
            method: Method::Put,
            path: path_of(pair.Key.as_str()),
            params: flag_list(pair.Flags),
        },
        body: &pair.Value,
    }
}

/// The request of a lock operation on the key of `pair` for the session that
/// `pair` names. Without a session there is no request.
pub fn lock_request<'a, T>(action: LockAction, pair: &'a KVPair<T>) -> (r: Option<
    WriteRequest<'a, T>,
>)
    ensures
        match r {
            Some(w) => lock_plan(action, pair@) == Some(w@),
            None => lock_plan(action, pair@).is_none(),
        },
{
    match &pair.Session {
        Some(session) => {
            let mut params = flag_list(pair.Flags);
            let ghost before = params@;
            let name = match action {
                LockAction::Acquire => String::from_str("acquire"),
                LockAction::Release => String::from_str("release"),
            };
            params.push((name, session.clone()));
            assert(params_view(params@) =~= params_view(before).push(
                (lock_param_name(action), session@),
            ));
            Some(
                WriteRequest {
                    line: Request {
                        method: Method::Put,
                        path: path_of(pair.Key.as_str()),
                        params,
                    },
                    body: &pair.Value,
                },
            )
        },
        None => None,
    }
}

} // verus!
