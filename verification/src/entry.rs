//! The entry of one key as an application holds it.

use std::rc::Rc;
use vstd::prelude::*;

use crate::wire::text_view;

verus! {

/// One entry with its value decoded into `T`. The value sits behind a shared
/// handle, so an entry can be handed on without copying the value.
#[allow(non_snake_case)]
#[derive(Clone)]
pub struct KVPair<T> {
    pub Key: String,
    pub CreateIndex: Option<u64>,
    pub ModifyIndex: Option<u64>,
    pub LockIndex: Option<u64>,
    pub Flags: Option<u64>,
    pub Value: Rc<T>,
    pub Session: Option<String>,
}

/// Mathematical content of a [`KVPair`].
pub struct KVPairView<T> {
    pub key: Seq<char>,
    pub create_index: Option<u64>,
    pub modify_index: Option<u64>,
    pub lock_index: Option<u64>,
    pub flags: Option<u64>,
    pub value: T,
    pub session: Option<Seq<char>>,
}

impl<T> View for KVPair<T> {
    type V = KVPairView<T>;

    open spec fn view(&self) -> KVPairView<T> {
        KVPairView {
            key: self.Key@,
            create_index: self.CreateIndex,
            modify_index: self.ModifyIndex,
            lock_index: self.LockIndex,
            flags: self.Flags,
            value: *self.Value,
            session: text_view(self.Session),
        }
    }
}

impl<T: Default> Default for KVPair<T> {
    /// An entry with an empty key, no metadata, no session and the default
    /// value of `T`.
    fn default() -> (r: KVPair<T>)
        ensures
            r.Key@ == Seq::<char>::empty(),
            r.CreateIndex is None,
            r.ModifyIndex is None,
            r.LockIndex is None,
            r.Flags is None,
            r.Session is None,
            T::default.ensures((), *r.Value),
    {
        KVPair {
            Key: String::new(),
            CreateIndex: None,
            ModifyIndex: None,
            LockIndex: None,
            Flags: None,
            Value: Rc::new(T::default()),
            Session: None,
        }
    }
}

} // verus!
