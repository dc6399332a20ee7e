//! The record of one stored key as the store sends it.

use vstd::prelude::*;

verus! {

/// One stored entry in wire shape: the value is still base64 text.
#[allow(non_snake_case)]
#[derive(Clone, Debug, PartialEq, Eq)]
pub struct KVResult {
    pub Key: String,
    pub CreateIndex: Option<u64>,
    pub ModifyIndex: Option<u64>,
    pub LockIndex: Option<u64>,
    pub Flags: Option<u64>,
    pub Value: String,
    pub Session: Option<String>,
}

/// Mathematical content of a [`KVResult`].
pub struct KVResultView {
    pub key: Seq<char>,
    pub create_index: Option<u64>,
    pub modify_index: Option<u64>,
    pub lock_index: Option<u64>,
    pub flags: Option<u64>,
    pub value: Seq<char>,
    pub session: Option<Seq<char>>,
}

/// The characters of an optional string.
pub open spec fn text_view(s: Option<String>) -> Option<Seq<char>> {
    match s {
        Some(t) => Some(t@),
        None => None,
    }
}

impl View for KVResult {
    type V = KVResultView;

    open spec fn view(&self) -> KVResultView {
        KVResultView {
            key: self.Key@,
            create_index: self.CreateIndex,
            modify_index: self.ModifyIndex,
            lock_index: self.LockIndex,
            flags: self.Flags,
            value: self.Value@,
            session: text_view(self.Session),
        }
    }
}

impl Default for KVResult {
    /// The record that a response leaves when it names no field: an empty
    /// key, an empty value and nothing else.
    fn default() -> (r: KVResult)
        ensures
            r@ == (KVResultView {
                key: Seq::empty(),
                create_index: None,
                modify_index: None,
                lock_index: None,
                flags: None,
                value: Seq::empty(),
                session: None,
            }),
    {
        KVResult {
            Key: String::new(),
            CreateIndex: None,
            ModifyIndex: None,
            LockIndex: None,
            Flags: None,
            Value: String::new(),
            Session: None,
        }
    }
}

} // verus!
