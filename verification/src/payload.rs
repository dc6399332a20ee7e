//! From the wire record to the typed entry: base64 text to bytes, bytes to
//! text, text to the payload type.

use std::rc::Rc;
use vstd::prelude::*;
use vstd::string::*;
use vstd::utf8::*;

use crate::entry::{KVPair, KVPairView};
use crate::wire::{KVResult, KVResultView};

verus! {

/// `base64::DecodeError`, the failure of `base64::decode`. Carried through
/// as it is; nothing is claimed of what it holds.
#[verifier::external_type_specification]
#[verifier::external_body]
pub struct ExBase64Error(base64::DecodeError);

/// `core::str::Utf8Error`, the failure of `core::str::from_utf8`. Carried
/// through as it is; nothing is claimed of what it holds.
#[verifier::external_type_specification]
#[verifier::external_body]
pub struct ExUtf8Error(core::str::Utf8Error);

/// The bytes that `base64::decode` yields for a text, or `None` where it
/// reports an error.
pub uninterp spec fn base64_decoded(text: Seq<char>) -> Option<Seq<u8>>;

/// Calls `base64::decode` (standard alphabet). Trusted, not proved: the
/// outcome is a function of the text alone, here named [`base64_decoded`],
/// and the empty text decodes to no bytes.
#[verifier::external_body]
fn base64_decode(text: &str) -> (r: Result<Vec<u8>, base64::DecodeError>)
    ensures
        match r {
            Ok(bytes) => base64_decoded(text@) == Some(bytes@),
            Err(_) => base64_decoded(text@).is_none(),
        },
        text@.len() == 0 ==> r is Ok && r->Ok_0@.len() == 0,
{
    base64::decode(text)
}

/// `core::str::from_utf8`. Trusted, not proved: it succeeds exactly on
/// well-formed UTF-8 and then returns the very bytes it was given, read as
/// text.
pub assume_specification<'a>[ core::str::from_utf8 ](v: &'a [u8]) -> (r: Result<
    &'a str,
    core::str::Utf8Error,
>)
    ensures
        r is Ok <==> valid_utf8(v@),
        r matches Ok(s) ==> s.spec_bytes() == v@,
;

/// Why a wire record could not be turned into an entry.
#[derive(Debug, PartialEq, Eq)]
pub enum PayloadError<P> {
    /// The value is not base64 text.
    Encoding(base64::DecodeError),
    /// The decoded bytes are not UTF-8 text.
    Text(core::str::Utf8Error),
    /// The codec did not accept the text as a payload.
    Payload(P),
}

/// `parse`, called on `text`, may return `out`.
pub open spec fn parses_to<T, P, D: FnOnce(&str) -> Result<T, P>>(
    parse: D,
    text: Seq<char>,
    out: Result<T, P>,
) -> bool {
    exists|s: &str| s@ == text && #[trigger] parse.ensures((s,), out)
}

/// The entry that carries the metadata of `record` and the payload `value`.
pub open spec fn entry_of<T>(record: KVResultView, value: T) -> KVPairView<T> {
    KVPairView {
        key: record.key,
        create_index: record.create_index,
        modify_index: record.modify_index,
        lock_index: record.lock_index,
        flags: record.flags,
        value,
        session: record.session,
    }
}

/// What decoding `record` returns once the base64 step has given `bytes`
/// (`None`: it failed). Each failure names its step; on success the entry
/// keeps the record's metadata and holds what `parse` made of the text.
pub open spec fn decoded_as<T, P, D: FnOnce(&str) -> Result<T, P>>(
    record: KVResultView,
    bytes: Option<Seq<u8>>,
    parse: D,
    r: Result<KVPair<T>, PayloadError<P>>,
) -> bool {
    match bytes {
        None => r matches Err(PayloadError::Encoding(_)),
        Some(b) => if !valid_utf8(b) {
            r matches Err(PayloadError::Text(_))
        } else {
            match r {
                Ok(pair) => pair@ == entry_of(record, pair@.value) && parses_to(
                    parse,
                    decode_utf8(b),
                    Ok(pair@.value),
                ),
                Err(PayloadError::Payload(p)) => parses_to(parse, decode_utf8(b), Err(p)),
                Err(_) => false,
            }
        },
    }
}

/// Bytes of a base64 outcome, without the error's detail.
pub open spec fn bytes_of(decoded: Result<Vec<u8>, base64::DecodeError>) -> Option<Seq<u8>> {
    match decoded {
        Ok(bytes) => Some(bytes@),
        Err(_) => None,
    }
}

impl<T> KVPair<T> {
    /// Finishes the decoding of `record` from the outcome of its base64 step:
    /// reads the bytes as UTF-8, hands the text to `parse` and keeps the
    /// record's metadata beside the parsed payload. A failed base64 step is
    /// passed on as it came.
    pub fn from_bytes<P, D: FnOnce(&str) -> Result<T, P>>(
        record: KVResult,
        decoded: Result<Vec<u8>, base64::DecodeError>,
        parse: D,
    ) -> (r: Result<KVPair<T>, PayloadError<P>>)
        requires
            forall|s: &str| parse.requires((s,)),
        ensures
            decoded_as(record@, bytes_of(decoded), parse, r),
            decoded matches Err(e) ==> r == Err::<KVPair<T>, PayloadError<P>>(
                PayloadError::Encoding(e),
            ),
    {
        let bytes = match decoded {
            Ok(bytes) => bytes,
            Err(e) => {
                return Err(PayloadError::Encoding(e));
            },
        };
        let text = match core::str::from_utf8(bytes.as_slice()) {
            Ok(text) => text,
            Err(e) => {
                return Err(PayloadError::Text(e));
            },
        };
        proof {
            encode_utf8_decode_utf8(text@);
        }
        match parse(text) {
            Ok(value) => {
                let pair = KVPair {
                    Key: record.Key,
                    CreateIndex: record.CreateIndex,
                    ModifyIndex: record.ModifyIndex,
                    LockIndex: record.LockIndex,
                    Flags: record.Flags,
                    Value: Rc::new(value),
                    Session: record.Session,
                };
                Ok(pair)
            },
            Err(p) => {
                Err(PayloadError::Payload(p))
            },
        }
    }

    /// Decodes a wire record into an entry: the value is base64 text of UTF-8
    /// text that `parse` turns into the payload. An empty value is decoded
    /// like any other: `parse` decides on the empty text.
    pub fn from_record<P, D: FnOnce(&str) -> Result<T, P>>(record: KVResult, parse: D) -> (r:
        Result<KVPair<T>, PayloadError<P>>)
        requires
            forall|s: &str| parse.requires((s,)),
        ensures
            decoded_as(record@, base64_decoded(record@.value), parse, r),
            record@.value.len() == 0 ==> decoded_as(
                record@,
                Some(Seq::<u8>::empty()),
                parse,
                r,
            ),
    {
        let decoded = base64_decode(record.Value.as_str());
        KVPair::from_bytes(record, decoded, parse)
    }
}

} // verus!
