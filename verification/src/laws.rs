//! What holds of every request and every decoded entry.

use vstd::prelude::*;
use vstd::utf8::*;

use crate::entry::{KVPair, KVPairView};
use crate::ops::read_as;
use crate::payload::{base64_decoded, decoded_as, entry_of, PayloadError};
use crate::request::{
    decimal, delete_plan, digit, flag_params, get_plan, lock_param_name, lock_plan, put_plan,
    LockAction,
};
use crate::wire::{KVResult, KVResultView};

verus! {

/// A number written in base ten has at least one digit, and is the single
/// digit `0` only if it is zero.
pub proof fn law_decimal_of_zero(n: nat)
    ensures
        decimal(n).len() >= 1,
        decimal(n) == seq!['0'] <==> n == 0,
    decreases n,
{
    if n < 10 {
        assert(decimal(n)[0] == digit(n));
    } else {
        law_decimal_of_zero(n / 10);
    }
}

/// The three parameter names differ from one another.
pub proof fn law_param_names_differ()
    ensures
        "flags"@ != "acquire"@,
        "flags"@ != "release"@,
        "acquire"@ != "release"@,
{
    reveal_strlit("flags");
    reveal_strlit("acquire");
    reveal_strlit("release");
    assert("acquire"@[0] == 'a');
    assert("release"@[0] == 'r');
}

/// An absent tag and the tag zero are the same to the store: the request of
/// put, acquire or release then has no `flags` parameter at all.
pub proof fn law_zero_flags_omitted<T>(pair: KVPairView<T>, action: LockAction)
    requires
        pair.flags is None || pair.flags == Some(0u64),
    ensures
        !put_plan(pair).line.has_param("flags"@),
        lock_plan(action, pair) matches Some(w) ==> !w.line.has_param("flags"@),
{
    law_param_names_differ();
}

/// A tag other than zero is sent by put, acquire and release as the first
/// parameter, named `flags`, with the tag in base ten.
pub proof fn law_flags_sent_in_decimal<T>(pair: KVPairView<T>, action: LockAction)
    requires
        pair.flags is Some,
        pair.flags->Some_0 != 0,
    ensures
        put_plan(pair).line.params == seq![("flags"@, decimal(pair.flags->Some_0 as nat))],
        lock_plan(action, pair) matches Some(w) ==> w.line.params == seq![
            ("flags"@, decimal(pair.flags->Some_0 as nat)),
            (lock_param_name(action), pair.session->Some_0),
        ],
{
}

/// No request of put, acquire or release carries `flags=0`.
pub proof fn law_flags_zero_never_sent<T>(pair: KVPairView<T>, action: LockAction, i: int)
    ensures
        0 <= i < put_plan(pair).line.params.len() ==> put_plan(pair).line.params[i] != (
            "flags"@,
            seq!['0'],
        ),
        lock_plan(action, pair) matches Some(w) ==> (0 <= i < w.line.params.len()
            ==> w.line.params[i] != ("flags"@, seq!['0'])),
{
    law_param_names_differ();
    if let Some(n) = pair.flags {
        if n != 0 {
            law_decimal_of_zero(n as nat);
            law_flags_sent_in_decimal(pair, action);
        }
    }
}

/// In every request no parameter name occurs twice, so the parameters read
/// as a map from name to value.
pub proof fn law_param_names_distinct<T>(key: Seq<char>, pair: KVPairView<T>, action: LockAction)
    ensures
        get_plan(key).names_distinct(),
        delete_plan(key).names_distinct(),
        put_plan(pair).line.names_distinct(),
        lock_plan(action, pair) matches Some(w) ==> w.line.names_distinct(),
{
    law_param_names_differ();
    if let Some(n) = pair.flags {
        if n != 0 {
            law_flags_sent_in_decimal(pair, action);
        }
    }
}

/// A lock operation has a request exactly where the entry names a session,
/// and that request carries the session under the operation's name as its
/// last parameter.
pub proof fn law_lock_needs_session<T>(pair: KVPairView<T>, action: LockAction)
    ensures
        lock_plan(action, pair) is Some <==> pair.session is Some,
        lock_plan(action, pair) matches Some(w) ==> w.line.params.last() == (
            lock_param_name(action),
            pair.session->Some_0,
        ),
{
}

/// For a key without a record `get` reads an absent entry and no error,
/// whatever the codec is.
pub proof fn law_absent_key_reads_none<T, P, D: FnOnce(&str) -> Result<T, P>>(
    parse: D,
    r: Result<Option<KVPair<T>>, PayloadError<P>>,
)
    ensures
        read_as(Seq::<KVResult>::empty(), parse, r) <==> r == Ok::<
            Option<KVPair<T>>,
            PayloadError<P>,
        >(None),
{
}

/// Reading back what was written: where the record's value is the base64
/// form of a text, and the codec reads that text as `value` and as nothing
/// else, decoding the record gives an entry that holds `value` beside the
/// record's metadata.
pub proof fn law_decoding_returns_written_value<T, P, D: FnOnce(&str) -> Result<T, P>>(
    record: KVResultView,
    text: Seq<char>,
    value: T,
    parse: D,
    r: Result<KVPair<T>, PayloadError<P>>,
)
    requires
        base64_decoded(record.value) == Some(encode_utf8(text)),
        forall|s: &str, out: Result<T, P>|
            s@ == text && #[trigger] parse.ensures((s,), out) ==> out == Ok::<T, P>(value),
        decoded_as(record, base64_decoded(record.value), parse, r),
    ensures
        r is Ok,
        r->Ok_0@ == entry_of(record, value),
{
    encode_utf8_valid_utf8(text);
    encode_utf8_decode_utf8(text);
}

} // verus!
