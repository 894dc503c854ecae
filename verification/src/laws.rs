//! What holds of the module through every course of calls.
//!
//! Between loading and unloading the host calls the device hooks and asks, as
//! often as it likes, whether the module can be unloaded. The laws here speak
//! of arbitrary sequences of such calls.

use vstd::prelude::*;
use vstd::utf8::*;
use crate::state::{accepted, Drained, ModuleState};
use crate::text::GREETING;

verus! {

/// A call that the host makes on the module between loading and unloading.
pub enum Call<E> {
    Open,
    Close,
    Read,
    Write { source: Drained<E> },
    Quiesce { usecount: int },
}

/// The module after one call. Only a write leaves a trace.
pub open spec fn after_call<E>(state: ModuleState, call: Call<E>) -> ModuleState {
    match call {
        Call::Write { source } => state.write(source),
        _ => state,
    }
}

/// The module after a sequence of calls, made in order.
pub open spec fn after_calls<E>(state: ModuleState, calls: Seq<Call<E>>) -> ModuleState
    decreases calls.len(),
{
    if calls.len() == 0 {
        state
    } else {
        after_call(after_calls(state, calls.drop_last()), calls.last())
    }
}

/// The source of the most recent write among `calls`, if there was a write.
pub open spec fn latest_write<E>(calls: Seq<Call<E>>) -> Option<Drained<E>>
    decreases calls.len(),
{
    if calls.len() == 0 {
        None
    } else {
        match calls.last() {
            Call::Write { source } => Some(source),
            _ => latest_write(calls.drop_last()),
        }
    }
}

/// The bytes of the most recent write among `calls` that succeeded, if one did.
pub open spec fn latest_accepted<E>(calls: Seq<Call<E>>) -> Option<Seq<u8>>
    decreases calls.len(),
{
    if calls.len() == 0 {
        None
    } else {
        match calls.last() {
            Call::Write { source: Ok(bytes) } if valid_utf8(bytes) => Some(bytes),
            _ => latest_accepted(calls.drop_last()),
        }
    }
}

/// Whether the most recent write among `calls` failed after an earlier one had
/// put text into the buffer. That text is lost: the failed write emptied the
/// buffer before it read its source.
pub open spec fn text_lost<E>(calls: Seq<Call<E>>) -> bool {
    &&& latest_write(calls) matches Some(source)
    &&& !accepted(source)
    &&& latest_accepted(calls) matches Some(bytes)
    &&& bytes.len() > 0
}

/// The state of the module depends on the calls made since loading only through
/// the most recent write: that write alone decides what the buffer holds, and
/// without a write the module is as it was.
pub proof fn lemma_latest_write_decides<E>(state: ModuleState, calls: Seq<Call<E>>)
    ensures
        after_calls(state, calls) == match latest_write(calls) {
            Some(source) => state.write(source),
            None => state,
        },
    decreases calls.len(),
{
    if calls.len() > 0 {
        lemma_latest_write_decides(state, calls.drop_last());
    }
}

/// The most recent successful write is the most recent write, if that one
/// succeeded; and where no write was made, none succeeded.
proof fn lemma_latest_accepted<E>(calls: Seq<Call<E>>)
    ensures
        latest_write(calls) is None ==> latest_accepted(calls) is None,
        latest_write(calls) matches Some(source) ==> (accepted(source) ==> latest_accepted(calls)
            == Some(source->Ok_0)),
    decreases calls.len(),
{
    if calls.len() > 0 {
        lemma_latest_accepted(calls.drop_last());
    }
}

/// After loading and any sequence of calls, a read returns exactly the bytes of
/// the most recent successful write: they replace what was there, they are not
/// appended. If no write was made, it returns the greeting.
///
/// A failed write empties the buffer, so the first part does not hold where the
/// most recent write failed after text had been written: see [`text_lost`] and
/// [`lemma_failed_write_leaves_empty`].
pub proof fn lemma_read_returns_latest_write<E>(calls: Seq<Call<E>>)
    requires
        !text_lost(calls),
    ensures
        latest_accepted(calls) matches Some(bytes) ==> after_calls(
            ModuleState::Unloaded.load(true),
            calls,
        ).read() == Some(bytes),
        latest_write(calls) is None ==> after_calls(ModuleState::Unloaded.load(true), calls).read()
            == Some(encode_utf8(GREETING@)),
{
    broadcast use decode_utf8_encode_utf8;

    let loaded = ModuleState::Unloaded.load(true);
    lemma_latest_write_decides(loaded, calls);
    lemma_latest_accepted(calls);
    if let Some(bytes) = latest_accepted(calls) {
        let source = latest_write(calls)->Some_0;
        if !accepted(source) {
            assert(bytes =~= Seq::<u8>::empty());
            assert(encode_utf8(Seq::<char>::empty()) =~= Seq::<u8>::empty());
        }
    }
}

/// A write that fails, because the source cursor failed or because it delivered
/// bytes that are not UTF-8, leaves a loaded module with an empty buffer: the
/// next read transfers no bytes.
pub proof fn lemma_failed_write_leaves_empty<E>(state: ModuleState, source: Drained<E>)
    requires
        state is Loaded,
        !accepted(source),
    ensures
        state.write(source).read() == Some(Seq::<u8>::empty()),
        state.write_outcome(source) is Err,
{
    assert(encode_utf8(Seq::<char>::empty()) =~= Seq::<u8>::empty());
}

/// Reads repeat: a read returns what the read before it returned, whatever calls
/// came `between`, so long as none of them was a write.
pub proof fn lemma_reads_repeat<E>(state: ModuleState, between: Seq<Call<E>>)
    requires
        forall|i: int| 0 <= i < between.len() ==> !(#[trigger] between[i] is Write),
    ensures
        after_calls(after_call(state, Call::<E>::Read), between).read() == state.read(),
    decreases between.len(),
{
    lemma_no_write(between);
    lemma_latest_write_decides(state, between);
}

/// Where no call is a write, there is no most recent write.
proof fn lemma_no_write<E>(calls: Seq<Call<E>>)
    requires
        forall|i: int| 0 <= i < calls.len() ==> !(#[trigger] calls[i] is Write),
    ensures
        latest_write(calls) is None,
    decreases calls.len(),
{
    if calls.len() > 0 {
        lemma_no_write(calls.drop_last());
    }
}

/// A loaded module is busy exactly while the host counts an open descriptor on
/// its device, whatever calls were made before: the answer depends on the
/// current count alone.
pub proof fn lemma_quiesce_follows_usecount<E>(
    state: ModuleState,
    history: Seq<Call<E>>,
    usecount: int,
)
    requires
        state is Loaded,
    ensures
        after_calls(state, history).busy(usecount) <==> usecount > 0,
{
    lemma_latest_write_decides(state, history);
}

/// Until the device node has been registered, the hooks do nothing: whatever
/// calls were made, and also after a refused registration, a read transfers
/// nothing at all and a write succeeds without consuming a byte.
pub proof fn lemma_inert_until_loaded<E>(calls: Seq<Call<E>>, source: Drained<E>)
    ensures
        ModuleState::Unloaded.load(false) == ModuleState::Unloaded,
        after_calls(ModuleState::Unloaded, calls) == ModuleState::Unloaded,
        ModuleState::Unloaded.read() is None,
        ModuleState::Unloaded.write(source) == ModuleState::Unloaded,
        ModuleState::Unloaded.write_outcome(source) == Ok::<nat, crate::error::WriteError<E>>(0),
{
    lemma_latest_write_decides(ModuleState::Unloaded, calls);
}

} // verus!
