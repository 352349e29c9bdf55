//! The head that the light client on the data-availability chain has
//! reached: the slot, when it was produced, and the execution block that it
//! holds.
//!
//! Finding the head takes two dependent storage reads, a slot lookup and the
//! clock. The caller performs each of them; what is asked next, and what
//! becomes of each answer, is decided here, one step at a time.

use crate::beacon::{
    beacon_slot_url, get_slot_exec_block, slot_exec_block, slot_url, BeaconResponse,
};
use crate::config::BridgeConfig;
use crate::error::{BridgeError, ErrorKind, UpstreamFailure};
use crate::hex::{decode_hex, encode_prefixed_hex, hex_decoding, invalid_hex_message, prefixed_hex};
use crate::scale::{decode_u64, le_value, short_buffer_message};
use crate::storage_key::{derive_pallet_key, lemma_pallet_key_follows_sub_key, pallet_key};
use crate::uint256::Uint256;
use vstd::prelude::*;
use vstd::utf8::encode_utf8;

verus! {

/// The pallet that holds the light client's state.
pub const LIGHT_CLIENT_PALLET: &'static str = "Succinct";

/// The item that holds the slot reached.
pub const HEAD_ITEM: &'static str = "Head";

/// The map from a slot to the time at which it was produced.
pub const TIMESTAMPS_ITEM: &'static str = "Timestamps";

/// The head, with how far behind the clock it is.
#[derive(Clone, Copy, Debug, PartialEq, Eq)]
pub struct ChainHead {
    pub slot: u64,
    pub eth_block_number: u32,
    /// When the slot was produced, in seconds since the epoch.
    pub timestamp: u64,
    /// The clock's reading less `timestamp`, modulo 2 to the 64.
    pub timestamp_diff: u64,
}

/// How far the search for the head has come.
#[derive(Clone, Debug, PartialEq, Eq)]
pub enum HeadState {
    /// Nothing has been asked yet.
    Start,
    /// The slot reached has been asked for.
    AwaitingHead,
    /// The slot's time has been asked for; `head_value` is the raw value of
    /// the slot as it was read.
    AwaitingTimestamp { head_value: Vec<u8> },
    /// The slot's execution block has been asked for.
    AwaitingExecBlock { slot: u64, timestamp: u64 },
    /// The clock has been asked for.
    AwaitingClock { slot: u64, timestamp: u64, eth_block_number: u32 },
    /// The search has ended.
    Done,
}

/// What the caller reports back.
#[derive(Debug, PartialEq, Eq)]
pub enum HeadEvent {
    /// The search begins.
    Started,
    /// A storage read has ended: the raw value as hexadecimal text, or the
    /// failure.
    StorageRead(Result<String, UpstreamFailure>),
    /// The slot lookup has ended.
    SlotLookedUp(Result<BeaconResponse, UpstreamFailure>),
    /// The clock reads `now` seconds since the epoch.
    ClockRead { now: u64 },
}

/// What the caller is to do next.
#[derive(Debug, PartialEq, Eq)]
pub enum HeadAction {
    /// Read the storage of the data-availability chain under `key`.
    ReadStorage { key: String },
    /// Ask the beacon API at `url`.
    LookUpSlot { url: String },
    /// Read the clock.
    ReadClock,
    /// Answer the request: the search has ended.
    Finish(Result<ChainHead, BridgeError>),
    /// Nothing: the event is not the one that the search waits for, and the
    /// state is unchanged.
    Unexpected,
}

/// The storage key, as text, under which the slot reached is read.
pub open spec fn head_key_text() -> Seq<char> {
    prefixed_hex(pallet_key(encode_utf8(LIGHT_CLIENT_PALLET@), encode_utf8(HEAD_ITEM@), None))
}

/// The storage key, as text, under which the time of a slot is read:
/// `head_value` is the slot's raw value exactly as the first read returned
/// it, and is the key's sub-key.
pub open spec fn timestamp_key_text(head_value: Seq<u8>) -> Seq<char> {
    prefixed_hex(
        pallet_key(
            encode_utf8(LIGHT_CLIENT_PALLET@),
            encode_utf8(TIMESTAMPS_ITEM@),
            Some(head_value),
        ),
    )
}

/// The clock's reading less the timestamp, modulo 2 to the 64: the
/// difference itself where the timestamp is not in the future.
pub open spec fn wrapping_diff(now: u64, timestamp: u64) -> u64 {
    if now >= timestamp {
        (now - timestamp) as u64
    } else {
        (now - timestamp + 0x1_0000_0000_0000_0000) as u64
    }
}

/// The number that a difference modulo 2 to the 64 stands for, read as a
/// two's complement.
pub open spec fn signed_diff(diff: u64) -> int {
    if diff < 0x8000_0000_0000_0000 {
        diff as int
    } else {
        diff - 0x1_0000_0000_0000_0000
    }
}

/// Whether the step ends the search with the given failure.
pub open spec fn fails_with(
    next: HeadState,
    action: HeadAction,
    kind: ErrorKind,
    message: Seq<char>,
) -> bool {
    &&& next is Done
    &&& action matches HeadAction::Finish(Err(e)) && e.reports(kind, message)
}

/// The step on the first read's answer: a failed read ends the search as
/// `UpstreamUnavailable`, a value that is not hexadecimal as `DecodeError`;
/// else the second read is asked for, under the key that has the value read
/// as its sub-key.
pub open spec fn head_read_step(
    outcome: Result<String, UpstreamFailure>,
    next: HeadState,
    action: HeadAction,
) -> bool {
    match outcome {
        Err(failure) => fails_with(
            next,
            action,
            ErrorKind::UpstreamUnavailable,
            failure.message@,
        ),
        Ok(text) => match hex_decoding(text@) {
            None => fails_with(next, action, ErrorKind::DecodeError, invalid_hex_message()),
            Some(value) => {
                &&& next matches HeadState::AwaitingTimestamp { head_value } && head_value@
                    == value
                &&& action matches HeadAction::ReadStorage { key } && key@ == timestamp_key_text(
                    value,
                )
            },
        },
    }
}

/// The step on the second read's answer: a failed read ends the search as
/// `UpstreamUnavailable`; a slot or a time that does not decode as an
/// unsigned 64-bit integer, the slot's first, as `DecodeError`; else the
/// slot's execution block is asked for.
pub open spec fn timestamp_read_step(
    config: BridgeConfig,
    head_value: Seq<u8>,
    outcome: Result<String, UpstreamFailure>,
    next: HeadState,
    action: HeadAction,
) -> bool {
    match outcome {
        Err(failure) => fails_with(
            next,
            action,
            ErrorKind::UpstreamUnavailable,
            failure.message@,
        ),
        Ok(text) => if head_value.len() < 8 {
            fails_with(next, action, ErrorKind::DecodeError, short_buffer_message())
        } else {
            match hex_decoding(text@) {
                None => fails_with(next, action, ErrorKind::DecodeError, invalid_hex_message()),
                Some(value) => if value.len() < 8 {
                    fails_with(next, action, ErrorKind::DecodeError, short_buffer_message())
                } else {
                    &&& next == (HeadState::AwaitingExecBlock {
                        slot: le_value(head_value.take(8)) as u64,
                        timestamp: le_value(value.take(8)) as u64,
                    })
                    &&& action matches HeadAction::LookUpSlot { url } && url@ == slot_url(
                        config,
                        le_value(head_value.take(8)),
                    )
                },
            }
        },
    }
}

/// The step on the slot lookup's answer: a failed lookup ends the search
/// with the lookup's own failure; else the clock is asked for.
pub open spec fn slot_lookup_step(
    slot: u64,
    timestamp: u64,
    answer: Result<BeaconResponse, UpstreamFailure>,
    next: HeadState,
    action: HeadAction,
) -> bool {
    match slot_exec_block(answer) {
        Err((kind, message)) => fails_with(next, action, kind, message),
        Ok(eth_block_number) => {
            &&& next == (HeadState::AwaitingClock { slot, timestamp, eth_block_number })
            &&& action is ReadClock
        },
    }
}

/// Whether `next` and `action` are the step that `event` causes in `state`.
pub open spec fn head_steps(
    config: BridgeConfig,
    state: HeadState,
    event: HeadEvent,
    next: HeadState,
    action: HeadAction,
) -> bool {
    match (state, event) {
        (HeadState::Start, HeadEvent::Started) => {
            &&& next is AwaitingHead
            &&& action matches HeadAction::ReadStorage { key } && key@ == head_key_text()
        },
        (HeadState::AwaitingHead, HeadEvent::StorageRead(outcome)) => head_read_step(
            outcome,
            next,
            action,
        ),
        (
            HeadState::AwaitingTimestamp { head_value },
            HeadEvent::StorageRead(outcome),
        ) => timestamp_read_step(config, head_value@, outcome, next, action),
        (
            HeadState::AwaitingExecBlock { slot, timestamp },
            HeadEvent::SlotLookedUp(answer),
        ) => slot_lookup_step(slot, timestamp, answer, next, action),
        (
            HeadState::AwaitingClock { slot, timestamp, eth_block_number },
            HeadEvent::ClockRead { now },
        ) => {
            &&& next is Done
            &&& action == HeadAction::Finish(
                Ok(
                    ChainHead {
                        slot,
                        eth_block_number,
                        timestamp,
                        timestamp_diff: wrapping_diff(now, timestamp),
                    },
                ),
            )
        },
        _ => next == state && action is Unexpected,
    }
}

impl ChainHead {
    /// The head for a slot, its time and execution block, as seen when the
    /// clock reads `now`. The difference is the clock's reading less the
    /// timestamp, modulo 2 to the 64: it is not clamped, and a timestamp in
    /// the future gives the two's complement of a negative number.
    pub fn new(slot: u64, timestamp: u64, eth_block_number: u32, now: u64) -> (head: ChainHead)
        ensures
            head == (ChainHead {
                slot,
                eth_block_number,
                timestamp,
                timestamp_diff: wrapping_diff(now, timestamp),
            }),
            now >= timestamp ==> head.timestamp_diff == now - timestamp,
    {
        ChainHead { slot, eth_block_number, timestamp, timestamp_diff: now.wrapping_sub(timestamp) }
    }

    /// The difference as a signed number: negative where the timestamp was
    /// ahead of the clock.
    pub fn signed_timestamp_diff(&self) -> (diff: i64)
        ensures
            diff == signed_diff(self.timestamp_diff),
    {
        if self.timestamp_diff < 0x8000_0000_0000_0000 {
            self.timestamp_diff as i64
        } else {
            -((u64::MAX - self.timestamp_diff) as i64) - 1
        }
    }
}

/// Ends the search with a failure.
fn fail(kind: ErrorKind, message: String) -> (step: (HeadState, HeadAction))
    ensures
        fails_with(step.0, step.1, kind, message@),
{
    (HeadState::Done, HeadAction::Finish(Err(BridgeError { kind, message })))
}

/// The step on the first read's answer.
fn on_head_read(outcome: Result<String, UpstreamFailure>) -> (step: (HeadState, HeadAction))
    ensures
        head_read_step(outcome, step.0, step.1),
{
    let text = match outcome {
        Ok(text) => text,
        Err(failure) => {
            return fail(ErrorKind::UpstreamUnavailable, failure.message);
        },
    };
    match decode_hex(text.as_str()) {
        Err(e) => fail(e.kind, e.message),
        Ok(head_value) => {
            let key = derive_pallet_key(
                LIGHT_CLIENT_PALLET,
                TIMESTAMPS_ITEM,
                Some(head_value.as_slice()),
            );
            let key = encode_prefixed_hex(key.as_slice());
            (HeadState::AwaitingTimestamp { head_value }, HeadAction::ReadStorage { key })
        },
    }
}

/// The step on the second read's answer.
fn on_timestamp_read(
    config: &BridgeConfig,
    head_value: Vec<u8>,
    outcome: Result<String, UpstreamFailure>,
) -> (step: (HeadState, HeadAction))
    ensures
        timestamp_read_step(*config, head_value@, outcome, step.0, step.1),
{
    let text = match outcome {
        Ok(text) => text,
        Err(failure) => {
            return fail(ErrorKind::UpstreamUnavailable, failure.message);
        },
    };
    let slot = match decode_u64(head_value.as_slice()) {
        Ok(slot) => slot,
        Err(e) => {
            return fail(e.kind, e.message);
        },
    };
    let value = match decode_hex(text.as_str()) {
        Ok(value) => value,
        Err(e) => {
            return fail(e.kind, e.message);
        },
    };
    let timestamp = match decode_u64(value.as_slice()) {
        Ok(timestamp) => timestamp,
        Err(e) => {
            return fail(e.kind, e.message);
        },
    };
    let url = beacon_slot_url(config, &Uint256::from_u64(slot));
    (HeadState::AwaitingExecBlock { slot, timestamp }, HeadAction::LookUpSlot { url })
}

/// The step on the slot lookup's answer.
fn on_slot_looked_up(
    slot: u64,
    timestamp: u64,
    answer: Result<BeaconResponse, UpstreamFailure>,
) -> (step: (HeadState, HeadAction))
    ensures
        slot_lookup_step(slot, timestamp, answer, step.0, step.1),
{
    match get_slot_exec_block(answer) {
        Ok(eth_block_number) => (
            HeadState::AwaitingClock { slot, timestamp, eth_block_number },
            HeadAction::ReadClock,
        ),
        Err(e) => fail(e.kind, e.message),
    }
}

/// Takes one step of the search: from the state and the event that the
/// caller reports to the next state and what the caller is to do.
///
/// The search begins in `HeadState::Start` with `HeadEvent::Started`, and has
/// ended when the action is `HeadAction::Finish`. Any failure ends it: no
/// head is made of a part of the answers. An event that the state does not
/// wait for changes nothing.
pub fn head_step(config: &BridgeConfig, state: HeadState, event: HeadEvent) -> (step: (
    HeadState,
    HeadAction,
))
    ensures
        head_steps(*config, state, event, step.0, step.1),
{
    match (state, event) {
        (HeadState::Start, HeadEvent::Started) => {
            let key = derive_pallet_key(LIGHT_CLIENT_PALLET, HEAD_ITEM, None);
            let key = encode_prefixed_hex(key.as_slice());
            (HeadState::AwaitingHead, HeadAction::ReadStorage { key })
        },
        (HeadState::AwaitingHead, HeadEvent::StorageRead(outcome)) => on_head_read(outcome),
        (
            HeadState::AwaitingTimestamp { head_value },
            HeadEvent::StorageRead(outcome),
        ) => on_timestamp_read(config, head_value, outcome),
        (
            HeadState::AwaitingExecBlock { slot, timestamp },
            HeadEvent::SlotLookedUp(answer),
        ) => on_slot_looked_up(slot, timestamp, answer),
        (
            HeadState::AwaitingClock { slot, timestamp, eth_block_number },
            HeadEvent::ClockRead { now },
        ) => (
            HeadState::Done,
            HeadAction::Finish(Ok(ChainHead::new(slot, timestamp, eth_block_number, now))),
        ),
        (state, _) => (state, HeadAction::Unexpected),
    }
}

/// The time's key follows the slot read: two different raw values of the
/// slot give two different keys for the second read.
pub proof fn lemma_timestamp_key_follows_head_value(value_a: Seq<u8>, value_b: Seq<u8>)
    requires
        value_a != value_b,
    ensures
        timestamp_key_text(value_a) != timestamp_key_text(value_b),
{
    lemma_pallet_key_follows_sub_key(
        encode_utf8(LIGHT_CLIENT_PALLET@),
        encode_utf8(TIMESTAMPS_ITEM@),
        value_a,
        value_b,
    );
}

/// The difference is exact: where the clock's reading less the timestamp
/// fits a signed 64-bit number, the difference read as a two's complement is
/// that number, negative for a timestamp in the future; and where the
/// timestamp is not in the future, the difference is that number as it
/// stands.
pub proof fn lemma_timestamp_diff_exact(now: u64, timestamp: u64)
    requires
        -0x8000_0000_0000_0000 <= now - timestamp < 0x8000_0000_0000_0000,
    ensures
        signed_diff(wrapping_diff(now, timestamp)) == now - timestamp,
        now >= timestamp ==> wrapping_diff(now, timestamp) == now - timestamp,
{
}

/// A head is made of all the answers or not at all: a step answers the
/// request with a head only on the clock's reading, after both storage reads
/// and the slot lookup have succeeded, and the head then holds what was
/// decoded and looked up.
pub proof fn lemma_head_needs_every_answer(
    config: BridgeConfig,
    state: HeadState,
    event: HeadEvent,
    next: HeadState,
    action: HeadAction,
)
    requires
        head_steps(config, state, event, next, action),
        action matches HeadAction::Finish(Ok(_)),
    ensures
        state is AwaitingClock,
        event is ClockRead,
        action->Finish_0->Ok_0 == (ChainHead {
            slot: state->AwaitingClock_slot,
            eth_block_number: state->AwaitingClock_eth_block_number,
            timestamp: state->AwaitingClock_timestamp,
            timestamp_diff: wrapping_diff(event->now, state->AwaitingClock_timestamp),
        }),
{
}

} // verus!
