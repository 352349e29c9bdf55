use bridge_api::beacon::{
    beacon_slot_url, get_slot_exec_block, BeaconResponse, BeaconSlot, BEACON_STATUS_OK,
};
use bridge_api::config::BridgeConfig;
use bridge_api::error::{BridgeError, ErrorKind, FailureKind, UpstreamFailure};
use bridge_api::hashing::Hash256;
use bridge_api::head::{
    head_step, ChainHead, HeadAction, HeadEvent, HeadState, HEAD_ITEM, LIGHT_CLIENT_PALLET,
    TIMESTAMPS_ITEM,
};
use bridge_api::hex::encode_prefixed_hex;
use bridge_api::range::{attested_range_url, get_attested_range, BlockRange};
use bridge_api::storage_key::derive_pallet_key;
use bridge_api::uint256::Uint256;

fn config() -> BridgeConfig {
    BridgeConfig {
        succinct_base_url: String::from("https://relay.example/api"),
        beaconchain_base_url: String::from("https://beacon.example/api/v1/slot"),
        avail_chain_name: String::from("goldberg"),
        contract_chain_id: String::from("11155111"),
        contract_address: String::from("0x169e50f09A50F3509777cEf63EC59Eeb2aAcd201"),
    }
}

fn beacon(status: &str, exec_block_number: u32) -> BeaconResponse {
    BeaconResponse {
        status: String::from(status),
        data: BeaconSlot {
            blockroot: Hash256 { bytes: [1; 32] },
            exec_block_number,
            epoch: 3,
            slot: 100,
            exec_state_root: Hash256 { bytes: [2; 32] },
        },
    }
}

fn failure(kind: FailureKind, message: &str) -> UpstreamFailure {
    UpstreamFailure { kind, message: String::from(message) }
}

fn failed(kind: ErrorKind, message: &str) -> (HeadState, HeadAction) {
    (
        HeadState::Done,
        HeadAction::Finish(Err(BridgeError { kind, message: String::from(message) })),
    )
}

const SLOT_100: &str = "0x6400000000000000";
const TIME_1_700_000_000: &str = "0x00f1536500000000";

fn after_head_read(text: &str) -> HeadState {
    let (state, _) = head_step(
        &config(),
        HeadState::AwaitingHead,
        HeadEvent::StorageRead(Ok(String::from(text))),
    );
    state
}

#[test]
fn head_is_found_in_four_steps() {
    let config = config();
    let (state, action) = head_step(&config, HeadState::Start, HeadEvent::Started);
    assert_eq!(state, HeadState::AwaitingHead);
    let head_key = encode_prefixed_hex(&derive_pallet_key("Succinct", "Head", None));
    assert_eq!(action, HeadAction::ReadStorage { key: head_key });

    let (state, action) =
        head_step(&config, state, HeadEvent::StorageRead(Ok(String::from(SLOT_100))));
    assert_eq!(
        state,
        HeadState::AwaitingTimestamp { head_value: vec![0x64, 0, 0, 0, 0, 0, 0, 0] }
    );
    let timestamp_key = encode_prefixed_hex(&derive_pallet_key(
        "Succinct",
        "Timestamps",
        Some(&[0x64, 0, 0, 0, 0, 0, 0, 0]),
    ));
    assert_eq!(action, HeadAction::ReadStorage { key: timestamp_key });

    let (state, action) =
        head_step(&config, state, HeadEvent::StorageRead(Ok(String::from(TIME_1_700_000_000))));
    assert_eq!(state, HeadState::AwaitingExecBlock { slot: 100, timestamp: 1_700_000_000 });
    assert_eq!(
        action,
        HeadAction::LookUpSlot { url: String::from("https://beacon.example/api/v1/slot/100") }
    );

    let (state, action) = head_step(&config, state, HeadEvent::SlotLookedUp(Ok(beacon("OK", 500))));
    assert_eq!(
        state,
        HeadState::AwaitingClock { slot: 100, timestamp: 1_700_000_000, eth_block_number: 500 }
    );
    assert_eq!(action, HeadAction::ReadClock);

    let now = 1_700_000_321;
    let (state, action) = head_step(&config, state, HeadEvent::ClockRead { now });
    assert_eq!(state, HeadState::Done);
    assert_eq!(
        action,
        HeadAction::Finish(Ok(ChainHead {
            slot: 100,
            eth_block_number: 500,
            timestamp: 1_700_000_000,
            timestamp_diff: now - 1_700_000_000,
        }))
    );
}

#[test]
fn head_key_is_the_key_of_the_head_item() {
    let (_, action) = head_step(&config(), HeadState::Start, HeadEvent::Started);
    let key = match action {
        HeadAction::ReadStorage { key } => key,
        other => panic!("unexpected action {:?}", other),
    };
    assert_eq!(key.len(), 2 + 64);
    assert_eq!(key, encode_prefixed_hex(&derive_pallet_key(LIGHT_CLIENT_PALLET, HEAD_ITEM, None)));
}

#[test]
fn timestamp_key_ends_with_the_value_read_first() {
    let (_, action) = head_step(
        &config(),
        HeadState::AwaitingHead,
        HeadEvent::StorageRead(Ok(String::from(SLOT_100))),
    );
    let key = match action {
        HeadAction::ReadStorage { key } => key,
        other => panic!("unexpected action {:?}", other),
    };
    let prefix = encode_prefixed_hex(&derive_pallet_key(LIGHT_CLIENT_PALLET, TIMESTAMPS_ITEM, None));
    assert_eq!(key, format!("{}{}", prefix, &SLOT_100[2..]));
}

#[test]
fn timestamp_key_changes_with_the_value_read_first() {
    let config = config();
    let mut keys = Vec::new();
    for text in [SLOT_100, "0x6500000000000000", "0x64000000000000", "0x640000000000000000"] {
        let (_, action) = head_step(
            &config,
            HeadState::AwaitingHead,
            HeadEvent::StorageRead(Ok(String::from(text))),
        );
        match action {
            HeadAction::ReadStorage { key } => keys.push(key),
            other => panic!("unexpected action {:?}", other),
        }
    }
    for i in 0..keys.len() {
        for j in 0..i {
            assert_ne!(keys[i], keys[j]);
        }
    }
}

#[test]
fn failed_first_read_ends_the_search() {
    for kind in [FailureKind::Transport, FailureKind::ErrorResponse, FailureKind::Malformed] {
        let step = head_step(
            &config(),
            HeadState::AwaitingHead,
            HeadEvent::StorageRead(Err(failure(kind, "node down"))),
        );
        assert_eq!(step, failed(ErrorKind::UpstreamUnavailable, "node down"));
    }
}

#[test]
fn first_value_that_is_not_hex_ends_the_search() {
    let step = head_step(
        &config(),
        HeadState::AwaitingHead,
        HeadEvent::StorageRead(Ok(String::from("0xnothex"))),
    );
    assert_eq!(step, failed(ErrorKind::DecodeError, "invalid hex payload"));
}

#[test]
fn failed_second_read_ends_the_search() {
    let step = head_step(
        &config(),
        after_head_read(SLOT_100),
        HeadEvent::StorageRead(Err(failure(FailureKind::Transport, "node down"))),
    );
    assert_eq!(step, failed(ErrorKind::UpstreamUnavailable, "node down"));
}

#[test]
fn short_slot_value_ends_the_search_after_the_second_read() {
    let state = after_head_read("0x64000000");
    assert_eq!(state, HeadState::AwaitingTimestamp { head_value: vec![0x64, 0, 0, 0] });
    let step = head_step(
        &config(),
        state,
        HeadEvent::StorageRead(Ok(String::from(TIME_1_700_000_000))),
    );
    assert_eq!(step, failed(ErrorKind::DecodeError, "not enough bytes for the integer"));
}

#[test]
fn malformed_time_value_ends_the_search() {
    let step = head_step(
        &config(),
        after_head_read(SLOT_100),
        HeadEvent::StorageRead(Ok(String::from("0x00f15365"))),
    );
    assert_eq!(step, failed(ErrorKind::DecodeError, "not enough bytes for the integer"));
    let step = head_step(
        &config(),
        after_head_read(SLOT_100),
        HeadEvent::StorageRead(Ok(String::from("null"))),
    );
    assert_eq!(step, failed(ErrorKind::DecodeError, "invalid hex payload"));
}

#[test]
fn failed_slot_lookup_ends_the_search() {
    let state = HeadState::AwaitingExecBlock { slot: 100, timestamp: 1_700_000_000 };
    let step = head_step(
        &config(),
        state.clone(),
        HeadEvent::SlotLookedUp(Err(failure(FailureKind::Transport, "beacon down"))),
    );
    assert_eq!(step, failed(ErrorKind::UpstreamUnavailable, "beacon down"));
    let step = head_step(&config(), state, HeadEvent::SlotLookedUp(Ok(beacon("ERROR", 500))));
    assert_eq!(step, failed(ErrorKind::UpstreamReportedError, "Cannot fetch slot data"));
}

#[test]
fn unexpected_event_changes_nothing() {
    let config = config();
    let states = [
        HeadState::Start,
        HeadState::AwaitingHead,
        HeadState::AwaitingTimestamp { head_value: vec![1, 2, 3] },
        HeadState::AwaitingExecBlock { slot: 1, timestamp: 2 },
        HeadState::AwaitingClock { slot: 1, timestamp: 2, eth_block_number: 3 },
        HeadState::Done,
    ];
    for (i, state) in states.iter().enumerate() {
        let events = [
            (HeadEvent::Started, i == 0),
            (HeadEvent::StorageRead(Ok(String::from(SLOT_100))), i == 1 || i == 2),
            (HeadEvent::SlotLookedUp(Ok(beacon("OK", 5))), i == 3),
            (HeadEvent::ClockRead { now: 9 }, i == 4),
        ];
        for (event, awaited) in events {
            let (next, action) = head_step(&config, state.clone(), event);
            if !awaited {
                assert_eq!(&next, state);
                assert_eq!(action, HeadAction::Unexpected);
            } else {
                assert_ne!(action, HeadAction::Unexpected);
            }
        }
    }
}

#[test]
fn timestamp_diff_is_the_clock_less_the_timestamp() {
    let head = ChainHead::new(100, 1_700_000_000, 500, 1_700_000_012);
    assert_eq!(head.timestamp_diff, 12);
    assert_eq!(head.signed_timestamp_diff(), 12);
    let head = ChainHead::new(100, 1_700_000_000, 500, 1_700_000_000);
    assert_eq!(head.timestamp_diff, 0);
    assert_eq!(head.signed_timestamp_diff(), 0);
    assert_eq!(head.slot, 100);
    assert_eq!(head.eth_block_number, 500);
    assert_eq!(head.timestamp, 1_700_000_000);
}

#[test]
fn timestamp_in_the_future_gives_a_negative_diff() {
    let head = ChainHead::new(100, 1_700_000_000, 500, 1_699_999_990);
    assert_eq!(head.signed_timestamp_diff(), -10);
    assert_eq!(head.timestamp_diff, u64::MAX - 9);
    assert_eq!(head.timestamp_diff, 1_699_999_990u64.wrapping_sub(1_700_000_000));
    let head = ChainHead::new(0, u64::MAX, 0, 0);
    assert_eq!(head.timestamp_diff, 1);
    let head = ChainHead::new(0, 1 << 63, 0, 0);
    assert_eq!(head.signed_timestamp_diff(), i64::MIN);
    let head = ChainHead::new(0, 1, 0, 0);
    assert_eq!(head.signed_timestamp_diff(), -1);
}

#[test]
fn future_timestamp_does_not_stop_the_search() {
    let state =
        HeadState::AwaitingClock { slot: 100, timestamp: 1_700_000_000, eth_block_number: 500 };
    let (state, action) = head_step(&config(), state, HeadEvent::ClockRead { now: 1_600_000_000 });
    assert_eq!(state, HeadState::Done);
    match action {
        HeadAction::Finish(Ok(head)) => assert_eq!(head.signed_timestamp_diff(), -100_000_000),
        other => panic!("unexpected action {:?}", other),
    }
}

#[test]
fn beacon_url_is_the_base_and_the_slot_in_decimal() {
    assert_eq!(
        beacon_slot_url(&config(), &Uint256::from_u64(100)),
        "https://beacon.example/api/v1/slot/100"
    );
    assert_eq!(
        beacon_slot_url(&config(), &Uint256::from_u64(0)),
        "https://beacon.example/api/v1/slot/0"
    );
    assert_eq!(
        beacon_slot_url(&config(), &Uint256::from_be_bytes([0xff; 32])),
        "https://beacon.example/api/v1/slot/\
         115792089237316195423570985008687907853269984665640564039457584007913129639935"
    );
}

#[test]
fn exec_block_is_read_from_an_ok_answer() {
    assert_eq!(get_slot_exec_block(Ok(beacon("OK", 500))), Ok(500));
    assert_eq!(get_slot_exec_block(Ok(beacon(BEACON_STATUS_OK, 0))), Ok(0));
}

#[test]
fn answer_with_another_status_is_a_reported_error() {
    for status in ["ERROR: slot not found", "ok", "", "OK "] {
        assert_eq!(
            get_slot_exec_block(Ok(beacon(status, 500))),
            Err(BridgeError {
                kind: ErrorKind::UpstreamReportedError,
                message: String::from("Cannot fetch slot data"),
            })
        );
    }
}

#[test]
fn failed_slot_lookup_is_reported_by_its_kind() {
    let cases = [
        (FailureKind::Transport, ErrorKind::UpstreamUnavailable),
        (FailureKind::ErrorResponse, ErrorKind::UpstreamReportedError),
        (FailureKind::Malformed, ErrorKind::UpstreamContractViolation),
    ];
    for (kind, expected) in cases {
        assert_eq!(
            get_slot_exec_block(Err(failure(kind, "beacon down"))),
            Err(BridgeError { kind: expected, message: String::from("beacon down") })
        );
    }
}

#[test]
fn range_url_names_the_contract() {
    assert_eq!(
        attested_range_url(&config()),
        "https://relay.example/api/range/?contractChainId=11155111\
         &contractAddress=0x169e50f09A50F3509777cEf63EC59Eeb2aAcd201"
    );
}

#[test]
fn range_is_handed_on_as_it_came() {
    let range = BlockRange { start: 10, end: 20 };
    assert_eq!(get_attested_range(Ok(range)), Ok(range));
    let odd = BlockRange { start: 20, end: 10 };
    assert_eq!(get_attested_range(Ok(odd)), Ok(odd));
}

#[test]
fn failed_range_request_is_reported_by_its_kind() {
    assert_eq!(
        get_attested_range(Err(failure(FailureKind::Transport, "relay down"))),
        Err(BridgeError { kind: ErrorKind::UpstreamUnavailable, message: String::from("relay down") })
    );
    assert_eq!(
        get_attested_range(Err(failure(FailureKind::Malformed, "missing field `data`"))),
        Err(BridgeError {
            kind: ErrorKind::UpstreamContractViolation,
            message: String::from("missing field `data`"),
        })
    );
}
