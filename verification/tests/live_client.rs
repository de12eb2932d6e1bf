//! The consistency protocol and the live-client poll state machine.

use simetry::{
    select_buffer, Header, LiveClient, PollOutcome, RowRead, TelemetryError, VarBuf,
    CLIENT_TIMEOUT_MILLIS, IRSDK_VER, VAR_RECORD_BYTES,
};

fn header_with_ticks(ticks: [i32; 2]) -> Header {
    Header {
        ver: IRSDK_VER,
        status: 1,
        tick_rate: 60,
        session_info_update: 0,
        session_info_len: 0,
        session_info_offset: 0,
        num_vars: 0,
        var_header_offset: 0,
        num_buf: 2,
        buf_len: 8,
        var_buf: [
            VarBuf { tick_count: ticks[0], buf_offset: 112 },
            VarBuf { tick_count: ticks[1], buf_offset: 120 },
            VarBuf { tick_count: 0, buf_offset: 0 },
            VarBuf { tick_count: 0, buf_offset: 0 },
        ],
    }
}

fn ready_client(header: &Header) -> LiveClient {
    let mut client = LiveClient::new();
    client.install_var_table(header, &[]);
    client
}

fn good_read(tick: i32, row: Vec<u8>) -> RowRead {
    RowRead { tick_before: tick, row, tick_after: tick }
}

#[test]
fn version_check_is_a_hard_boundary() {
    assert!(LiveClient::check_version(IRSDK_VER).is_ok());
    assert_eq!(
        LiveClient::check_version(3).unwrap_err(),
        TelemetryError::VersionMismatch { expected: IRSDK_VER, found: 3 }
    );
}

#[test]
fn freshest_buffer_wins_and_ties_go_to_lowest_index() {
    assert_eq!(select_buffer(&header_with_ticks([5, 7])), 1);
    assert_eq!(select_buffer(&header_with_ticks([7, 5])), 0);
    assert_eq!(select_buffer(&header_with_ticks([7, 7])), 0);
}

#[test]
fn first_poll_sets_a_baseline_without_delivering() {
    let header = header_with_ticks([5, 6]);
    let mut client = ready_client(&header);
    let outcome = client.poll(&header, vec![good_read(6, vec![0u8; 8])], 0);
    assert!(matches!(outcome, PollOutcome::NoNewData));
}

#[test]
fn strictly_newer_tick_delivers_and_updates_baseline() {
    // After a baseline of 6, buffers [(tick 5), (tick 7)] select tick 7,
    // which is strictly newer, so its row is delivered.
    let mut client = ready_client(&header_with_ticks([5, 6]));
    client.poll(&header_with_ticks([5, 6]), vec![], 0);
    let header = header_with_ticks([5, 7]);
    let row = vec![1, 2, 3, 4, 5, 6, 7, 8];
    let outcome = client.poll(&header, vec![good_read(7, row.clone())], 10);
    match outcome {
        PollOutcome::Sample(s) => assert_eq!(s.raw_data(), &row),
        _ => panic!("expected a sample"),
    }
    // Equal ticks afterwards yield nothing: not strictly greater.
    let header_b = header_with_ticks([7, 7]);
    let outcome = client.poll(&header_b, vec![good_read(7, row)], 20);
    assert!(matches!(outcome, PollOutcome::NoNewData));
}

#[test]
fn torn_copies_are_never_delivered() {
    let mut client = ready_client(&header_with_ticks([0, 0]));
    client.poll(&header_with_ticks([0, 0]), vec![], 0);
    let header = header_with_ticks([0, 9]);
    // The first copy was overwritten mid-read; the second was clean.
    let torn = RowRead { tick_before: 8, row: vec![9u8; 8], tick_after: 9 };
    let clean = good_read(9, vec![1u8; 8]);
    match client.poll(&header, vec![torn, clean], 0) {
        PollOutcome::Sample(s) => assert_eq!(s.raw_data(), &vec![1u8; 8]),
        _ => panic!("expected a sample from the clean copy"),
    }
}

#[test]
fn two_torn_copies_yield_no_sample() {
    let mut client = ready_client(&header_with_ticks([0, 0]));
    client.poll(&header_with_ticks([0, 0]), vec![], 0);
    let header = header_with_ticks([0, 9]);
    let torn_a = RowRead { tick_before: 8, row: vec![0u8; 8], tick_after: 9 };
    let torn_b = RowRead { tick_before: 9, row: vec![0u8; 8], tick_after: 10 };
    assert!(matches!(
        client.poll(&header, vec![torn_a, torn_b], 0),
        PollOutcome::NoNewData
    ));
}

#[test]
fn delivered_ticks_strictly_increase() {
    let mut client = ready_client(&header_with_ticks([0, 0]));
    client.poll(&header_with_ticks([0, 0]), vec![], 0);
    let mut delivered = Vec::new();
    for tick in [1, 3, 3, 2, 7] {
        let header = header_with_ticks([tick, 0]);
        match client.poll(&header, vec![good_read(tick, vec![0u8; 8])], 0) {
            PollOutcome::Sample(_) => delivered.push(tick),
            _ => {},
        }
    }
    assert_eq!(delivered, vec![1, 3, 7]);
}

#[test]
fn clear_status_bit_ends_the_stream_and_resets_freshness() {
    let mut client = ready_client(&header_with_ticks([4, 5]));
    client.poll(&header_with_ticks([4, 5]), vec![], 0);
    let mut dead = header_with_ticks([4, 6]);
    dead.status = 0;
    assert!(matches!(
        client.poll(&dead, vec![good_read(6, vec![0u8; 8])], 0),
        PollOutcome::Disconnected
    ));
    // After reconnection the pre-existing data sets a fresh baseline and
    // is not delivered again.
    let alive = header_with_ticks([4, 6]);
    assert!(matches!(
        client.poll(&alive, vec![good_read(6, vec![0u8; 8])], 0),
        PollOutcome::NoNewData
    ));
    let newer = header_with_ticks([4, 7]);
    assert!(matches!(
        client.poll(&newer, vec![good_read(7, vec![0u8; 8])], 0),
        PollOutcome::Sample(_)
    ));
}

#[test]
fn liveness_window_expiry_counts_as_disconnected() {
    let header = header_with_ticks([0, 1]);
    let mut client = ready_client(&header);
    client.poll(&header, vec![], 1000);
    let newer = header_with_ticks([0, 2]);
    match client.poll(&newer, vec![good_read(2, vec![0u8; 8])], 1000) {
        PollOutcome::Sample(_) => {},
        _ => panic!("expected a sample"),
    }
    assert!(client.is_connected(&header, 1000));
    assert!(client.is_connected(&header, 1000 + CLIENT_TIMEOUT_MILLIS - 1));
    assert!(!client.is_connected(&header, 1000 + CLIENT_TIMEOUT_MILLIS));
    // A clock running backwards also counts as dead.
    assert!(!client.is_connected(&header, 500));
    let mut dead = header;
    dead.status = 0;
    assert!(!client.is_connected(&dead, 1000));
}

#[test]
fn row_length_change_forces_a_table_rebuild() {
    let mut header = header_with_ticks([0, 1]);
    header.num_vars = 1;
    let mut client = LiveClient::new();
    assert!(client.needs_var_table(&header));
    let mut rec = vec![0u8; VAR_RECORD_BYTES];
    rec[0..4].copy_from_slice(&2i32.to_le_bytes());
    rec[8..12].copy_from_slice(&1i32.to_le_bytes());
    rec[16..20].copy_from_slice(b"Gear");
    client.install_var_table(&header, &rec);
    assert!(!client.needs_var_table(&header));
    // A sample delivered now carries the table of this generation.
    client.poll(&header, vec![], 0);
    let mut newer = header_with_ticks([0, 2]);
    newer.num_vars = 1;
    match client.poll(&newer, vec![good_read(2, vec![0u8; 8])], 0) {
        PollOutcome::Sample(s) => assert!(s.variables().get("Gear").is_some()),
        _ => panic!("expected a sample"),
    }
    // A changed row length invalidates the generation wholesale.
    let mut regrown = header_with_ticks([0, 3]);
    regrown.buf_len = 16;
    assert!(client.needs_var_table(&regrown));
    client.install_var_table(&regrown, &[]);
    assert!(!client.needs_var_table(&regrown));
    match client.poll(&regrown, vec![good_read(3, vec![0u8; 16])], 0) {
        PollOutcome::Sample(s) => assert!(s.variables().get("Gear").is_none()),
        _ => panic!("expected a sample"),
    }
}
