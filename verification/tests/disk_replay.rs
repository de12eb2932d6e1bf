//! Replay of a capture file, against the live decode of the same bytes.

use simetry::{
    DiskClient, Header, LiveClient, PollOutcome, RowRead, TelemetryError, VarBuf, IRSDK_VER,
    VAR_RECORD_BYTES,
};

fn put_i32(buf: &mut [u8], at: usize, v: i32) {
    buf[at..at + 4].copy_from_slice(&v.to_le_bytes());
}

/// A capture with two variables and the given 8-byte rows: Gear, a
/// 32-bit integer at offset 0, and Speed, a 32-bit float at offset 4.
fn capture(rows: &[(i32, f32)]) -> Vec<u8> {
    let session = b"---\nWeekendInfo:\n TrackName: monza\n";
    let session_off = 144usize;
    let table_off = session_off + session.len();
    let rows_off = table_off + 2 * VAR_RECORD_BYTES;

    let mut header = vec![0u8; 112];
    put_i32(&mut header, 0, IRSDK_VER);
    put_i32(&mut header, 4, 1);
    put_i32(&mut header, 8, 60);
    put_i32(&mut header, 12, 1);
    put_i32(&mut header, 16, session.len() as i32);
    put_i32(&mut header, 20, session_off as i32);
    put_i32(&mut header, 24, 2);
    put_i32(&mut header, 28, table_off as i32);
    put_i32(&mut header, 32, 1);
    put_i32(&mut header, 36, 8);
    put_i32(&mut header, 48, rows.len() as i32);
    put_i32(&mut header, 52, rows_off as i32);

    let mut sub = vec![0u8; 32];
    sub[0..8].copy_from_slice(&20240301i64.to_le_bytes());
    sub[8..16].copy_from_slice(&540.0f64.to_le_bytes());
    sub[16..24].copy_from_slice(&3600.0f64.to_le_bytes());
    put_i32(&mut sub, 24, 12);
    put_i32(&mut sub, 28, rows.len() as i32);

    let mut gear = vec![0u8; VAR_RECORD_BYTES];
    put_i32(&mut gear, 0, 2);
    put_i32(&mut gear, 4, 0);
    put_i32(&mut gear, 8, 1);
    gear[16..20].copy_from_slice(b"Gear");
    let mut speed = vec![0u8; VAR_RECORD_BYTES];
    put_i32(&mut speed, 0, 4);
    put_i32(&mut speed, 4, 4);
    put_i32(&mut speed, 8, 1);
    speed[16..21].copy_from_slice(b"Speed");

    let mut data = header;
    data.extend(sub);
    data.extend(session.iter().copied());
    data.extend(gear);
    data.extend(speed);
    for (g, s) in rows {
        data.extend(g.to_le_bytes());
        data.extend(s.to_le_bytes());
    }
    data
}

fn row_bytes(g: i32, s: f32) -> Vec<u8> {
    let mut row = g.to_le_bytes().to_vec();
    row.extend(s.to_le_bytes());
    row
}

#[test]
fn three_row_capture_yields_three_samples_then_end_of_stream() {
    let rows = [(3, 41.5f32), (4, 52.25f32), (5, 63.0f32)];
    let mut client = DiskClient::open(capture(&rows)).unwrap();
    for (g, s) in rows {
        let sample = client.next_sim_state().unwrap();
        assert_eq!(sample.read_name::<i32>("Gear"), Some(g));
        let bits = sample.read_name::<simetry::Float32Bits>("Speed").unwrap();
        assert_eq!(f32::from_bits(bits.0), s);
    }
    assert!(client.next_sim_state().is_none());
    assert!(client.next_sim_state().is_none());
}

#[test]
fn replay_decodes_exactly_as_the_live_protocol_would() {
    let rows = [(2, 10.0f32), (3, 20.0f32), (4, 30.0f32)];
    let data = capture(&rows);
    let mut disk = DiskClient::open(data).unwrap();

    let mut live = LiveClient::new();
    let live_header = *disk.header();
    let mut table_bytes = Vec::new();
    {
        let full = capture(&rows);
        let off = live_header.var_header_offset as usize;
        table_bytes.extend(&full[off..off + 2 * VAR_RECORD_BYTES]);
    }
    live.install_var_table(&live_header, &table_bytes);
    let mut poll_header = live_header;
    poll_header.var_buf = [VarBuf { tick_count: 0, buf_offset: 0 }; 4];
    live.poll(&poll_header, vec![], 0);

    for (i, (g, s)) in rows.iter().enumerate() {
        let from_disk = disk.next_sim_state().unwrap();
        poll_header.var_buf[0].tick_count = i as i32 + 1;
        let read = RowRead {
            tick_before: i as i32 + 1,
            row: row_bytes(*g, *s),
            tick_after: i as i32 + 1,
        };
        let from_live = match live.poll(&poll_header, vec![read], 0) {
            PollOutcome::Sample(sample) => sample,
            _ => panic!("live poll should deliver"),
        };
        assert_eq!(
            from_disk.read_name::<i32>("Gear"),
            from_live.read_name::<i32>("Gear")
        );
        assert_eq!(
            from_disk.read_name::<simetry::Float32Bits>("Speed"),
            from_live.read_name::<simetry::Float32Bits>("Speed")
        );
    }
}

#[test]
fn capture_metadata_is_exposed() {
    let rows = [(1, 1.0f32)];
    let client = DiskClient::open(capture(&rows)).unwrap();
    assert_eq!(client.header().tick_rate, 60);
    assert_eq!(client.sub_header().session_start_date, 20240301);
    assert_eq!(f64::from_bits(client.sub_header().session_start_time_bits), 540.0);
    assert_eq!(f64::from_bits(client.sub_header().session_end_time_bits), 3600.0);
    assert_eq!(client.sub_header().session_lap_count, 12);
    assert_eq!(client.sub_header().session_record_count, 1);
    assert_eq!(client.variables().len(), 2);
    let doc = client.session_info().unwrap();
    assert_eq!(doc["WeekendInfo"]["TrackName"].as_str(), Some("monza"));
}

#[test]
fn version_mismatch_is_fatal_for_the_open() {
    let mut data = capture(&[(1, 1.0f32)]);
    put_i32(&mut data, 0, 3);
    assert_eq!(
        DiskClient::open(data).unwrap_err(),
        TelemetryError::VersionMismatch { expected: IRSDK_VER, found: 3 }
    );
}

#[test]
fn truncated_capture_is_rejected() {
    assert_eq!(
        DiskClient::open(vec![0u8; 50]).unwrap_err(),
        TelemetryError::TruncatedRegion
    );
    let mut short = capture(&[(1, 1.0f32)]);
    short.truncate(120);
    assert_eq!(
        DiskClient::open(short).unwrap_err(),
        TelemetryError::TruncatedRegion
    );
}

#[test]
fn header_parse_reads_all_fields() {
    let data = capture(&[(7, 7.0f32)]);
    let header = Header::parse(&data).unwrap();
    assert_eq!(header.ver, IRSDK_VER);
    assert_eq!(header.status, 1);
    assert_eq!(header.tick_rate, 60);
    assert_eq!(header.session_info_update, 1);
    assert_eq!(header.num_vars, 2);
    assert_eq!(header.num_buf, 1);
    assert_eq!(header.buf_len, 8);
    assert_eq!(header.var_buf[0].tick_count, 1);
    assert!(Header::parse(&data[..100]).is_none());
}
