use replay_log::log_writes::{
    LOG_DISCARD_FLAG, LOG_DISCARD_NOT_SUPP, LOG_FLUSH_FLAG, LOG_IGNORE_DISCARD, LOG_MARK_FLAG,
    WRITE_LOG_MAGIC,
};
use replay_log::replay::Log;
use replay_log::ReplayError;

fn header_bytes(magic: u64, version: u64, nr_entries: u64, sector_size: u32) -> Vec<u8> {
    let mut v = Vec::new();
    v.extend_from_slice(&magic.to_le_bytes());
    v.extend_from_slice(&version.to_le_bytes());
    v.extend_from_slice(&nr_entries.to_le_bytes());
    v.extend_from_slice(&[0u8; 4]);
    v.extend_from_slice(&sector_size.to_le_bytes());
    v
}

fn entry_bytes(sector: u64, nr_sectors: u64, flags: u64, data_len: u64) -> Vec<u8> {
    let mut v = Vec::new();
    v.extend_from_slice(&sector.to_le_bytes());
    v.extend_from_slice(&nr_sectors.to_le_bytes());
    v.extend_from_slice(&flags.to_le_bytes());
    v.extend_from_slice(&data_len.to_le_bytes());
    v
}

#[test]
fn test_open_valid_magic() {
    let log = header_bytes(WRITE_LOG_MAGIC, 1, 0, 512);
    let session = Log::open(log, vec![0u8; 64], true).unwrap();
    assert_eq!(session.nr_entries, 0);
    assert_eq!(session.sector_size, 512);
    assert_eq!(session.cur_entry, 0);
    assert_eq!(session.cur_pos, 32);
    assert_eq!(session.flags, 0);
    assert_eq!(session.max_zero_size, 128 * 1024 * 1024);
}

#[test]
fn test_open_magic_mismatch() {
    let log = header_bytes(WRITE_LOG_MAGIC + 1, 1, 0, 512);
    let r = Log::open(log, vec![0u8; 64], true);
    assert_eq!(r.err().unwrap(), ReplayError::Format);
}

#[test]
fn test_open_short_header() {
    let r = Log::open(vec![0u8; 31], vec![0u8; 64], true);
    assert_eq!(r.err().unwrap(), ReplayError::Io);
}

#[test]
fn test_step_write_fidelity() {
    let mut log = header_bytes(WRITE_LOG_MAGIC, 1, 1, 512);
    log.extend_from_slice(&entry_bytes(2, 1, 0, 512));
    let payload: Vec<u8> = (0..512).map(|i| (i % 251) as u8).collect();
    log.extend_from_slice(&payload);
    let target = vec![0x55u8; 4096];
    let mut session = Log::open(log, target, true).unwrap();
    let entry = session.replay_next_entry(true).unwrap().unwrap();
    assert_eq!(entry.sector, 2);
    assert_eq!(entry.nr_sectors, 1);
    assert_eq!(&session.replay_data[1024..1536], payload.as_slice());
    assert!(session.replay_data[..1024].iter().all(|&b| b == 0x55));
    assert!(session.replay_data[1536..].iter().all(|&b| b == 0x55));
    assert_eq!(session.cur_pos, 32 + 32 + 512);
    assert_eq!(session.cur_entry, 1);
}

#[test]
fn test_step_scan_only_advances_cursor() {
    let mut log = header_bytes(WRITE_LOG_MAGIC, 1, 1, 512);
    log.extend_from_slice(&entry_bytes(0, 1, 0, 512));
    log.extend_from_slice(&[0xAAu8; 512]);
    let mut session = Log::open(log, vec![0x55u8; 1024], true).unwrap();
    let entry = session.replay_next_entry(false).unwrap().unwrap();
    assert_eq!(entry.nr_sectors, 1);
    assert!(session.replay_data.iter().all(|&b| b == 0x55));
    assert_eq!(session.cur_pos, 32 + 32 + 512);
}

#[test]
fn test_step_zero_length_entry_is_noop() {
    let mut log = header_bytes(WRITE_LOG_MAGIC, 1, 1, 512);
    log.extend_from_slice(&entry_bytes(3, 0, LOG_FLUSH_FLAG, 0));
    let mut session = Log::open(log, vec![0x55u8; 1024], true).unwrap();
    let entry = session.replay_next_entry(true).unwrap().unwrap();
    assert_eq!(entry.flags, LOG_FLUSH_FLAG);
    assert!(session.replay_data.iter().all(|&b| b == 0x55));
    assert_eq!(session.cur_pos, 64);
}

#[test]
fn test_step_after_exhaustion_returns_none() {
    let mut log = header_bytes(WRITE_LOG_MAGIC, 1, 1, 512);
    log.extend_from_slice(&entry_bytes(0, 0, 0, 0));
    let mut session = Log::open(log, vec![0x55u8; 512], true).unwrap();
    assert!(session.replay_next_entry(true).unwrap().is_some());
    let pos = session.cur_pos;
    let image = session.replay_data.clone();
    for _ in 0..3 {
        assert!(session.replay_next_entry(true).unwrap().is_none());
        assert_eq!(session.cur_pos, pos);
        assert_eq!(session.cur_entry, 1);
        assert_eq!(session.replay_data, image);
    }
}

#[test]
fn test_step_short_entry_record() {
    let mut log = header_bytes(WRITE_LOG_MAGIC, 1, 1, 512);
    log.extend_from_slice(&[0u8; 16]);
    let mut session = Log::open(log, vec![0u8; 512], true).unwrap();
    assert_eq!(session.replay_next_entry(true).err().unwrap(), ReplayError::Io);
}

#[test]
fn test_step_short_payload() {
    let mut log = header_bytes(WRITE_LOG_MAGIC, 1, 1, 512);
    log.extend_from_slice(&entry_bytes(0, 1, 0, 512));
    log.extend_from_slice(&[0xAAu8; 100]);
    let mut session = Log::open(log, vec![0u8; 512], true).unwrap();
    assert_eq!(session.replay_next_entry(true).err().unwrap(), ReplayError::Io);
}

#[test]
fn test_step_write_out_of_range() {
    let mut log = header_bytes(WRITE_LOG_MAGIC, 1, 1, 512);
    log.extend_from_slice(&entry_bytes(8, 1, 0, 512));
    log.extend_from_slice(&[0xAAu8; 512]);
    let mut session = Log::open(log, vec![0u8; 512], true).unwrap();
    assert_eq!(session.replay_next_entry(true).err().unwrap(), ReplayError::Io);
}

#[test]
fn test_discard_falls_back_to_zero_fill() {
    let mut log = header_bytes(WRITE_LOG_MAGIC, 1, 1, 512);
    log.extend_from_slice(&entry_bytes(1, 2, LOG_DISCARD_FLAG, 0));
    let mut session = Log::open(log, vec![0xAAu8; 2048], false).unwrap();
    let entry = session.replay_next_entry(true).unwrap().unwrap();
    assert_eq!(entry.flags, LOG_DISCARD_FLAG);
    assert!(session.replay_data[..512].iter().all(|&b| b == 0xAA));
    assert!(session.replay_data[512..1536].iter().all(|&b| b == 0));
    assert!(session.replay_data[1536..].iter().all(|&b| b == 0xAA));
    // no payload follows a discard entry: the cursor moved one record only
    assert_eq!(session.cur_pos, 64);
    assert_ne!(session.flags & LOG_DISCARD_NOT_SUPP, 0);
}

#[test]
fn test_discard_on_supporting_device() {
    let mut log = header_bytes(WRITE_LOG_MAGIC, 1, 1, 512);
    log.extend_from_slice(&entry_bytes(0, 1, LOG_DISCARD_FLAG, 0));
    let mut session = Log::open(log, vec![0xAAu8; 1024], true).unwrap();
    session.replay_next_entry(true).unwrap().unwrap();
    assert!(session.replay_data[..512].iter().all(|&b| b == 0));
    assert!(session.replay_data[512..].iter().all(|&b| b == 0xAA));
    assert_eq!(session.flags & LOG_DISCARD_NOT_SUPP, 0);
    assert_eq!(session.cur_pos, 64);
}

#[test]
fn test_discard_fallback_is_sticky() {
    let mut log = header_bytes(WRITE_LOG_MAGIC, 1, 2, 512);
    log.extend_from_slice(&entry_bytes(0, 1, LOG_DISCARD_FLAG, 0));
    log.extend_from_slice(&entry_bytes(1, 1, LOG_DISCARD_FLAG, 0));
    let mut session = Log::open(log, vec![0xAAu8; 1024], false).unwrap();
    session.replay_next_entry(true).unwrap().unwrap();
    assert_ne!(session.flags & LOG_DISCARD_NOT_SUPP, 0);
    session.replay_next_entry(true).unwrap().unwrap();
    assert_ne!(session.flags & LOG_DISCARD_NOT_SUPP, 0);
    assert!(session.replay_data.iter().all(|&b| b == 0));
}

#[test]
fn test_zero_fill_over_ceiling_fails_without_writing() {
    let mut log = header_bytes(WRITE_LOG_MAGIC, 1, 1, 512);
    log.extend_from_slice(&entry_bytes(0, 1, LOG_DISCARD_FLAG, 0));
    let mut session = Log::open(log, vec![0xAAu8; 512], false).unwrap();
    session.max_zero_size = 4;
    let r = session.replay_next_entry(true);
    assert_eq!(r.err().unwrap(), ReplayError::SizeLimit);
    assert!(session.replay_data.iter().all(|&b| b == 0xAA));
    assert_ne!(session.flags & LOG_DISCARD_NOT_SUPP, 0);
}

#[test]
fn test_discard_out_of_range() {
    let mut log = header_bytes(WRITE_LOG_MAGIC, 1, 1, 512);
    log.extend_from_slice(&entry_bytes(4, 1, LOG_DISCARD_FLAG, 0));
    let mut session = Log::open(log, vec![0xAAu8; 512], false).unwrap();
    assert_eq!(session.replay_next_entry(true).err().unwrap(), ReplayError::Io);
    assert!(session.replay_data.iter().all(|&b| b == 0xAA));
}

#[test]
fn test_ignore_discard_flag() {
    let mut log = header_bytes(WRITE_LOG_MAGIC, 1, 1, 512);
    log.extend_from_slice(&entry_bytes(0, 1, LOG_DISCARD_FLAG, 0));
    let mut session = Log::open(log, vec![0xAAu8; 512], false).unwrap();
    session.flags |= LOG_IGNORE_DISCARD;
    let entry = session.replay_next_entry(true).unwrap().unwrap();
    assert_eq!(entry.flags, LOG_DISCARD_FLAG);
    assert!(session.replay_data.iter().all(|&b| b == 0xAA));
    assert_eq!(session.flags & LOG_DISCARD_NOT_SUPP, 0);
}

#[test]
fn test_mark_entry_carries_name() {
    let mut log = header_bytes(WRITE_LOG_MAGIC, 1, 1, 8);
    log.extend_from_slice(&entry_bytes(0, 1, LOG_MARK_FLAG, 8));
    log.extend_from_slice(b"ckpt1\0\0\0");
    let mut session = Log::open(log, vec![0u8; 64], true).unwrap();
    let entry = session.replay_next_entry(true).unwrap().unwrap();
    assert_eq!(entry.cmd, b"ckpt1".to_vec());
}

#[test]
fn test_end_to_end_replay() {
    let mut log = header_bytes(WRITE_LOG_MAGIC, 1, 2, 512);
    log.extend_from_slice(&entry_bytes(0, 1, 0, 512));
    log.extend_from_slice(&[0xAAu8; 512]);
    log.extend_from_slice(&entry_bytes(1, 1, LOG_DISCARD_FLAG, 0));
    let mut session = Log::open(log, vec![0x11u8; 1024], false).unwrap();
    let mut seen = 0;
    while let Some(_) = session.replay_next_entry(true).unwrap() {
        seen += 1;
    }
    assert_eq!(seen, 2);
    assert!(session.replay_data[..512].iter().all(|&b| b == 0xAA));
    assert!(session.replay_data[512..].iter().all(|&b| b == 0));
}
