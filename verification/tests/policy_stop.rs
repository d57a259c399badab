use replay_log::log_writes::{
    LogWriteEntry, LOG_FLUSH_FLAG, LOG_FUA_FLAG, LOG_MARK_FLAG,
};
use replay_log::policy::should_stop;

fn entry_with(flags: u64, cmd: &[u8]) -> LogWriteEntry {
    LogWriteEntry { sector: 0, nr_sectors: 0, flags, data_len: 0, cmd: cmd.to_vec() }
}

#[test]
fn test_stop_on_matching_mark() {
    let e = entry_with(LOG_MARK_FLAG, b"ckpt1");
    assert_eq!(should_stop(&e, LOG_MARK_FLAG, b"ckpt1"), 1);
}

#[test]
fn test_no_stop_on_other_mark() {
    let e = entry_with(LOG_MARK_FLAG, b"ckpt2");
    assert_eq!(should_stop(&e, LOG_MARK_FLAG, b"ckpt1"), 0);
}

#[test]
fn test_stop_on_non_mark_mask() {
    let e = entry_with(LOG_FLUSH_FLAG, b"");
    assert_eq!(should_stop(&e, LOG_FLUSH_FLAG, b"ckpt1"), 1);
}

#[test]
fn test_no_stop_without_intersection() {
    let e = entry_with(LOG_FUA_FLAG, b"");
    assert_eq!(should_stop(&e, LOG_FLUSH_FLAG | LOG_MARK_FLAG, b"ckpt1"), 0);
}

#[test]
fn test_mark_mask_requires_mark_entry() {
    // the mask asks for checkpoints, so a plain intersecting entry does not stop
    let e = entry_with(LOG_FLUSH_FLAG, b"");
    assert_eq!(should_stop(&e, LOG_FLUSH_FLAG | LOG_MARK_FLAG, b"ckpt1"), 0);
}
