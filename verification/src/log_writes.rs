//! The on-disk write-log format: superblock and entry records, their
//! decoders, and the rendering of entry flags for display.

use vstd::prelude::*;
use vstd::bytes::{spec_u32_from_le_bytes, spec_u64_from_le_bytes};
use vstd::slice::slice_to_vec;
use vstd::string::*;
use crate::reader::Reader;
use crate::util::{strncat, strnlen};

verus! {

pub const LOG_FLUSH_FLAG: u64 = 0x01;

pub const LOG_FUA_FLAG: u64 = 0x02;

pub const LOG_DISCARD_FLAG: u64 = 0x04;

pub const LOG_MARK_FLAG: u64 = 0x08;

pub const LOG_METADATA_FLAG: u64 = 0x10;

/// All flag bits with an assigned meaning; anything outside is unknown.
pub const LOG_KNOWN_FLAGS_MASK: u64 = LOG_FLUSH_FLAG | LOG_FUA_FLAG | LOG_DISCARD_FLAG
    | LOG_MARK_FLAG | LOG_METADATA_FLAG;

pub const WRITE_LOG_VERSION: u64 = 1;

pub const WRITE_LOG_MAGIC: u64 = 0x6a736677736872;

/// Size in bytes of the superblock and of every entry record in the log.
pub const LOG_RECORD_SIZE: usize = 32;

/// The log's superblock, read once at open.
#[derive(Debug, Copy, Clone)]
pub struct LogWriteSuper {
    pub magic: u64,
    pub version: u64,
    pub nr_entries: u64,
    pub sector_size: u32,
}

/// The superblock encoded in the first 32 bytes of `b`: magic, version and
/// entry count as little-endian 64-bit words, four reserved bytes, then the
/// sector size as a little-endian 32-bit word.
pub open spec fn spec_super_of(b: Seq<u8>) -> LogWriteSuper
    recommends
        b.len() >= LOG_RECORD_SIZE,
{
    LogWriteSuper {
        magic: spec_u64_from_le_bytes(b.subrange(0, 8)),
        version: spec_u64_from_le_bytes(b.subrange(8, 16)),
        nr_entries: spec_u64_from_le_bytes(b.subrange(16, 24)),
        sector_size: spec_u32_from_le_bytes(b.subrange(28, 32)),
    }
}

impl LogWriteSuper {
    /// Decodes a superblock from exactly 32 raw bytes. A shorter buffer is a
    /// caller error, not a recoverable condition.
    pub fn from_bytes(buf: &[u8]) -> (r: Self)
        requires
            buf@.len() == LOG_RECORD_SIZE,
        ensures
            r == spec_super_of(buf@),
    {
        let mut rdr = Reader::from(slice_to_vec(buf));
        let magic = rdr.read_u64_le();
        let version = rdr.read_u64_le();
        let nr_entries = rdr.read_u64_le();
        let _ = rdr.skip(4);
        let sector_size = rdr.read_u32_le();
        LogWriteSuper { magic, version, nr_entries, sector_size }
    }
}

impl Default for LogWriteSuper {
    fn default() -> (r: Self)
        ensures
            r.magic == 0,
            r.version == 0,
            r.nr_entries == 0,
            r.sector_size == 0,
    {
        LogWriteSuper { magic: 0, version: 0, nr_entries: 0, sector_size: 0 }
    }
}

/// One recorded I/O operation. The fixed fields come from the 32-byte entry
/// record; `cmd` is the checkpoint name carried in the payload of a MARK
/// entry (its zero-terminated prefix), and is empty for every other entry.
pub struct LogWriteEntry {
    pub sector: u64,
    pub nr_sectors: u64,
    pub flags: u64,
    pub data_len: u64,
    pub cmd: Vec<u8>,
}

pub open spec fn spec_entry_sector(b: Seq<u8>) -> u64
    recommends
        b.len() >= LOG_RECORD_SIZE,
{
    spec_u64_from_le_bytes(b.subrange(0, 8))
}

pub open spec fn spec_entry_nr_sectors(b: Seq<u8>) -> u64
    recommends
        b.len() >= LOG_RECORD_SIZE,
{
    spec_u64_from_le_bytes(b.subrange(8, 16))
}

pub open spec fn spec_entry_flags(b: Seq<u8>) -> u64
    recommends
        b.len() >= LOG_RECORD_SIZE,
{
    spec_u64_from_le_bytes(b.subrange(16, 24))
}

pub open spec fn spec_entry_data_len(b: Seq<u8>) -> u64
    recommends
        b.len() >= LOG_RECORD_SIZE,
{
    spec_u64_from_le_bytes(b.subrange(24, 32))
}

impl LogWriteEntry {
    /// Decodes an entry record from exactly 32 raw bytes: sector, sector
    /// count, flags and declared data length, each a little-endian 64-bit
    /// word. The checkpoint name starts out empty.
    pub fn from_bytes(buf: &[u8]) -> (r: Self)
        requires
            buf@.len() == LOG_RECORD_SIZE,
        ensures
            r.sector == spec_entry_sector(buf@),
            r.nr_sectors == spec_entry_nr_sectors(buf@),
            r.flags == spec_entry_flags(buf@),
            r.data_len == spec_entry_data_len(buf@),
            r.cmd@ == Seq::<u8>::empty(),
    {
        let mut rdr = Reader::from(slice_to_vec(buf));
        let sector = rdr.read_u64_le();
        let nr_sectors = rdr.read_u64_le();
        let flags = rdr.read_u64_le();
        let data_len = rdr.read_u64_le();
        LogWriteEntry { sector, nr_sectors, flags, data_len, cmd: Vec::new() }
    }
}

impl Default for LogWriteEntry {
    fn default() -> (r: Self)
        ensures
            r.sector == 0,
            r.nr_sectors == 0,
            r.flags == 0,
            r.data_len == 0,
            r.cmd@ == Seq::<u8>::empty(),
    {
        LogWriteEntry { sector: 0, nr_sectors: 0, flags: 0, data_len: 0, cmd: Vec::new() }
    }
}

/// Types with a fixed on-disk record size.
pub trait MemSize {
    spec fn spec_mem_size() -> usize;

    fn mem_size() -> (r: usize)
        ensures
            r == Self::spec_mem_size(),
    ;
}

impl MemSize for LogWriteEntry {
    open spec fn spec_mem_size() -> usize {
        LOG_RECORD_SIZE
    }

    fn mem_size() -> (r: usize) {
        LOG_RECORD_SIZE
    }
}

/// One row of the flag-rendering table: a flag bit and its display name.
pub struct FlagsToStrEntry {
    pub flags: u64,
    pub str: String,
}

/// The table pairing each known flag bit with its display name.
pub fn log_flags_table() -> (r: Vec<FlagsToStrEntry>)
    ensures
        r@.len() == 5,
        r@[0].flags == LOG_FLUSH_FLAG && r@[0].str@ == "FLUSH"@,
        r@[1].flags == LOG_FUA_FLAG && r@[1].str@ == "FUA"@,
        r@[2].flags == LOG_DISCARD_FLAG && r@[2].str@ == "DISCARD"@,
        r@[3].flags == LOG_MARK_FLAG && r@[3].str@ == "MARK"@,
        r@[4].flags == LOG_METADATA_FLAG && r@[4].str@ == "METADATA"@,
{
    let mut r: Vec<FlagsToStrEntry> = Vec::new();
    r.push(FlagsToStrEntry { flags: LOG_FLUSH_FLAG, str: String::from_str("FLUSH") });
    r.push(FlagsToStrEntry { flags: LOG_FUA_FLAG, str: String::from_str("FUA") });
    r.push(FlagsToStrEntry { flags: LOG_DISCARD_FLAG, str: String::from_str("DISCARD") });
    r.push(FlagsToStrEntry { flags: LOG_MARK_FLAG, str: String::from_str("MARK") });
    r.push(FlagsToStrEntry { flags: LOG_METADATA_FLAG, str: String::from_str("METADATA") });
    r
}

pub const LOG_IGNORE_DISCARD: u64 = 0x01;

pub const LOG_DISCARD_NOT_SUPP: u64 = 0x02;

/// Ceiling on the rendered length of a flag string.
pub const LOG_FLAGS_BUF_SIZE: usize = 128;

/// `acc` followed by a separator, unless nothing has been rendered yet.
pub open spec fn spec_sep(acc: Seq<char>) -> Seq<char> {
    if acc.len() > 0 {
        acc + "|"@
    } else {
        acc
    }
}

/// `acc` with `name` appended (separated) when `set` holds.
pub open spec fn spec_flag_piece(acc: Seq<char>, set: bool, name: Seq<char>) -> Seq<char> {
    if set {
        spec_sep(acc) + name
    } else {
        acc
    }
}

/// The names of the known flag bits set in `flags`, joined by separators.
pub open spec fn spec_known_flags_str(flags: u64) -> Seq<char> {
    let s0 = Seq::<char>::empty();
    let s1 = spec_flag_piece(s0, flags & LOG_FLUSH_FLAG != 0, "FLUSH"@);
    let s2 = spec_flag_piece(s1, flags & LOG_FUA_FLAG != 0, "FUA"@);
    let s3 = spec_flag_piece(s2, flags & LOG_DISCARD_FLAG != 0, "DISCARD"@);
    let s4 = spec_flag_piece(s3, flags & LOG_MARK_FLAG != 0, "MARK"@);
    spec_flag_piece(s4, flags & LOG_METADATA_FLAG != 0, "METADATA"@)
}

/// The full rendering of `flags`: known names, an UNKNOWN marker when
/// unassigned bits are set and the ceiling leaves room for it, and `None`
/// when no bit at all is set.
pub open spec fn spec_entry_flags_str(flags: u64) -> Seq<char> {
    let known = spec_known_flags_str(flags);
    let full = if flags & !LOG_KNOWN_FLAGS_MASK != 0 && known.len() < LOG_FLAGS_BUF_SIZE {
        spec_sep(known) + "UNKNOWN"@
    } else {
        known
    };
    if full.len() == 0 {
        "None"@
    } else {
        full
    }
}

/// Renders `flags` for display into `buf`, replacing its contents. Known
/// bits are rendered by name in table order and separated by `|`; leftover
/// unknown bits are folded into one UNKNOWN marker, kept only while the
/// rendered length stays under the ceiling; a flag word with no bit set
/// renders as `None`.
pub fn entry_flags_to_str(flags: u64, buf: &mut String)
    ensures
        final(buf)@ == spec_entry_flags_str(flags),
{
    proof {
        reveal_strlit("FLUSH");
        reveal_strlit("FUA");
        reveal_strlit("DISCARD");
        reveal_strlit("MARK");
        reveal_strlit("METADATA");
        reveal_strlit("UNKNOWN");
        reveal_strlit("|");
        reveal_strlit("None");
    }
    *buf = String::new();
    let table = log_flags_table();
    let mut empty = true;
    let e0 = &table[0];
    if flags & e0.flags > 0 {
        if !empty {
            strncat(buf, String::from_str("|"), LOG_FLAGS_BUF_SIZE);
        }
        empty = false;
        strncat(buf, e0.str.clone(), LOG_FLAGS_BUF_SIZE);
    }
    let e1 = &table[1];
    if flags & e1.flags > 0 {
        if !empty {
            strncat(buf, String::from_str("|"), LOG_FLAGS_BUF_SIZE);
        }
        empty = false;
        strncat(buf, e1.str.clone(), LOG_FLAGS_BUF_SIZE);
    }
    let e2 = &table[2];
    if flags & e2.flags > 0 {
        if !empty {
            strncat(buf, String::from_str("|"), LOG_FLAGS_BUF_SIZE);
        }
        empty = false;
        strncat(buf, e2.str.clone(), LOG_FLAGS_BUF_SIZE);
    }
    let e3 = &table[3];
    if flags & e3.flags > 0 {
        if !empty {
            strncat(buf, String::from_str("|"), LOG_FLAGS_BUF_SIZE);
        }
        empty = false;
        strncat(buf, e3.str.clone(), LOG_FLAGS_BUF_SIZE);
    }
    let e4 = &table[4];
    if flags & e4.flags > 0 {
        if !empty {
            strncat(buf, String::from_str("|"), LOG_FLAGS_BUF_SIZE);
        }
        empty = false;
        strncat(buf, e4.str.clone(), LOG_FLAGS_BUF_SIZE);
    }
    if flags & !LOG_KNOWN_FLAGS_MASK != 0 {
        let cur_len = strnlen(buf.as_str(), LOG_FLAGS_BUF_SIZE);
        if cur_len < LOG_FLAGS_BUF_SIZE {
            if !empty {
                strncat(buf, String::from_str("|"), LOG_FLAGS_BUF_SIZE);
            }
            empty = false;
            strncat(buf, String::from_str("UNKNOWN"), LOG_FLAGS_BUF_SIZE);
        }
    }
    if empty {
        *buf = String::from_str("None");
    }
}

} // verus!
