//! The replay engine: owns the log stream and an in-memory image of the
//! target device, advances through entries in order, and applies each one —
//! a positioned write for data entries, and for discard entries a chunked
//! discard with a sticky zero-fill fallback.

use vstd::prelude::*;
use vstd::slice::slice_subrange;
use crate::buffer::{
    lemma_splice_adjacent_zeros, name_of, spec_name_of, spec_splice, spec_zeros, write_range,
    zero_fill_range,
};
use crate::log_writes::{
    spec_entry_data_len, spec_entry_flags, spec_entry_nr_sectors, spec_entry_sector,
    spec_super_of, LogWriteEntry, LogWriteSuper, LOG_DISCARD_FLAG, LOG_DISCARD_NOT_SUPP,
    LOG_IGNORE_DISCARD, LOG_MARK_FLAG, LOG_RECORD_SIZE, WRITE_LOG_MAGIC,
};
use crate::ReplayError;

verus! {

/// Largest byte range handed to one discard or zero-fill operation: 1 GiB.
pub const MAX_DISCARD_CHUNK: u64 = 0x40000000;

/// Default ceiling on the range a single zero-fill may cover: 128 MiB.
pub const DEFAULT_MAX_ZERO_SIZE: u64 = 0x8000000;

/// One replay session: the log stream, an in-memory image of the target
/// device, and the session's counters and degraded-mode state.
pub struct Log {
    /// The whole log stream, superblock included.
    pub log_data: Vec<u8>,
    /// The image of the target device being reconstructed.
    pub replay_data: Vec<u8>,
    /// Session flags: `LOG_IGNORE_DISCARD` and `LOG_DISCARD_NOT_SUPP`.
    pub flags: u64,
    pub nr_entries: u64,
    pub sector_size: u32,
    pub cur_entry: u64,
    pub max_zero_size: u64,
    /// Read cursor into `log_data`; always inside the stream.
    pub cur_pos: usize,
    /// Whether the target device honours native discard requests.
    pub discard_supported: bool,
}

impl Log {
    pub open spec fn wf(&self) -> bool {
        self.cur_pos <= self.log_data@.len()
    }

    /// Whether a discard on this session takes the zero-fill path: either a
    /// failed attempt has already been recorded, or the device would refuse.
    pub open spec fn spec_uses_zero_fill(&self) -> bool {
        self.flags & LOG_DISCARD_NOT_SUPP != 0 || !self.discard_supported
    }

    /// The fields a step never changes.
    pub open spec fn same_config(self, o: Log) -> bool {
        &&& self.log_data@ == o.log_data@
        &&& self.nr_entries == o.nr_entries
        &&& self.sector_size == o.sector_size
        &&& self.max_zero_size == o.max_zero_size
        &&& self.discard_supported == o.discard_supported
    }

    /// One native-discard attempt on `[start, start + len)` of the target
    /// image. On a device without discard support the attempt fails and the
    /// session records the zero-fill fallback for its remainder; on a
    /// supporting device the chunk's logical effect is taken to be zeros.
    fn discard_range(&mut self, start: usize, len: usize) -> (r: i32)
        requires
            old(self).wf(),
            start + len <= old(self).replay_data@.len(),
        ensures
            final(self).wf(),
            r == 0,
            final(self).same_config(*old(self)),
            final(self).cur_pos == old(self).cur_pos,
            final(self).cur_entry == old(self).cur_entry,
            old(self).discard_supported ==> final(self).flags == old(self).flags
                && final(self).replay_data@ == spec_splice(
                old(self).replay_data@,
                start as int,
                spec_zeros(len as int),
            ),
            !old(self).discard_supported ==> final(self).flags == (old(self).flags
                | LOG_DISCARD_NOT_SUPP) && final(self).replay_data@ == old(self).replay_data@,
    {
        if self.discard_supported {
            zero_fill_range(&mut self.replay_data, start, len);
        } else {
            self.flags = self.flags | LOG_DISCARD_NOT_SUPP;
        }
        0
    }

    /// Zero-fills `[start, start + len)` on the target image, refusing a
    /// chunk larger than the session's zero-fill ceiling before touching
    /// anything.
    fn zero_range(&mut self, start: usize, len: usize) -> (r: Result<(), ReplayError>)
        requires
            old(self).wf(),
            start + len <= old(self).replay_data@.len(),
        ensures
            final(self).wf(),
            final(self).same_config(*old(self)),
            final(self).cur_pos == old(self).cur_pos,
            final(self).cur_entry == old(self).cur_entry,
            final(self).flags == old(self).flags,
            if len <= old(self).max_zero_size {
                r is Ok && final(self).replay_data@ == spec_splice(
                    old(self).replay_data@,
                    start as int,
                    spec_zeros(len as int),
                )
            } else {
                r matches Err(ReplayError::SizeLimit)
                    && final(self).replay_data@ == old(self).replay_data@
            },
    {
        if (len as u64) > self.max_zero_size {
            return Err(ReplayError::SizeLimit);
        }
        zero_fill_range(&mut self.replay_data, start, len);
        Ok(())
    }

    /// Applies one discard request over `[start, start + size)`: splits it
    /// into chunks of at most `MAX_DISCARD_CHUNK` bytes and, chunk by chunk,
    /// attempts a native discard while the session still believes the device
    /// supports one, falling back to zero-fill — stickily — as soon as an
    /// attempt fails.
    fn discard(&mut self, start: usize, size: usize) -> (r: Result<(), ReplayError>)
        requires
            old(self).wf(),
            start + size <= old(self).replay_data@.len(),
        ensures
            final(self).wf(),
            final(self).same_config(*old(self)),
            final(self).cur_pos == old(self).cur_pos,
            final(self).cur_entry == old(self).cur_entry,
            ({
                let o = *old(self);
                let new_flags = if size > 0 && !o.discard_supported {
                    o.flags | LOG_DISCARD_NOT_SUPP
                } else {
                    o.flags
                };
                if size == 0 {
                    r is Ok && final(self).replay_data@ == o.replay_data@ && final(self).flags
                        == o.flags
                } else if o.spec_uses_zero_fill() && vstd::math::min(
                    MAX_DISCARD_CHUNK as int,
                    size as int,
                ) > o.max_zero_size {
                    r matches Err(ReplayError::SizeLimit) && final(self).replay_data@
                        == o.replay_data@ && final(self).flags == new_flags
                } else {
                    r is Ok && final(self).replay_data@ == spec_splice(
                        o.replay_data@,
                        start as int,
                        spec_zeros(size as int),
                    ) && final(self).flags == new_flags
                }
            }),
    {
        let ghost o = *old(self);
        let rlen = self.replay_data.len();
        let mut pos = start;
        let mut remaining = size;
        proof {
            assert(spec_splice(o.replay_data@, start as int, spec_zeros(0)) =~= o.replay_data@);
        }
        while remaining > 0
            invariant
                o == *old(self),
                self.wf(),
                self.same_config(o),
                self.cur_pos == o.cur_pos,
                self.cur_entry == o.cur_entry,
                start + size <= rlen,
                rlen == o.replay_data@.len(),
                rlen == self.replay_data@.len(),
                remaining <= size,
                pos == start + (size - remaining),
                self.replay_data@ == spec_splice(
                    o.replay_data@,
                    start as int,
                    spec_zeros((size - remaining) as int),
                ),
                remaining == size ==> self.flags == o.flags,
                remaining < size ==> self.flags == (if size > 0 && !o.discard_supported {
                    o.flags | LOG_DISCARD_NOT_SUPP
                } else {
                    o.flags
                }),
                remaining < size && o.spec_uses_zero_fill() ==> vstd::math::min(
                    MAX_DISCARD_CHUNK as int,
                    size as int,
                ) <= o.max_zero_size,
            decreases remaining,
        {
            let len = if (MAX_DISCARD_CHUNK as usize) < remaining {
                MAX_DISCARD_CHUNK as usize
            } else {
                remaining
            };
            let ghost pre = *self;
            if self.flags & LOG_DISCARD_NOT_SUPP == 0 {
                let _ = self.discard_range(pos, len);
            }
            if self.flags & LOG_DISCARD_NOT_SUPP != 0 {
                proof {
                    lemma_sticky_bit(pre.flags);
                    lemma_sticky_bit(o.flags);
                }
                match self.zero_range(pos, len) {
                    Ok(()) => {},
                    Err(e) => {
                        return Err(e);
                    },
                }
            }
            proof {
                lemma_sticky_bit(pre.flags);
                lemma_sticky_bit(o.flags);
                lemma_splice_adjacent_zeros(
                    o.replay_data@,
                    start as int,
                    (size - remaining) as int,
                    len as int,
                );
            }
            pos += len;
            remaining -= len;
        }
        Ok(())
    }

    /// Opens a replay session over a log stream and an image of the target
    /// device: decodes the superblock at the head of the log, rejects a
    /// foreign magic before any entry is touched, and positions the cursor
    /// at the first entry.
    pub fn open(log_data: Vec<u8>, replay_data: Vec<u8>, discard_supported: bool) -> (r: Result<
        Log,
        ReplayError,
    >)
        ensures
            ({
                let b = log_data@;
                match r {
                    Ok(log) => {
                        &&& b.len() >= LOG_RECORD_SIZE
                        &&& spec_super_of(b).magic == WRITE_LOG_MAGIC
                        &&& log.log_data@ == b
                        &&& log.replay_data@ == replay_data@
                        &&& log.flags == 0
                        &&& log.nr_entries == spec_super_of(b).nr_entries
                        &&& log.sector_size == spec_super_of(b).sector_size
                        &&& log.cur_entry == 0
                        &&& log.max_zero_size == DEFAULT_MAX_ZERO_SIZE
                        &&& log.cur_pos == LOG_RECORD_SIZE
                        &&& log.discard_supported == discard_supported
                        &&& log.wf()
                    },
                    Err(ReplayError::Io) => b.len() < LOG_RECORD_SIZE,
                    Err(ReplayError::Format) => b.len() >= LOG_RECORD_SIZE && spec_super_of(
                        b,
                    ).magic != WRITE_LOG_MAGIC,
                    Err(_) => false,
                }
            }),
    {
        if log_data.len() < LOG_RECORD_SIZE {
            return Err(ReplayError::Io);
        }
        let header = slice_subrange(log_data.as_slice(), 0, LOG_RECORD_SIZE);
        let log_super = LogWriteSuper::from_bytes(header);
        proof {
            assert(log_data@.subrange(0, LOG_RECORD_SIZE as int).subrange(0, 8) =~= log_data@
                .subrange(0, 8));
            assert(log_data@.subrange(0, LOG_RECORD_SIZE as int).subrange(8, 16) =~= log_data@
                .subrange(8, 16));
            assert(log_data@.subrange(0, LOG_RECORD_SIZE as int).subrange(16, 24) =~= log_data@
                .subrange(16, 24));
            assert(log_data@.subrange(0, LOG_RECORD_SIZE as int).subrange(28, 32) =~= log_data@
                .subrange(28, 32));
        }
        if log_super.magic != WRITE_LOG_MAGIC {
            return Err(ReplayError::Format);
        }
        Ok(
            Log {
                log_data,
                replay_data,
                flags: 0,
                nr_entries: log_super.nr_entries,
                sector_size: log_super.sector_size,
                cur_entry: 0,
                max_zero_size: DEFAULT_MAX_ZERO_SIZE,
                cur_pos: LOG_RECORD_SIZE,
                discard_supported,
            },
        )
    }

    /// What a successful step returning an entry promises: the entry's
    /// fields come from the record, the counter advances by one, and the
    /// cursor, target image and session flags move to the stated values.
    pub open spec fn spec_step_entry_ok(
        o: Log,
        n: Log,
        r: Result<Option<LogWriteEntry>, ReplayError>,
        rec: Seq<u8>,
        new_pos: int,
        new_replay: Seq<u8>,
        new_flags: u64,
        name: Seq<u8>,
    ) -> bool {
        &&& r matches Ok(Some(e)) && {
            &&& e.sector == spec_entry_sector(rec)
            &&& e.nr_sectors == spec_entry_nr_sectors(rec)
            &&& e.flags == spec_entry_flags(rec)
            &&& e.data_len == spec_entry_data_len(rec)
            &&& e.cmd@ == name
        }
        &&& n.same_config(o)
        &&& n.cur_pos == new_pos
        &&& n.cur_entry == o.cur_entry + 1
        &&& n.replay_data@ == new_replay
        &&& n.flags == new_flags
    }

    /// What a step on a DISCARD entry promises. The record is consumed with
    /// no payload, so the cursor advances by exactly one record. A request
    /// whose range lies outside the target image is an I/O error found
    /// before anything is attempted; otherwise the range's bytes become
    /// zero, the fallback is recorded when the device refuses a native
    /// discard, and a zero-fill chunk over the ceiling is a size-limit
    /// error that writes nothing.
    pub open spec fn spec_step_discard(
        o: Log,
        n: Log,
        r: Result<Option<LogWriteEntry>, ReplayError>,
        rec: Seq<u8>,
        off: int,
        size: int,
    ) -> bool {
        let ignored = o.flags & LOG_IGNORE_DISCARD != 0;
        let new_flags = if !ignored && size > 0 && !o.discard_supported {
            o.flags | LOG_DISCARD_NOT_SUPP
        } else {
            o.flags
        };
        let p = o.cur_pos as int;
        if ignored || size == 0 {
            Log::spec_step_entry_ok(
                o,
                n,
                r,
                rec,
                p + LOG_RECORD_SIZE,
                o.replay_data@,
                o.flags,
                Seq::<u8>::empty(),
            )
        } else if off + size > o.replay_data@.len() {
            n == o && r matches Err(ReplayError::Io)
        } else if o.spec_uses_zero_fill() && vstd::math::min(MAX_DISCARD_CHUNK as int, size)
            > o.max_zero_size {
            &&& r matches Err(ReplayError::SizeLimit)
            &&& n.same_config(o)
            &&& n.cur_pos == p + LOG_RECORD_SIZE
            &&& n.cur_entry == o.cur_entry + 1
            &&& n.replay_data@ == o.replay_data@
            &&& n.flags == new_flags
        } else {
            Log::spec_step_entry_ok(
                o,
                n,
                r,
                rec,
                p + LOG_RECORD_SIZE,
                spec_splice(o.replay_data@, off, spec_zeros(size)),
                new_flags,
                Seq::<u8>::empty(),
            )
        }
    }

    /// The full relation between a session before a step, the session after
    /// it, and the step's result — the model of `replay_next_entry`.
    pub open spec fn spec_step(
        o: Log,
        read_data: bool,
        n: Log,
        r: Result<Option<LogWriteEntry>, ReplayError>,
    ) -> bool {
        let b = o.log_data@;
        let p = o.cur_pos as int;
        let ss = o.sector_size as int;
        if o.cur_entry >= o.nr_entries {
            n == o && r matches Ok(None)
        } else if p + LOG_RECORD_SIZE > b.len() {
            n == o && r matches Err(ReplayError::Io)
        } else {
            let rec = b.subrange(p, p + LOG_RECORD_SIZE);
            let off = spec_entry_sector(rec) * ss;
            let size = spec_entry_nr_sectors(rec) * ss;
            if spec_entry_flags(rec) & LOG_DISCARD_FLAG != 0 {
                Log::spec_step_discard(o, n, r, rec, off, size)
            } else if size == 0 {
                Log::spec_step_entry_ok(
                    o,
                    n,
                    r,
                    rec,
                    p + LOG_RECORD_SIZE,
                    o.replay_data@,
                    o.flags,
                    Seq::<u8>::empty(),
                )
            } else if p + LOG_RECORD_SIZE + size > b.len() {
                n == o && r matches Err(ReplayError::Io)
            } else {
                let payload = b.subrange(p + LOG_RECORD_SIZE, p + LOG_RECORD_SIZE + size);
                let name = if spec_entry_flags(rec) & LOG_MARK_FLAG != 0 {
                    spec_name_of(payload)
                } else {
                    Seq::<u8>::empty()
                };
                if !read_data {
                    Log::spec_step_entry_ok(
                        o,
                        n,
                        r,
                        rec,
                        p + LOG_RECORD_SIZE + size,
                        o.replay_data@,
                        o.flags,
                        name,
                    )
                } else if off + size > o.replay_data@.len() {
                    n == o && r matches Err(ReplayError::Io)
                } else {
                    Log::spec_step_entry_ok(
                        o,
                        n,
                        r,
                        rec,
                        p + LOG_RECORD_SIZE + size,
                        spec_splice(o.replay_data@, off, payload),
                        o.flags,
                        name,
                    )
                }
            }
        }
    }

    /// Consumes and applies the next entry. Returns `Ok(None)` once all
    /// entries have been consumed, without touching either stream. With
    /// `read_data` unset the engine only scans: it still advances the log
    /// cursor past the payload, but leaves the target image alone.
    pub fn replay_next_entry(&mut self, read_data: bool) -> (r: Result<
        Option<LogWriteEntry>,
        ReplayError,
    >)
        requires
            old(self).wf(),
        ensures
            final(self).wf(),
            Log::spec_step(*old(self), read_data, *final(self), r),
            old(self).flags & LOG_DISCARD_NOT_SUPP != 0 ==> final(self).flags
                & LOG_DISCARD_NOT_SUPP != 0,
    {
        if self.cur_entry >= self.nr_entries {
            return Ok(None);
        }
        let log_len = self.log_data.len();
        if log_len - self.cur_pos < LOG_RECORD_SIZE {
            return Err(ReplayError::Io);
        }
        let rec = slice_subrange(self.log_data.as_slice(), self.cur_pos, self.cur_pos
            + LOG_RECORD_SIZE);
        let mut entry = LogWriteEntry::from_bytes(rec);
        let ss = self.sector_size as u64;
        proof {
            mul_le_max(entry.nr_sectors as int, ss as int);
            mul_le_max(entry.sector as int, ss as int);
        }
        let size128: u128 = (entry.nr_sectors as u128) * (ss as u128);
        let off128: u128 = (entry.sector as u128) * (ss as u128);
        if entry.flags & LOG_DISCARD_FLAG != 0 {
            let ignored = self.flags & LOG_IGNORE_DISCARD != 0;
            if ignored || size128 == 0 {
                self.cur_entry = self.cur_entry + 1;
                self.cur_pos = self.cur_pos + LOG_RECORD_SIZE;
                return Ok(Some(entry));
            }
            let rlen = self.replay_data.len();
            if off128 > rlen as u128 || size128 > rlen as u128 - off128 {
                return Err(ReplayError::Io);
            }
            let off = off128 as usize;
            let size = size128 as usize;
            self.cur_entry = self.cur_entry + 1;
            self.cur_pos = self.cur_pos + LOG_RECORD_SIZE;
            match self.discard(off, size) {
                Ok(()) => {},
                Err(e) => {
                    proof {
                        lemma_sticky_bit(old(self).flags);
                    }
                    return Err(e);
                },
            }
            proof {
                lemma_sticky_bit(old(self).flags);
            }
            return Ok(Some(entry));
        }
        if size128 == 0 {
            self.cur_entry = self.cur_entry + 1;
            self.cur_pos = self.cur_pos + LOG_RECORD_SIZE;
            return Ok(Some(entry));
        }
        let payload_start = self.cur_pos + LOG_RECORD_SIZE;
        if size128 > (log_len - payload_start) as u128 {
            return Err(ReplayError::Io);
        }
        let size = size128 as usize;
        if entry.flags & LOG_MARK_FLAG != 0 {
            let payload = slice_subrange(self.log_data.as_slice(), payload_start, payload_start
                + size);
            entry.cmd = name_of(payload);
        }
        if !read_data {
            self.cur_entry = self.cur_entry + 1;
            self.cur_pos = payload_start + size;
            return Ok(Some(entry));
        }
        let rlen = self.replay_data.len();
        if off128 > rlen as u128 || size128 > rlen as u128 - off128 {
            return Err(ReplayError::Io);
        }
        let off = off128 as usize;
        let payload = slice_subrange(self.log_data.as_slice(), payload_start, payload_start
            + size);
        write_range(&mut self.replay_data, off, payload);
        self.cur_entry = self.cur_entry + 1;
        self.cur_pos = payload_start + size;
        Ok(Some(entry))
    }
}

/// Setting the fallback bit really sets it, and never clears anything.
proof fn lemma_sticky_bit(f: u64)
    ensures
        (f | LOG_DISCARD_NOT_SUPP) & LOG_DISCARD_NOT_SUPP != 0,
        f & LOG_DISCARD_NOT_SUPP != 0 ==> (f | LOG_DISCARD_NOT_SUPP) == f,
{
    assert((f | 0x02u64) & 0x02u64 != 0u64) by (bit_vector);
    assert(f & 0x02u64 != 0u64 ==> (f | 0x02u64) == f) by (bit_vector);
}

/// The product of a sector count and a sector size fits in 128 bits.
proof fn mul_le_max(a: int, b: int)
    requires
        0 <= a <= 0xffffffffffffffff,
        0 <= b <= 0xffffffff,
    ensures
        a * b <= 0xffffffffffffffff * 0xffffffff,
{
    vstd::arithmetic::mul::lemma_mul_upper_bound(a, 0xffffffffffffffff, b, 0xffffffff);
}

/// Once a session has recorded that the target refused a discard, every
/// later discard in the session takes the zero-fill path, whatever the
/// device would report: the native path is never attempted again.
pub proof fn lemma_sticky_fallback(s: Log)
    requires
        s.flags & LOG_DISCARD_NOT_SUPP != 0,
    ensures
        s.spec_uses_zero_fill(),
{
}

/// Once the fallback is recorded, a discard step's outcome no longer depends
/// on the device at all: two sessions that agree on everything but the
/// device's discard capability produce the same target bytes, the same
/// session flags, and succeed or fail together.
pub proof fn lemma_sticky_outcome_device_independent(
    o1: Log,
    o2: Log,
    n1: Log,
    n2: Log,
    r1: Result<Option<LogWriteEntry>, ReplayError>,
    r2: Result<Option<LogWriteEntry>, ReplayError>,
    rec: Seq<u8>,
    off: int,
    size: int,
)
    requires
        o1.flags & LOG_DISCARD_NOT_SUPP != 0,
        o2.flags == o1.flags,
        o2.replay_data@ == o1.replay_data@,
        o2.max_zero_size == o1.max_zero_size,
        o2.cur_pos == o1.cur_pos,
        o2.cur_entry == o1.cur_entry,
        Log::spec_step_discard(o1, n1, r1, rec, off, size),
        Log::spec_step_discard(o2, n2, r2, rec, off, size),
    ensures
        n1.replay_data@ == n2.replay_data@,
        n1.flags == n2.flags,
        r1 is Ok <==> r2 is Ok,
{
    lemma_sticky_bit(o1.flags);
}

} // verus!

