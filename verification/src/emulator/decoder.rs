//! The instruction decoder: one pass over an arbitrary byte buffer yields an
//! ordered sequence of instruction records whose byte ranges tile a prefix of
//! the buffer.
//!
//! Scanning starts at offset zero. While at least two bytes remain, the next
//! two bytes are read as a little-endian word; unless both of its low bits
//! are set the instruction is two bytes wide and decoded in compressed form,
//! otherwise it is four bytes wide (when four bytes remain) and decoded in
//! standard form. A record is appended whether or not decoding succeeded — a
//! failure becomes an empty `decoded` field, never an abort — and the scan
//! advances by the record's width. Trailing bytes too short for a record are
//! dropped.

use vstd::prelude::*;
use raki::{Decode, Instruction, Isa};

verus! {

#[verifier::external_type_specification]
#[verifier::external_body]
pub struct ExInstruction(Instruction);

/// What raki's compressed-form decoder yields for a two-byte word, for the
/// fixed 64-bit target: a function of the word alone.
pub uninterp spec fn decoded16(word: u16) -> Option<Instruction>;

/// What raki's standard-form decoder yields for a four-byte word, for the
/// fixed 64-bit target: a function of the word alone.
pub uninterp spec fn decoded32(word: u32) -> Option<Instruction>;

/// Relies on raki's `Decode` impl for `u16`: decoding a two-byte word either
/// returns an instruction or reports an error, without panicking, and depends
/// on the word alone.
#[verifier::external_body]
fn decode16(word: u16) -> (r: Option<Instruction>)
    ensures
        r == decoded16(word),
{
    word.decode(Isa::Rv64).ok()
}

/// Relies on raki's `Decode` impl for `u32`: decoding a four-byte word either
/// returns an instruction or reports an error, without panicking, and depends
/// on the word alone.
#[verifier::external_body]
fn decode32(word: u32) -> (r: Option<Instruction>)
    ensures
        r == decoded32(word),
{
    word.decode(Isa::Rv64).ok()
}

/// One decoded-or-unknown unit of the scan: where it starts, how many bytes
/// it spans, and the instruction if raki could decode those bytes.
pub struct InstructionRecord {
    pub offset: usize,
    pub width: usize,
    pub decoded: Option<Instruction>,
}

/// The two bytes at `pos`, read as a little-endian 16-bit word.
pub open spec fn word16_at(bytes: Seq<u8>, pos: int) -> u16 {
    (bytes[pos] as u16) | ((bytes[pos + 1] as u16) << 8)
}

/// The four bytes at `pos`, read as a little-endian 32-bit word.
pub open spec fn word32_at(bytes: Seq<u8>, pos: int) -> u32 {
    (bytes[pos] as u32) | ((bytes[pos + 1] as u32) << 8) | ((bytes[pos + 2] as u32) << 16) | ((
    bytes[pos + 3] as u32) << 24)
}

/// A word whose two low bits are both set begins a four-byte instruction;
/// any other word begins a two-byte compressed instruction.
pub open spec fn is_wide(word: u16) -> bool {
    word & 3 == 3
}

/// The record sequence a scan yields from `pos` on: the defining description
/// of the decoder's output.
pub open spec fn spec_scan(bytes: Seq<u8>, pos: int) -> Seq<InstructionRecord>
    decreases bytes.len() - pos,
{
    if pos < 0 || pos + 2 > bytes.len() {
        Seq::empty()
    } else {
        let word = word16_at(bytes, pos);
        if !is_wide(word) {
            seq![
                InstructionRecord { offset: pos as usize, width: 2, decoded: decoded16(word) },
            ] + spec_scan(bytes, pos + 2)
        } else if pos + 4 > bytes.len() {
            Seq::empty()
        } else {
            seq![
                InstructionRecord {
                    offset: pos as usize,
                    width: 4,
                    decoded: decoded32(word32_at(bytes, pos)),
                },
            ] + spec_scan(bytes, pos + 4)
        }
    }
}

/// The two bytes at `pos`, read as a little-endian 16-bit word.
fn read16(bytes: &[u8], pos: usize) -> (w: u16)
    requires
        pos + 2 <= bytes@.len(),
    ensures
        w == word16_at(bytes@, pos as int),
{
    (bytes[pos] as u16) | ((bytes[pos + 1] as u16) << 8)
}

/// The four bytes at `pos`, read as a little-endian 32-bit word.
fn read32(bytes: &[u8], pos: usize) -> (w: u32)
    requires
        pos + 4 <= bytes@.len(),
    ensures
        w == word32_at(bytes@, pos as int),
{
    (bytes[pos] as u32) | ((bytes[pos + 1] as u32) << 8) | ((bytes[pos + 2] as u32) << 16) | ((
    bytes[pos + 3] as u32) << 24)
}

/// The decoder's state: the record sequence of the last scan, and whether the
/// listing is shown.
pub struct Decoder {
    pub items: Vec<InstructionRecord>,
    pub open: bool,
}

impl View for Decoder {
    type V = Seq<InstructionRecord>;

    open spec fn view(&self) -> Seq<InstructionRecord> {
        self.items@
    }
}

impl Default for Decoder {
    /// A fresh decoder holds no records and shows its listing.
    fn default() -> (r: Self)
        ensures
            r@ =~= Seq::<InstructionRecord>::empty(),
            r.open,
    {
        Decoder { items: Vec::new(), open: true }
    }
}

impl Decoder {
    /// Recompute the whole record sequence from scratch for `bytes`, as
    /// `spec_scan` describes it. Only running out of bytes stops the scan;
    /// a word that fails to decode becomes a record with an empty `decoded`
    /// field. Scanning the same buffer again yields the same records.
    pub fn decode(&mut self, bytes: &[u8])
        ensures
            final(self)@ == spec_scan(bytes@, 0),
            final(self).open == old(self).open,
    {
        let mut out: Vec<InstructionRecord> = Vec::new();
        let mut pc: usize = 0;

        loop
            invariant
                pc <= bytes@.len(),
                spec_scan(bytes@, 0) == out@ + spec_scan(bytes@, pc as int),
            ensures
                spec_scan(bytes@, 0) == out@,
            decreases bytes@.len() - pc,
        {
            if bytes.len() - pc < 2 {
                proof {
                    assert(spec_scan(bytes@, pc as int) =~= Seq::<InstructionRecord>::empty());
                    assert(out@ + Seq::<InstructionRecord>::empty() =~= out@);
                }
                break;
            }
            let word = read16(bytes, pc);
            if word & 3 != 3 {
                let ghost prev = out@;
                out.push(InstructionRecord { offset: pc, width: 2, decoded: decode16(word) });
                proof {
                    assert(spec_scan(bytes@, pc as int) =~= seq![
                        InstructionRecord {
                            offset: pc as usize,
                            width: 2,
                            decoded: decoded16(word16_at(bytes@, pc as int)),
                        },
                    ] + spec_scan(bytes@, pc + 2));
                    assert(prev + spec_scan(bytes@, pc as int) =~= out@ + spec_scan(
                        bytes@,
                        pc + 2,
                    ));
                }
                pc += 2;
            } else {
                if bytes.len() - pc < 4 {
                    proof {
                        assert(spec_scan(bytes@, pc as int) =~= Seq::<InstructionRecord>::empty());
                        assert(out@ + Seq::<InstructionRecord>::empty() =~= out@);
                    }
                    break;
                }
                let word32 = read32(bytes, pc);
                let ghost prev = out@;
                out.push(InstructionRecord { offset: pc, width: 4, decoded: decode32(word32) });
                proof {
                    assert(spec_scan(bytes@, pc as int) =~= seq![
                        InstructionRecord {
                            offset: pc as usize,
                            width: 4,
                            decoded: decoded32(word32_at(bytes@, pc as int)),
                        },
                    ] + spec_scan(bytes@, pc + 4));
                    assert(prev + spec_scan(bytes@, pc as int) =~= out@ + spec_scan(
                        bytes@,
                        pc + 4,
                    ));
                }
                pc += 4;
            }
        }

        self.items = out;
    }

    /// The records of the last scan, in order.
    pub fn records(&self) -> (r: &Vec<InstructionRecord>)
        ensures
            r@ == self@,
    {
        &self.items
    }
}

/// The records tile the byte range from `start` to `end`: each is 2 or 4
/// bytes wide, begins exactly where the previous one ends, and stays inside
/// the range.
pub open spec fn records_tile(records: Seq<InstructionRecord>, start: int, end: int) -> bool
    decreases records.len(),
{
    records.len() == 0 || {
        let r = records[0];
        &&& r.offset == start
        &&& (r.width == 2 || r.width == 4)
        &&& start + r.width <= end
        &&& records_tile(records.drop_first(), start + r.width, end)
    }
}

/// What a scan yields tiles a prefix of the buffer from its starting offset:
/// record byte ranges are contiguous, non-overlapping and in bounds.
pub proof fn lemma_scan_tiles(bytes: Seq<u8>, pos: int)
    requires
        0 <= pos,
        bytes.len() <= usize::MAX,
    ensures
        records_tile(spec_scan(bytes, pos), pos, bytes.len() as int),
    decreases bytes.len() - pos,
{
    if pos + 2 > bytes.len() {
    } else {
        let s = spec_scan(bytes, pos);
        let word = word16_at(bytes, pos);
        if !is_wide(word) {
            lemma_scan_tiles(bytes, pos + 2);
            assert(s.drop_first() =~= spec_scan(bytes, pos + 2));
            assert(s[0].offset == pos && s[0].width == 2);
            assert(records_tile(s, pos, bytes.len() as int));
        } else if pos + 4 > bytes.len() {
        } else {
            lemma_scan_tiles(bytes, pos + 4);
            assert(s.drop_first() =~= spec_scan(bytes, pos + 4));
            assert(s[0].offset == pos && s[0].width == 4);
            assert(records_tile(s, pos, bytes.len() as int));
        }
    }
}

/// Where a scan from `pos` ends: behind its last record, or at `pos` when it
/// yielded none.
pub open spec fn scan_end(bytes: Seq<u8>, pos: int) -> int {
    let records = spec_scan(bytes, pos);
    if records.len() == 0 {
        pos
    } else {
        records.last().offset + records.last().width
    }
}

/// Only running out of bytes stops the scan: where it ends, fewer than two
/// bytes remain, or the word there begins a four-byte instruction with fewer
/// than four remaining. A decode failure never stops it.
pub proof fn lemma_scan_stops_only_at_the_end(bytes: Seq<u8>, pos: int)
    requires
        0 <= pos,
        bytes.len() <= usize::MAX,
    ensures
        pos <= scan_end(bytes, pos),
        bytes.len() - scan_end(bytes, pos) < 2 || (is_wide(word16_at(bytes, scan_end(bytes, pos)))
            && bytes.len() - scan_end(bytes, pos) < 4),
    decreases bytes.len() - pos,
{
    if pos + 2 > bytes.len() {
    } else {
        let s = spec_scan(bytes, pos);
        let word = word16_at(bytes, pos);
        if !is_wide(word) {
            lemma_scan_stops_only_at_the_end(bytes, pos + 2);
            assert(s.drop_first() =~= spec_scan(bytes, pos + 2));
            if s.len() > 1 {
                assert(s.last() == s.drop_first().last());
            }
        } else if pos + 4 > bytes.len() {
        } else {
            lemma_scan_stops_only_at_the_end(bytes, pos + 4);
            assert(s.drop_first() =~= spec_scan(bytes, pos + 4));
            if s.len() > 1 {
                assert(s.last() == s.drop_first().last());
            }
        }
    }
}

/// In a tiling, offsets are strictly increasing — an earlier record ends at
/// or before where a later one begins — and every record lies between `start`
/// and `end`.
pub proof fn lemma_tile_offsets(records: Seq<InstructionRecord>, start: int, end: int)
    requires
        records_tile(records, start, end),
    ensures
        forall|i: int, j: int|
            0 <= i < j < records.len() ==> records[i].offset + records[i].width
                <= records[j].offset,
        forall|i: int|
            0 <= i < records.len() ==> start <= records[i].offset && records[i].offset
                + records[i].width <= end,
    decreases records.len(),
{
    if records.len() == 0 {
    } else {
        let rest = records.drop_first();
        lemma_tile_offsets(rest, start + records[0].width, end);
        assert(forall|k: int| 0 <= k < rest.len() ==> rest[k] == records[k + 1]);
        assert forall|i: int, j: int| 0 <= i < j < records.len() implies records[i].offset
            + records[i].width <= records[j].offset by {
            if i == 0 {
                assert(rest[j - 1] == records[j]);
            } else {
                assert(rest[i - 1] == records[i]);
                assert(rest[j - 1] == records[j]);
            }
        }
        assert forall|i: int| 0 <= i < records.len() implies start <= records[i].offset
            && records[i].offset + records[i].width <= end by {
            if i > 0 {
                assert(rest[i - 1] == records[i]);
            }
        }
    }
}

} // verus!
