//! The indexed archive container.
//!
//! An archive holds an entry count after a 4-byte skip, then that many
//! little-endian (offset, size) pairs, each naming a byte range in the same
//! source.  Its sole contract toward the decoder: given an index, return the
//! raw byte segment, or no result when the index is out of range.

use vstd::prelude::*;
use vstd::slice::{slice_subrange, slice_to_vec};

use crate::{AdxError, u32_le};

verus! {

/// One table entry: the byte range of a bundled file.
pub struct ADXEntry {
    pub offset: u64,
    pub size: u64,
}

/// A parsed entry table together with a cursor over it.
pub struct AfsFile {
    pub current_entry: usize,
    pub entries: Vec<ADXEntry>,
}

/// How many entries the header announces.
pub open spec fn spec_entry_count(data: Seq<u8>) -> int {
    u32_le(data, 4)
}

/// The source holds the 8-byte header and the whole announced table.
pub open spec fn spec_table_ok(data: Seq<u8>) -> bool {
    &&& data.len() >= 8
    &&& data.len() >= 8 + 8 * spec_entry_count(data)
}

/// Entry `i` of the table, as the source stores it.
pub open spec fn spec_entry(data: Seq<u8>, i: int) -> ADXEntry {
    ADXEntry { offset: u32_le(data, 8 + 8 * i) as u64, size: u32_le(data, 12 + 8 * i) as u64 }
}

/// The clipped byte range of an entry: reading past the end of the source
/// yields only what exists, never an error.
pub open spec fn spec_segment(data: Seq<u8>, e: ADXEntry) -> Seq<u8> {
    let lo: int = if e.offset as int <= data.len() {
        e.offset as int
    } else {
        data.len() as int
    };
    let hi: int = if e.offset + e.size <= data.len() {
        (e.offset + e.size) as int
    } else {
        data.len() as int
    };
    data.subrange(lo, hi)
}

impl AfsFile {
    /// Reads the little-endian 32-bit value at `pos`.
    pub fn read_u32(data: &[u8], pos: usize) -> (r: u32)
        requires
            pos + 4 <= data@.len(),
        ensures
            r == u32_le(data@, pos as int),
    {
        let n: usize = data.len();
        assert(pos + 3 < n);
        let b0: u8 = *vstd::slice::slice_index_get(data, pos);
        let b1: u8 = *vstd::slice::slice_index_get(data, pos + 1);
        let b2: u8 = *vstd::slice::slice_index_get(data, pos + 2);
        let b3: u8 = *vstd::slice::slice_index_get(data, pos + 3);
        (b3 as u32) * 0x1000000 + (b2 as u32) * 0x10000 + (b1 as u32) * 0x100 + (b0 as u32)
    }

    /// Parses the entry table at the front of an archive.  Fails with
    /// `TruncatedInput` exactly when the source cannot hold the table its
    /// own header announces.
    pub fn new(data: &[u8]) -> (r: Result<AfsFile, AdxError>)
        ensures
            r is Ok <==> spec_table_ok(data@),
            r matches Ok(f) ==> {
                &&& f.current_entry == 0
                &&& f.entries@.len() == spec_entry_count(data@)
                &&& forall|i: int|
                    0 <= i < f.entries@.len() ==> #[trigger] f.entries@[i] == spec_entry(data@, i)
            },
            r is Err ==> r == Err::<AfsFile, AdxError>(AdxError::TruncatedInput),
    {
        if data.len() < 8 {
            return Err(AdxError::TruncatedInput);
        }
        let num_of_entries: u32 = Self::read_u32(data, 4);
        let count: usize = num_of_entries as usize;
        if (data.len() - 8) / 8 < count {
            return Err(AdxError::TruncatedInput);
        }
        let mut entries: Vec<ADXEntry> = Vec::new();
        let mut i: usize = 0;
        while i < count
            invariant
                i <= count,
                data@.len() <= usize::MAX,
                data@.len() >= 8 + 8 * count,
                count == spec_entry_count(data@),
                entries@.len() == i,
                forall|k: int|
                    0 <= k < entries@.len() ==> #[trigger] entries@[k] == spec_entry(data@, k),
            decreases count - i,
        {
            assert(8 * i + 16 <= data@.len());
            let position: u32 = Self::read_u32(data, 8 + 8 * i);
            let size: u32 = Self::read_u32(data, 12 + 8 * i);
            entries.push(ADXEntry { offset: position as u64, size: size as u64 });
            i = i + 1;
        }
        Ok(AfsFile { current_entry: 0, entries })
    }

    /// Returns the raw byte segment of entry `index`, clipped to the
    /// source, or no result when the index is out of range.  A zero-length
    /// segment is an empty value, not an error.
    pub fn entry(&self, data: &[u8], index: usize) -> (r: Option<Vec<u8>>)
        ensures
            index < self.entries@.len() ==> (r matches Some(v) && v@ == spec_segment(
                data@,
                self.entries@[index as int],
            )),
            index >= self.entries@.len() ==> r is None,
    {
        if index >= self.entries.len() {
            return None;
        }
        let offset: u64 = self.entries[index].offset;
        let size: u64 = self.entries[index].size;
        let len: u64 = data.len() as u64;
        let lo: u64 = if offset <= len {
            offset
        } else {
            len
        };
        let hi: u64 = if size <= len - lo {
            lo + size
        } else {
            len
        };
        proof {
            let e = self.entries@[index as int];
            assert(hi as int == if e.offset + e.size <= data@.len() {
                (e.offset + e.size) as int
            } else {
                data@.len() as int
            });
        }
        Some(slice_to_vec(slice_subrange(data, lo as usize, hi as usize)))
    }

    /// Returns the next entry's segment and advances the cursor; no result
    /// once every entry has been served.
    pub fn next_entry(&mut self, data: &[u8]) -> (r: Option<Vec<u8>>)
        ensures
            final(self).entries == old(self).entries,
            old(self).current_entry < old(self).entries@.len() ==> {
                &&& r matches Some(v) && v@ == spec_segment(
                    data@,
                    old(self).entries@[old(self).current_entry as int],
                )
                &&& final(self).current_entry == old(self).current_entry + 1
            },
            old(self).current_entry >= old(self).entries@.len() ==> r is None && *final(self)
                == *old(self),
    {
        if self.current_entry >= self.entries.len() {
            return None;
        }
        let r: Option<Vec<u8>> = self.entry(data, self.current_entry);
        self.current_entry = self.current_entry + 1;
        r
    }
}

} // verus!
