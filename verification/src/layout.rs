//! The single chokepoint justifying the cast between two independent
//! declarations of the stream handle type.
//!
//! Two separately compiled libraries each declare "the same" handle record.
//! Reinterpreting a pointer of one declared type as the other is permitted
//! only if both declarations match the one externally standardized layout:
//! exactly five pointer-sized fields in the fixed order `{get_schema,
//! get_next, get_last_error, release, private_data}`, with the natural
//! offsets, size and alignment. The caller measures each declared type once,
//! checks it here, and casts only after both checks pass.

use vstd::prelude::*;

verus! {

/// The number of fields in the standardized handle record.
pub const HANDLE_FIELD_COUNT: usize = 5;

/// The measured layout of one declared handle type: its total size and
/// alignment, and the byte offset of each of the five fields in ABI order.
#[derive(Debug, Clone, PartialEq, Eq)]
pub struct HandleLayout {
    /// Size of the record in bytes.
    pub size: usize,
    /// Alignment of the record in bytes.
    pub align: usize,
    /// Byte offsets of the five fields, in the standardized order.
    pub field_offsets: Vec<usize>,
}

/// A declared handle type conforms to the standardized layout for a machine
/// whose pointers are `ptr_bytes` wide: five fields packed back to back at
/// pointer-sized offsets, pointer alignment, no padding.
pub open spec fn abi_conformant(l: HandleLayout, ptr_bytes: usize) -> bool {
    &&& ptr_bytes > 0
    &&& l.align == ptr_bytes
    &&& l.size == HANDLE_FIELD_COUNT * ptr_bytes
    &&& l.field_offsets@.len() == HANDLE_FIELD_COUNT
    &&& forall|i: int|
        0 <= i < HANDLE_FIELD_COUNT ==> l.field_offsets@[i] == i * ptr_bytes
}

impl HandleLayout {
    /// Decides whether this measured layout matches the standardized handle
    /// layout. Two declared types whose layouts both pass this check describe
    /// byte-for-byte identical records, which is what makes the pointer cast
    /// between them sound.
    pub fn conforms_to_abi(&self, ptr_bytes: usize) -> (r: bool)
        ensures
            r == abi_conformant(*self, ptr_bytes),
    {
        if ptr_bytes == 0 {
            return false;
        }
        if ptr_bytes > usize::MAX / HANDLE_FIELD_COUNT {
            // The standardized size would not even fit in an address, so no
            // measured size can equal it.
            proof {
                assert(HANDLE_FIELD_COUNT * ptr_bytes > usize::MAX);
            }
            return false;
        }
        if self.align != ptr_bytes {
            return false;
        }
        if self.size != HANDLE_FIELD_COUNT * ptr_bytes {
            return false;
        }
        if self.field_offsets.len() != HANDLE_FIELD_COUNT {
            return false;
        }
        let mut i: usize = 0;
        let mut expected: usize = 0;
        while i < HANDLE_FIELD_COUNT
            invariant
                0 <= i <= HANDLE_FIELD_COUNT,
                0 < ptr_bytes <= usize::MAX / HANDLE_FIELD_COUNT,
                expected == i * ptr_bytes,
                self.field_offsets@.len() == HANDLE_FIELD_COUNT,
                forall|j: int| 0 <= j < i ==> self.field_offsets@[j] == j * ptr_bytes,
            decreases HANDLE_FIELD_COUNT - i,
        {
            if self.field_offsets[i] != expected {
                return false;
            }
            proof {
                assert((i + 1) * ptr_bytes <= HANDLE_FIELD_COUNT * ptr_bytes
                    && (i + 1) * ptr_bytes == i * ptr_bytes + ptr_bytes) by (nonlinear_arith)
                    requires
                        0 <= i,
                        i + 1 <= HANDLE_FIELD_COUNT,
                        ptr_bytes >= 0,
                ;
            }
            expected = expected + ptr_bytes;
            i += 1;
        }
        true
    }
}

} // verus!
