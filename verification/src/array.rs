//! Array nodes: one column, or one struct-of-columns, as the producer hands
//! it across the boundary — a type tag, a validity indicator, child nodes,
//! raw buffers, and the node's own ownership-release slot.

use vstd::prelude::*;
use vstd::bytes::lemma_auto_spec_u64_to_from_le_bytes;
use vstd::bytes::spec_u64_from_le_bytes;
use vstd::bytes::spec_u64_to_le_bytes;
use vstd::bytes::u64_from_le_bytes;
use vstd::bytes::u64_to_le_bytes;
use vstd::slice::slice_subrange;

use crate::schema::TypeTag;

verus! {

/// The unsigned two's-complement carrier of a signed 64-bit value, as it sits
/// in a column's data buffer.
pub open spec fn u64_repr(v: i64) -> u64 {
    if v >= 0 {
        v as u64
    } else {
        ((v as int) + 0x1_0000_0000_0000_0000) as u64
    }
}

/// The signed 64-bit value carried by an unsigned two's-complement word.
pub open spec fn i64_of_repr(u: u64) -> i64 {
    if u < 0x8000_0000_0000_0000 {
        u as i64
    } else {
        ((u as int) - 0x1_0000_0000_0000_0000) as i64
    }
}

/// Reading a value back out of its two's-complement carrier is the identity.
pub proof fn lemma_repr_round_trip(v: i64)
    ensures
        i64_of_repr(u64_repr(v)) == v,
{
}

/// One column or struct-of-columns value. A node pulled from the producer is
/// owned by the consumer until the consumer invokes the node's own release
/// slot — the `releasable` flag says whether that slot is populated, and a
/// node whose slot is empty is the end-of-stream sentinel, not data.
#[derive(Debug)]
pub struct ArrayNode {
    /// The node's logical type.
    pub type_tag: TypeTag,
    /// The number of slots (rows) the node holds.
    pub len: usize,
    /// How many of those slots are null.
    pub null_count: usize,
    /// Whether the node's own release slot is populated. An unpopulated slot
    /// in a successfully returned node signals end-of-stream.
    pub releasable: bool,
    /// The validity bitmap: one flag per slot, or empty when every slot is
    /// valid.
    pub validity: Vec<bool>,
    /// The raw data buffer.
    pub data: Vec<u8>,
    /// For variable-length types, the slot boundaries within `data`.
    pub offsets: Vec<usize>,
    /// The child nodes of a nested or struct-typed node.
    pub children: Vec<ArrayNode>,
}

impl ArrayNode {
    /// A successfully returned node whose own release slot is empty carries
    /// no batch: it is the protocol's end-of-stream sentinel.
    pub fn is_end_of_stream(&self) -> (r: bool)
        ensures
            r == !self.releasable,
    {
        !self.releasable
    }

    /// The validity bitmap either covers every slot or is absent entirely.
    pub open spec fn wf_validity(self) -> bool {
        self.validity@.len() == 0 || self.validity@.len() == self.len
    }

    /// Whether slot `i` holds a value; an absent bitmap means every slot
    /// does.
    pub fn valid_at(&self, i: usize) -> (r: Option<bool>)
        ensures
            r is Some <==> (self.wf_validity() && i < self.len),
            (self.wf_validity() && i < self.len) ==> r == Some(
                self.validity@.len() == 0 || self.validity@[i as int],
            ),
    {
        if i < self.len && self.validity.len() == 0 {
            Some(true)
        } else if i < self.len && self.validity.len() == self.len {
            Some(self.validity[i])
        } else {
            None
        }
    }

    /// A well-formed signed 64-bit integer column: eight data bytes per slot.
    pub open spec fn wf_int64(self) -> bool {
        &&& self.type_tag == TypeTag::Int64
        &&& self.data@.len() == 8 * self.len
    }

    /// The signed value in slot `i` of an integer column, read little-endian
    /// out of the data buffer.
    pub open spec fn int64_value(self, i: int) -> i64 {
        i64_of_repr(spec_u64_from_le_bytes(self.data@.subrange(8 * i, 8 * i + 8)))
    }

    /// Reads slot `i` of a signed 64-bit integer column; answers `None`
    /// exactly when the node is not such a column or the index is out of
    /// range.
    pub fn int64_at(&self, i: usize) -> (r: Option<i64>)
        ensures
            r is Some <==> (self.wf_int64() && i < self.len),
            (self.wf_int64() && i < self.len) ==> r == Some(self.int64_value(i as int)),
    {
        if !matches!(self.type_tag, TypeTag::Int64) {
            return None;
        }
        if !(i < self.len) {
            return None;
        }
        if !(self.data.len() % 8 == 0 && self.data.len() / 8 == self.len) {
            return None;
        }
        let start: usize = 8 * i;
        let word = u64_from_le_bytes(slice_subrange(self.data.as_slice(), start, start + 8));
        Some(repr_to_i64(word))
    }

    /// A well-formed variable-length (text or binary) column: one more offset
    /// than slots, offsets non-decreasing from zero, all within the data
    /// buffer.
    pub open spec fn wf_var_bytes(self) -> bool {
        &&& (self.type_tag == TypeTag::Text || self.type_tag == TypeTag::Binary)
        &&& self.offsets@.len() == self.len + 1
        &&& self.offsets@[0] == 0
        &&& forall|k: int|
            0 <= k < self.len ==> #[trigger] self.offsets@[k] <= self.offsets@[k + 1]
        &&& self.offsets@[self.len as int] <= self.data@.len()
    }

    /// The bytes of slot `i` of a variable-length column.
    pub open spec fn var_bytes_value(self, i: int) -> Seq<u8> {
        self.data@.subrange(self.offsets@[i] as int, self.offsets@[i + 1] as int)
    }

    /// Decides well-formedness of a variable-length column at run time.
    pub fn check_var_bytes(&self) -> (r: bool)
        ensures
            r == self.wf_var_bytes(),
    {
        if !(matches!(self.type_tag, TypeTag::Text) || matches!(self.type_tag, TypeTag::Binary)) {
            return false;
        }
        if self.offsets.len() == 0 || self.offsets.len() - 1 != self.len {
            return false;
        }
        if self.offsets[0] != 0 {
            return false;
        }
        let mut k: usize = 0;
        while k < self.len
            invariant
                0 <= k <= self.len,
                self.offsets@.len() == self.len + 1,
                forall|j: int|
                    0 <= j < k ==> #[trigger] self.offsets@[j] <= self.offsets@[j + 1],
            decreases self.len - k,
        {
            if self.offsets[k] > self.offsets[k + 1] {
                return false;
            }
            k += 1;
        }
        self.offsets[self.len] <= self.data.len()
    }

    /// Copies the bytes of slot `i` out of a variable-length column; answers
    /// `None` exactly when the node is not a well-formed such column or the
    /// index is out of range. The buffers themselves stay in place and remain
    /// readable through the node.
    pub fn bytes_at(&self, i: usize) -> (r: Option<Vec<u8>>)
        ensures
            r is Some <==> (self.wf_var_bytes() && i < self.len),
            (self.wf_var_bytes() && i < self.len) ==> (r matches Some(v) && v@
                == self.var_bytes_value(i as int)),
    {
        if !self.check_var_bytes() {
            return None;
        }
        if !(i < self.len) {
            return None;
        }
        let start = self.offsets[i];
        let end = self.offsets[i + 1];
        proof {
            assert(self.offsets@[i as int] <= self.offsets@[i as int + 1]);
            lemma_offsets_bounded(*self, i as int);
        }
        let mut out: Vec<u8> = Vec::new();
        let mut j: usize = start;
        while j < end
            invariant
                start <= j <= end,
                end <= self.data@.len(),
                out@ == self.data@.subrange(start as int, j as int),
            decreases end - j,
        {
            out.push(self.data[j]);
            proof {
                assert(out@ =~= self.data@.subrange(start as int, j as int + 1));
            }
            j += 1;
        }
        Some(out)
    }
}

/// In a well-formed variable-length column every offset up to `i + 1` stays
/// within the data buffer.
proof fn lemma_offsets_bounded(node: ArrayNode, i: int)
    requires
        node.wf_var_bytes(),
        0 <= i < node.len,
    ensures
        node.offsets@[i + 1] <= node.data@.len(),
    decreases node.len - i,
{
    if i + 1 == node.len {
    } else {
        assert(node.offsets@[i + 1] <= node.offsets@[i + 2]);
        lemma_offsets_bounded(node, i + 1);
    }
}

/// Builds a signed 64-bit integer column holding exactly `values`, encoded
/// little-endian, eight bytes per slot, every slot valid — the producer-side
/// inverse of [`ArrayNode::int64_at`].
pub fn int64_column(values: &Vec<i64>) -> (node: ArrayNode)
    ensures
        node.wf_int64(),
        node.len == values@.len(),
        node.releasable,
        node.null_count == 0,
        node.validity@.len() == 0,
        node.children@.len() == 0,
        forall|i: int| 0 <= i < values@.len() ==> node.int64_value(i) == values@[i],
{
    let n = values.len();
    let mut data: Vec<u8> = Vec::new();
    let mut i: usize = 0;
    while i < n
        invariant
            0 <= i <= n,
            n == values@.len(),
            data@.len() == 8 * i,
            forall|k: int|
                0 <= k < i ==> #[trigger] data@.subrange(8 * k, 8 * k + 8)
                    == spec_u64_to_le_bytes(u64_repr(values@[k])),
        decreases n - i,
    {
        let word = i64_to_repr(values[i]);
        let mut bytes = u64_to_le_bytes(word);
        let ghost before = data@;
        data.append(&mut bytes);
        proof {
            lemma_auto_spec_u64_to_from_le_bytes();
            assert forall|k: int| 0 <= k < i + 1 implies #[trigger] data@.subrange(
                8 * k,
                8 * k + 8,
            ) == spec_u64_to_le_bytes(u64_repr(values@[k])) by {
                if k < i {
                    assert(data@.subrange(8 * k, 8 * k + 8) =~= before.subrange(
                        8 * k,
                        8 * k + 8,
                    ));
                } else {
                    assert(data@.subrange(8 * k, 8 * k + 8) =~= spec_u64_to_le_bytes(
                        u64_repr(values@[k]),
                    ));
                }
            }
        }
        i += 1;
    }
    let node = ArrayNode {
        type_tag: TypeTag::Int64,
        len: n,
        null_count: 0,
        releasable: true,
        validity: Vec::new(),
        data,
        offsets: Vec::new(),
        children: Vec::new(),
    };
    proof {
        lemma_auto_spec_u64_to_from_le_bytes();
        assert forall|i: int| 0 <= i < values@.len() implies node.int64_value(i)
            == values@[i] by {
            assert(node.data@.subrange(8 * i, 8 * i + 8) == spec_u64_to_le_bytes(
                u64_repr(values@[i]),
            ));
            lemma_repr_round_trip(values@[i]);
        }
    }
    node
}

/// Builds a variable-length (text or binary) column holding exactly
/// `values`, slot by slot, with a fresh offset buffer — the producer-side
/// inverse of [`ArrayNode::bytes_at`].
#[verifier::rlimit(50)]
pub fn var_bytes_column(tag: TypeTag, values: &Vec<Vec<u8>>) -> (node: ArrayNode)
    requires
        tag == TypeTag::Text || tag == TypeTag::Binary,
    ensures
        node.wf_var_bytes(),
        node.type_tag == tag,
        node.len == values@.len(),
        node.releasable,
        node.null_count == 0,
        node.validity@.len() == 0,
        node.children@.len() == 0,
        forall|i: int|
            0 <= i < values@.len() ==> node.var_bytes_value(i) == #[trigger] values@[i]@,
{
    let n = values.len();
    let mut offsets: Vec<usize> = Vec::new();
    let mut data: Vec<u8> = Vec::new();
    offsets.push(0);
    let mut i: usize = 0;
    while i < n
        invariant
            0 <= i <= n,
            n == values@.len(),
            offsets@.len() == i + 1,
            offsets@[0] == 0,
            offsets@[i as int] == data@.len(),
            forall|k: int| 0 <= k <= i ==> #[trigger] offsets@[k] <= data@.len(),
            forall|k: int| 0 <= k < i ==> #[trigger] offsets@[k] <= offsets@[k + 1],
            forall|k: int|
                0 <= k < i ==> #[trigger] data@.subrange(
                    offsets@[k] as int,
                    offsets@[k + 1] as int,
                ) == values@[k]@,
        decreases n - i,
    {
        let src = &values[i];
        let mut j: usize = 0;
        let ghost before = data@;
        let ghost pre_off = offsets@;
        while j < src.len()
            invariant
                0 <= j <= src@.len(),
                src@ == values@[i as int]@,
                data@ == before + src@.subrange(0, j as int),
            decreases src@.len() - j,
        {
            data.push(src[j]);
            proof {
                assert(data@ =~= before + src@.subrange(0, j as int + 1));
            }
            j += 1;
        }
        proof {
            assert(data@ =~= before + src@);
        }
        let end = data.len();
        offsets.push(end);
        proof {
            assert(offsets@ =~= pre_off.push(end));
            assert(forall|k: int| 0 <= k <= i ==> #[trigger] offsets@[k] == pre_off[k]);
            assert(forall|k: int| 0 <= k <= i ==> #[trigger] offsets@[k] <= before.len());
            assert forall|k: int|
                0 <= k < i + 1 implies #[trigger] data@.subrange(
                    offsets@[k] as int,
                    offsets@[k + 1] as int,
                ) == values@[k]@ by {
                if k < i {
                    assert(data@.subrange(offsets@[k] as int, offsets@[k + 1] as int)
                        =~= before.subrange(offsets@[k] as int, offsets@[k + 1] as int));
                } else {
                    assert(data@.subrange(offsets@[k] as int, offsets@[k + 1] as int)
                        =~= values@[k]@);
                }
            }
        }
        i += 1;
    }
    ArrayNode {
        type_tag: tag,
        len: n,
        null_count: 0,
        releasable: true,
        validity: Vec::new(),
        data,
        offsets,
        children: Vec::new(),
    }
}

/// Turns a two's-complement word from a data buffer back into its signed
/// value.
fn repr_to_i64(u: u64) -> (v: i64)
    ensures
        v == i64_of_repr(u),
{
    if u < 0x8000_0000_0000_0000 {
        u as i64
    } else if u == 0x8000_0000_0000_0000 {
        i64::MIN
    } else {
        -(((u64::MAX - u) + 1) as i64)
    }
}

/// Turns a signed value into the two's-complement word a column buffer would
/// carry.
pub fn i64_to_repr(v: i64) -> (u: u64)
    ensures
        u == u64_repr(v),
{
    if v >= 0 {
        v as u64
    } else {
        u64::MAX - ((-(v + 1)) as u64)
    }
}

} // verus!
