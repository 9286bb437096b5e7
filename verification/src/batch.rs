//! The batch validator: confirms that a pulled array node is logically a
//! struct of columns and pairs the schema's fields with the node's children,
//! by position.

use vstd::prelude::*;

use crate::array::ArrayNode;
use crate::error::BridgeError;
use crate::schema::Field;
use crate::schema::Schema;
use crate::schema::TypeTag;
use crate::schema::field_like;

verus! {

/// A node may stand as the root of a record batch for a schema exactly when
/// it carries the struct type tag and has one child per schema field.
pub open spec fn valid_root(schema: Schema, node: ArrayNode) -> bool {
    &&& node.type_tag == TypeTag::Struct
    &&& node.children@.len() == schema.fields@.len()
}

/// One validated chunk of tabular data: the named, typed columns of the
/// schema paired positionally with the root node's children. Field order is
/// significant.
#[derive(Debug)]
pub struct RecordBatch {
    /// The field descriptions, in column order.
    pub fields: Vec<Field>,
    /// The column arrays, one per field, in the same order.
    pub columns: Vec<ArrayNode>,
    /// The number of rows the batch holds.
    pub num_rows: usize,
}

/// What a validated batch holds: exactly the root node's children as
/// columns, the root's row count, and a copy of the schema's fields paired
/// with them in order.
pub open spec fn batch_matches(schema: Schema, node: ArrayNode, b: RecordBatch) -> bool {
    &&& b.columns@ == node.children@
    &&& b.num_rows == node.len
    &&& b.fields@.len() == schema.fields@.len()
    &&& forall|i: int|
        0 <= i < schema.fields@.len() ==> field_like(#[trigger] b.fields@[i], schema.fields@[i])
}

impl RecordBatch {
    /// Field count and column count agree.
    pub open spec fn wf(self) -> bool {
        self.fields@.len() == self.columns@.len()
    }

    /// How many columns the batch exposes.
    pub fn column_count(&self) -> (n: usize)
        ensures
            n == self.columns@.len(),
    {
        self.columns.len()
    }

    /// How many rows the batch holds.
    pub fn row_count(&self) -> (n: usize)
        ensures
            n == self.num_rows,
    {
        self.num_rows
    }

    /// The column array at position `i`, read-only.
    pub fn column(&self, i: usize) -> (r: Option<&ArrayNode>)
        ensures
            r is Some <==> i < self.columns@.len(),
            i < self.columns@.len() ==> (r matches Some(c) && *c == self.columns@[i as int]),
    {
        if i < self.columns.len() {
            Some(&self.columns[i])
        } else {
            None
        }
    }

    /// The field description at position `i`.
    pub fn field(&self, i: usize) -> (r: Option<&Field>)
        ensures
            r is Some <==> i < self.fields@.len(),
            i < self.fields@.len() ==> (r matches Some(f) && *f == self.fields@[i as int]),
    {
        if i < self.fields.len() {
            Some(&self.fields[i])
        } else {
            None
        }
    }

    /// The position of the first field named `name`, or `None` when no field
    /// carries that name.
    pub fn column_index_by_name(&self, name: &String) -> (r: Option<usize>)
        ensures
            r is None <==> (forall|i: int|
                0 <= i < self.fields@.len() ==> self.fields@[i].name@ != name@),
            r matches Some(i) ==> {
                &&& i < self.fields@.len()
                &&& self.fields@[i as int].name@ == name@
                &&& forall|j: int| 0 <= j < i ==> self.fields@[j].name@ != name@
            },
    {
        let n = self.fields.len();
        let mut i: usize = 0;
        while i < n
            invariant
                0 <= i <= n,
                n == self.fields@.len(),
                forall|j: int| 0 <= j < i ==> self.fields@[j].name@ != name@,
            decreases n - i,
        {
            let f = &self.fields[i];
            if f.name == *name {
                return Some(i);
            }
            i += 1;
        }
        None
    }
}

/// Validates one pulled node against the schema: the root must carry the
/// struct type tag, and its child count must equal the field count. On
/// success the node's children become the batch's columns; a rejected node
/// yields no batch.
pub fn validate_batch(schema: &Schema, node: ArrayNode) -> (r: Result<RecordBatch, BridgeError>)
    ensures
        node.type_tag != TypeTag::Struct ==> (r matches Err(e) && e is StructTypeMismatch),
        node.type_tag == TypeTag::Struct && node.children@.len() != schema.fields@.len() ==> (
        r matches Err(e) && e is SchemaColumnCountMismatch),
        valid_root(*schema, node) ==> (r matches Ok(b) && batch_matches(*schema, node, b)
            && b.wf()),
{
    if !matches!(node.type_tag, TypeTag::Struct) {
        return Err(BridgeError::StructTypeMismatch);
    }
    if node.children.len() != schema.fields.len() {
        return Err(BridgeError::SchemaColumnCountMismatch);
    }
    Ok(RecordBatch {
        fields: schema.duplicate_fields(),
        columns: node.children,
        num_rows: node.len,
    })
}

} // verus!
