//! The stream's schema: the ordered field description fetched once, before
//! the first batch is pulled, and immutable from then on.

use vstd::prelude::*;

verus! {

/// The logical type of one column, as far as the bridge interprets it. The
/// bridge validates shape, not contents, so one tag stands for every type it
/// does not look inside.
#[derive(Debug, Clone, Copy, PartialEq, Eq, Structural)]
pub enum TypeTag {
    /// A struct of named child columns; the only tag a batch root may carry.
    Struct,
    /// A 64-bit signed integer column.
    Int64,
    /// A variable-length text column with offset and data buffers.
    Text,
    /// A variable-length binary column with offset and data buffers.
    Binary,
    /// Any column type the bridge passes through without interpreting.
    Other,
}

/// One column description: name, declared type, and nullability.
#[derive(Debug, Clone, PartialEq, Eq)]
pub struct Field {
    /// The column's name; unique within a schema.
    pub name: String,
    /// The column's declared type.
    pub type_tag: TypeTag,
    /// Whether the column may hold null slots.
    pub nullable: bool,
}

/// Two field descriptions carry the same name, type and nullability.
pub open spec fn field_like(a: Field, b: Field) -> bool {
    &&& a.name@ == b.name@
    &&& a.type_tag == b.type_tag
    &&& a.nullable == b.nullable
}

impl Field {
    /// An equal, independently owned copy of this field description.
    pub fn duplicate(&self) -> (r: Field)
        ensures
            field_like(r, *self),
    {
        Field { name: self.name.clone(), type_tag: self.type_tag, nullable: self.nullable }
    }
}

/// The ordered list of field descriptions for one stream. Field order is
/// significant; names are meant to be unique, which [`Schema::has_distinct_names`]
/// decides.
#[derive(Debug, Clone, PartialEq, Eq)]
pub struct Schema {
    /// The fields, in column order.
    pub fields: Vec<Field>,
}

/// No two fields of the sequence share a name.
pub open spec fn distinct_names(fields: Seq<Field>) -> bool {
    forall|i: int, j: int|
        0 <= i < j < fields.len() ==> fields[i].name@ != fields[j].name@
}

impl Schema {
    /// How many columns the schema describes.
    pub fn field_count(&self) -> (n: usize)
        ensures
            n == self.fields@.len(),
    {
        self.fields.len()
    }

    /// Decides whether every field name is unique, as the data model asks.
    pub fn has_distinct_names(&self) -> (r: bool)
        ensures
            r == distinct_names(self.fields@),
    {
        let n = self.fields.len();
        let mut i: usize = 0;
        while i < n
            invariant
                0 <= i <= n,
                n == self.fields@.len(),
                forall|p: int, q: int|
                    0 <= p < q < self.fields@.len() && p < i
                        ==> self.fields@[p].name@ != self.fields@[q].name@,
            decreases n - i,
        {
            let mut j: usize = i + 1;
            while j < n
                invariant
                    0 <= i < j <= n,
                    n == self.fields@.len(),
                    forall|q: int|
                        i < q < j ==> self.fields@[i as int].name@ != self.fields@[q].name@,
                decreases n - j,
            {
                let a = &self.fields[i];
                let b = &self.fields[j];
                if a.name == b.name {
                    return false;
                }
                j += 1;
            }
            i += 1;
        }
        true
    }

    /// An equal, independently owned copy of the field list, so that each
    /// validated record batch can carry its own.
    pub fn duplicate_fields(&self) -> (r: Vec<Field>)
        ensures
            r@.len() == self.fields@.len(),
            forall|i: int|
                0 <= i < r@.len() ==> field_like(#[trigger] r@[i], self.fields@[i]),
    {
        let n = self.fields.len();
        let mut out: Vec<Field> = Vec::new();
        let mut i: usize = 0;
        while i < n
            invariant
                0 <= i <= n,
                n == self.fields@.len(),
                out@.len() == i,
                forall|k: int|
                    0 <= k < i ==> field_like(#[trigger] out@[k], self.fields@[k]),
            decreases n - i,
        {
            out.push(self.fields[i].duplicate());
            i += 1;
        }
        out
    }
}

} // verus!
