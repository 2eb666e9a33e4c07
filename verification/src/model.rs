//! Descriptions consumed and produced by the generator.
//!
//! The generator never sees runtime values of the annotated type; it sees the
//! type's structural description: its name, its generic parameters, and its
//! field shape. Its output is equally structural: the plan of the generated
//! `merge` procedure, one field access per statement, in declaration order.

use vstd::prelude::*;

verus! {

/// One generic parameter of the annotated type.
///
/// Bound propagation only ever touches type parameters: lifetime and const
/// parameters cannot carry the merge capability and are left as declared.
#[derive(Debug, Clone, PartialEq, Eq)]
pub enum ParamDesc {
    /// A type parameter, with whether its bound list already carries the
    /// merge capability.
    TypeParam { name: String, has_merge_bound: bool },
    /// A lifetime parameter.
    LifetimeParam { name: String },
    /// A const parameter.
    ConstParam { name: String },
}

/// The field shape of a struct: named record, positional tuple, or
/// field-less marker.
#[derive(Debug, Clone, PartialEq, Eq)]
pub enum FieldsDesc {
    /// A named record; `names` lists the field names in declaration order.
    Named { names: Vec<String> },
    /// A positional tuple with `len` fields.
    Unnamed { len: usize },
    /// A field-less marker type.
    Unit,
}

/// The top-level classification of the annotated type's data.
#[derive(Debug, Clone, PartialEq, Eq)]
pub enum DataDesc {
    /// A struct, with its field shape.
    StructData { fields: FieldsDesc },
    /// A variant-bearing type; merge generation is unsupported for it.
    EnumData,
    /// An untagged union; merge generation is unsupported for it.
    UnionData,
}

/// The full structural description of one annotated type.
#[derive(Debug, Clone, PartialEq, Eq)]
pub struct TypeDesc {
    /// The type's name.
    pub name: String,
    /// The generic parameters, in declaration order.
    pub generics: Vec<ParamDesc>,
    /// The data shape.
    pub data: DataDesc,
}

/// How one generated statement reaches the field it merges: by field name in
/// a named record, or by zero-based position in a tuple.
#[derive(Debug, Clone, PartialEq, Eq)]
pub enum FieldAccess {
    /// `self.<name>.merge(other.<name>)?;`
    ByName { name: String },
    /// `self.<idx>.merge(other.<idx>)?;`
    ByPos { idx: usize },
}

/// A generation-time failure. No partial artifact accompanies it.
#[derive(Debug, Clone, Copy, PartialEq, Eq, Structural)]
pub enum GenError {
    /// The annotated type selects among alternatives (enum-like or union);
    /// merge generation for such shapes is deliberately unsupported.
    Unsupported,
}

/// The generated artifact: one `merge` implementation attached to the
/// annotated type, with the bound-propagated generics and the body plan.
#[derive(Debug, Clone, PartialEq, Eq)]
pub struct MergeImplDesc {
    /// The annotated type's name.
    pub ty_name: String,
    /// The generic parameters after bound propagation.
    pub generics: Vec<ParamDesc>,
    /// The body: one field merge per statement, in declaration order.
    pub body: Vec<FieldAccess>,
}

/// What bound propagation does to a single parameter: a type parameter gains
/// the merge bound (idempotently); anything else is untouched.
pub open spec fn propagated(p: ParamDesc) -> ParamDesc {
    match p {
        ParamDesc::TypeParam { name, has_merge_bound: _ } => ParamDesc::TypeParam {
            name,
            has_merge_bound: true,
        },
        other => other,
    }
}

/// The plan emitted for a named record: one by-name access per field, in
/// declaration order.
pub open spec fn named_plan(names: Seq<String>) -> Seq<FieldAccess> {
    names.map_values(|n: String| FieldAccess::ByName { name: n })
}

/// The plan emitted for a positional tuple: one by-position access per field,
/// indices ascending from zero.
pub open spec fn tuple_plan(len: nat) -> Seq<FieldAccess> {
    Seq::new(len, |i: int| FieldAccess::ByPos { idx: i as usize })
}

/// The plan emitted for each supported field shape. A marker type gets the
/// empty plan: merging two markers does nothing and succeeds.
pub open spec fn plan_of_fields(fields: FieldsDesc) -> Seq<FieldAccess> {
    match fields {
        FieldsDesc::Named { names } => named_plan(names@),
        FieldsDesc::Unnamed { len } => tuple_plan(len as nat),
        FieldsDesc::Unit => Seq::empty(),
    }
}

/// Generation outcome per data shape: structs get their field-shape plan;
/// variant-bearing shapes are rejected.
pub open spec fn plan_of_data(data: DataDesc) -> Result<Seq<FieldAccess>, GenError> {
    match data {
        DataDesc::StructData { fields } => Ok(plan_of_fields(fields)),
        DataDesc::EnumData => Err(GenError::Unsupported),
        DataDesc::UnionData => Err(GenError::Unsupported),
    }
}

/// Field names of a named record are distinct (as the host language requires
/// of any record type). Distinctness is stated over the names' contents.
pub open spec fn distinct_names(names: Seq<String>) -> bool {
    forall|i: int, j: int| 0 <= i < j < names.len() ==> names[i]@ != names[j]@
}

/// A well-formed field shape: a named record has distinct field names.
pub open spec fn wf_fields(fields: FieldsDesc) -> bool {
    match fields {
        FieldsDesc::Named { names } => distinct_names(names@),
        FieldsDesc::Unnamed { len: _ } => true,
        FieldsDesc::Unit => true,
    }
}

/// A well-formed data description.
pub open spec fn wf_data(data: DataDesc) -> bool {
    match data {
        DataDesc::StructData { fields } => wf_fields(fields),
        DataDesc::EnumData => true,
        DataDesc::UnionData => true,
    }
}

} // verus!
