//! Field-shape dispatch and plan emission: classify the annotated type's
//! data, emit one merge statement per field in declaration order, and
//! assemble the generated implementation. Variant-bearing shapes are
//! rejected here, at generation time, so no artifact for them ever exists.

use vstd::prelude::*;

use crate::bounds::add_trait_bounds;
use crate::model::DataDesc;
use crate::model::FieldAccess;
use crate::model::FieldsDesc;
use crate::model::GenError;
use crate::model::MergeImplDesc;
use crate::model::TypeDesc;
use crate::model::named_plan;
use crate::model::plan_of_fields;
use crate::model::propagated;
use crate::model::tuple_plan;

verus! {

/// Emit the merge plan for one supported field shape: by-name accesses for a
/// named record, ascending by-position accesses for a tuple, and the empty
/// plan for a field-less marker.
pub fn emit_field_plan(fields: &FieldsDesc) -> (r: Vec<FieldAccess>)
    ensures
        r@ == plan_of_fields(*fields),
{
    match fields {
        FieldsDesc::Named { names } => {
            let mut body: Vec<FieldAccess> = Vec::new();
            let mut k: usize = 0;
            while k < names.len()
                invariant
                    k <= names@.len(),
                    body@.len() == k,
                    forall|i: int|
                        0 <= i < k ==> body@[i] == (FieldAccess::ByName { name: names@[i] }),
                decreases names@.len() - k,
            {
                body.push(FieldAccess::ByName { name: names[k].clone() });
                k = k + 1;
            }
            proof {
                assert(body@ =~= named_plan(names@));
            }
            body
        },
        FieldsDesc::Unnamed { len } => {
            let n = *len;
            let mut body: Vec<FieldAccess> = Vec::new();
            let mut k: usize = 0;
            while k < n
                invariant
                    k <= n,
                    body@.len() == k,
                    forall|i: int| 0 <= i < k ==> body@[i] == (FieldAccess::ByPos { idx: i as usize }),
                decreases n - k,
            {
                body.push(FieldAccess::ByPos { idx: k });
                k = k + 1;
            }
            proof {
                assert(body@ =~= tuple_plan(n as nat));
            }
            body
        },
        FieldsDesc::Unit => Vec::new(),
    }
}

/// Classify the data shape and emit the generated body: one statement per
/// field for a struct, the merge-generation failure for a variant-bearing
/// shape. Success and failure are exhaustive and exclusive.
pub fn merge_children(data: &DataDesc) -> (r: Result<Vec<FieldAccess>, GenError>)
    ensures
        r is Ok <==> *data is StructData,
        r matches Ok(body) ==> (*data matches DataDesc::StructData { fields } && body@
            == plan_of_fields(fields)),
        r is Err ==> r == Err::<Vec<FieldAccess>, GenError>(GenError::Unsupported),
{
    match data {
        DataDesc::StructData { fields } => Ok(emit_field_plan(fields)),
        DataDesc::EnumData => Err(GenError::Unsupported),
        DataDesc::UnionData => Err(GenError::Unsupported),
    }
}

/// The generation entry point: propagate the merge bound over the generics,
/// emit the field-merge plan, and assemble the generated implementation.
///
/// Generation succeeds exactly on struct shapes; a variant-bearing type is
/// rejected with the unsupported-feature failure and no artifact.
pub fn derive_merge(input: TypeDesc) -> (r: Result<MergeImplDesc, GenError>)
    ensures
        r is Ok <==> input.data is StructData,
        r matches Ok(out) ==> ({
            &&& out.ty_name == input.name
            &&& out.generics@.len() == input.generics@.len()
            &&& forall|i: int|
                0 <= i < input.generics@.len() ==> out.generics@[i] == propagated(
                    input.generics@[i],
                )
            &&& input.data matches DataDesc::StructData { fields } && out.body@ == plan_of_fields(
                fields,
            )
        }),
        r is Err ==> r == Err::<MergeImplDesc, GenError>(GenError::Unsupported),
{
    let TypeDesc { name, generics, data } = input;
    let generics = add_trait_bounds(generics);
    let body = match merge_children(&data) {
        Ok(body) => body,
        Err(e) => {
            return Err(e);
        },
    };
    Ok(MergeImplDesc { ty_name: name, generics, body })
}

} // verus!
