//! Bound propagation: every type parameter of the annotated type must itself
//! carry the merge capability, so that a generic container built from
//! mergeable parts is itself mergeable. This step cannot fail: it is a pure
//! structural transformation of the parameter list.

use vstd::prelude::*;

use crate::model::ParamDesc;
use crate::model::propagated;

verus! {

/// Add the merge-capability bound to every type parameter, leaving lifetime
/// and const parameters exactly as declared. Order and names are preserved.
pub fn add_trait_bounds(generics: Vec<ParamDesc>) -> (r: Vec<ParamDesc>)
    ensures
        r@.len() == generics@.len(),
        forall|i: int| 0 <= i < generics@.len() ==> r@[i] == propagated(generics@[i]),
{
    let mut out: Vec<ParamDesc> = Vec::new();
    let mut k: usize = 0;
    while k < generics.len()
        invariant
            k <= generics@.len(),
            out@.len() == k,
            forall|i: int| 0 <= i < k ==> out@[i] == propagated(generics@[i]),
        decreases generics@.len() - k,
    {
        let p = match &generics[k] {
            ParamDesc::TypeParam { name, has_merge_bound: _ } => ParamDesc::TypeParam {
                name: name.clone(),
                has_merge_bound: true,
            },
            ParamDesc::LifetimeParam { name } => ParamDesc::LifetimeParam { name: name.clone() },
            ParamDesc::ConstParam { name } => ParamDesc::ConstParam { name: name.clone() },
        };
        out.push(p);
        k = k + 1;
    }
    out
}

/// Law: bound propagation gives every type parameter the merge bound, keeps
/// every parameter's name and kind, and leaves lifetime and const parameters
/// untouched; a generic type whose parameters all pass through it is
/// therefore usable with the generated implementation.
pub proof fn lemma_bounds_propagated(params: Seq<ParamDesc>, propagated_params: Seq<ParamDesc>)
    requires
        propagated_params.len() == params.len(),
        forall|i: int| 0 <= i < params.len() ==> propagated_params[i] == propagated(params[i]),
    ensures
        forall|i: int|
            0 <= i < params.len() ==> (#[trigger] params[i] matches ParamDesc::TypeParam {
                name,
                ..
            } ==> propagated_params[i] == (ParamDesc::TypeParam { name, has_merge_bound: true })),
        forall|i: int|
            0 <= i < params.len() ==> (!(#[trigger] params[i] is TypeParam) ==> propagated_params[i]
                == params[i]),
{
}

} // verus!
