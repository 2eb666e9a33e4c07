//! Generation-side behaviour: bound propagation, field-shape dispatch, and
//! plan emission for each supported shape, plus rejection of the unsupported
//! ones.

use merge_derive::bounds::add_trait_bounds;
use merge_derive::emit::derive_merge;
use merge_derive::emit::emit_field_plan;
use merge_derive::emit::merge_children;
use merge_derive::model::DataDesc;
use merge_derive::model::FieldAccess;
use merge_derive::model::FieldsDesc;
use merge_derive::model::GenError;
use merge_derive::model::ParamDesc;
use merge_derive::model::TypeDesc;

fn named(names: &[&str]) -> FieldsDesc {
    FieldsDesc::Named { names: names.iter().map(|n| n.to_string()).collect() }
}

#[test]
fn marker_type_plan_is_empty() {
    let desc = TypeDesc {
        name: "Marker".to_string(),
        generics: Vec::new(),
        data: DataDesc::StructData { fields: FieldsDesc::Unit },
    };
    let out = derive_merge(desc).unwrap();
    assert_eq!(out.ty_name, "Marker".to_string());
    assert!(out.body.is_empty());
}

#[test]
fn named_record_plan_in_declaration_order() {
    let out = derive_merge(TypeDesc {
        name: "Config".to_string(),
        generics: Vec::new(),
        data: DataDesc::StructData { fields: named(&["host", "port", "retries"]) },
    })
    .unwrap();
    assert_eq!(
        out.body,
        vec![
            FieldAccess::ByName { name: "host".to_string() },
            FieldAccess::ByName { name: "port".to_string() },
            FieldAccess::ByName { name: "retries".to_string() },
        ]
    );
}

#[test]
fn tuple_plan_positions_ascending() {
    let out = derive_merge(TypeDesc {
        name: "Pair".to_string(),
        generics: Vec::new(),
        data: DataDesc::StructData { fields: FieldsDesc::Unnamed { len: 4 } },
    })
    .unwrap();
    assert_eq!(
        out.body,
        vec![
            FieldAccess::ByPos { idx: 0 },
            FieldAccess::ByPos { idx: 1 },
            FieldAccess::ByPos { idx: 2 },
            FieldAccess::ByPos { idx: 3 },
        ]
    );
}

#[test]
fn enum_type_rejected_at_generation_time() {
    // The failure happens while generating, so no artifact ever exists that
    // could fail at runtime.
    let r = derive_merge(TypeDesc {
        name: "Choice".to_string(),
        generics: Vec::new(),
        data: DataDesc::EnumData,
    });
    assert_eq!(r, Err(GenError::Unsupported));
}

#[test]
fn union_type_rejected_at_generation_time() {
    let r = merge_children(&DataDesc::UnionData);
    assert_eq!(r, Err(GenError::Unsupported));
}

#[test]
fn field_plan_for_each_shape() {
    assert_eq!(emit_field_plan(&FieldsDesc::Unit), Vec::new());
    assert_eq!(
        emit_field_plan(&named(&["a"])),
        vec![FieldAccess::ByName { name: "a".to_string() }]
    );
    assert_eq!(
        emit_field_plan(&FieldsDesc::Unnamed { len: 1 }),
        vec![FieldAccess::ByPos { idx: 0 }]
    );
}

#[test]
fn bounds_added_to_type_params_only() {
    let generics = vec![
        ParamDesc::TypeParam { name: "T".to_string(), has_merge_bound: false },
        ParamDesc::LifetimeParam { name: "'a".to_string() },
        ParamDesc::ConstParam { name: "N".to_string() },
        ParamDesc::TypeParam { name: "U".to_string(), has_merge_bound: true },
    ];
    let bounded = add_trait_bounds(generics);
    assert_eq!(
        bounded,
        vec![
            ParamDesc::TypeParam { name: "T".to_string(), has_merge_bound: true },
            ParamDesc::LifetimeParam { name: "'a".to_string() },
            ParamDesc::ConstParam { name: "N".to_string() },
            ParamDesc::TypeParam { name: "U".to_string(), has_merge_bound: true },
        ]
    );
}

#[test]
fn generics_propagated_through_entry_point() {
    let out = derive_merge(TypeDesc {
        name: "Wrapper".to_string(),
        generics: vec![ParamDesc::TypeParam { name: "T".to_string(), has_merge_bound: false }],
        data: DataDesc::StructData { fields: named(&["inner"]) },
    })
    .unwrap();
    assert_eq!(
        out.generics,
        vec![ParamDesc::TypeParam { name: "T".to_string(), has_merge_bound: true }]
    );
}
