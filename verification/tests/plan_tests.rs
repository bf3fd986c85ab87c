use simple_ocl::plan::{
    generate_sync_plan, is_paired_type, AggregateShape, FieldDecl, GenError,
};
use simple_ocl::policy::SyncPolicy;

fn field(name: &str, ty: &str, policy: Option<SyncPolicy>) -> FieldDecl {
    FieldDecl {
        name: name.to_string(),
        ty: ty.to_string(),
        policy,
    }
}

#[test]
fn paired_type_recognition() {
    assert!(is_paired_type("PairedBuffers < N , D >"));
    assert!(is_paired_type("PairedBuffers1 < i32 >"));
    assert!(is_paired_type("PairedBuffers2 < f64 >"));
    assert!(!is_paired_type("ProQue"));
    assert!(!is_paired_type("Event"));
    assert!(!is_paired_type("(usize , usize)"));
    assert!(!is_paired_type(""));
}

#[test]
fn plans_list_exactly_the_opted_in_fields_in_declaration_order() {
    let fields = vec![
        field("que", "ProQue", None),
        field(
            "a",
            "PairedBuffers1 < i32 >",
            Some(SyncPolicy {
                push: true,
                pull: false,
            }),
        ),
        field("b", "PairedBuffers1 < f32 >", None),
        field(
            "c",
            "PairedBuffers2 < f64 >",
            Some(SyncPolicy {
                push: false,
                pull: true,
            }),
        ),
        field("shape", "(usize , usize)", None),
    ];
    let plan = generate_sync_plan(&AggregateShape::NamedFields(fields)).unwrap();
    assert_eq!(plan.send_order, vec![1, 2]);
    assert_eq!(plan.retrieve_order, vec![2, 3]);
}

#[test]
fn unpaired_fields_are_inert_even_with_a_degenerate_policy() {
    let fields = vec![
        field(
            "status",
            "Event",
            Some(SyncPolicy {
                push: false,
                pull: false,
            }),
        ),
        field("a", "PairedBuffers1 < u32 >", None),
    ];
    let plan = generate_sync_plan(&AggregateShape::NamedFields(fields)).unwrap();
    assert_eq!(plan.send_order, vec![1]);
    assert_eq!(plan.retrieve_order, vec![1]);
}

#[test]
fn unspecified_policy_acts_as_both_directions() {
    let unspecified = vec![field("a", "PairedBuffers1 < i32 >", None)];
    let explicit = vec![field(
        "a",
        "PairedBuffers1 < i32 >",
        Some(SyncPolicy {
            push: true,
            pull: true,
        }),
    )];
    let plan_unspecified = generate_sync_plan(&AggregateShape::NamedFields(unspecified)).unwrap();
    let plan_explicit = generate_sync_plan(&AggregateShape::NamedFields(explicit)).unwrap();
    assert_eq!(plan_unspecified.send_order, plan_explicit.send_order);
    assert_eq!(plan_unspecified.retrieve_order, plan_explicit.retrieve_order);
    assert_eq!(plan_unspecified.send_order, vec![0]);
    assert_eq!(plan_unspecified.retrieve_order, vec![0]);
}

#[test]
fn redundant_paired_field_fails_generation_with_its_name() {
    let fields = vec![
        field("a", "PairedBuffers1 < i32 >", None),
        field(
            "b",
            "PairedBuffers1 < f32 >",
            Some(SyncPolicy {
                push: false,
                pull: false,
            }),
        ),
        field("c", "PairedBuffers2 < f64 >", None),
    ];
    match generate_sync_plan(&AggregateShape::NamedFields(fields)) {
        Err(GenError::RedundantField { index, name }) => {
            assert_eq!(index, 1);
            assert_eq!(name, "b");
        }
        _ => panic!("generation must fail on the redundant field"),
    }
}

#[test]
fn first_redundant_field_is_the_one_reported() {
    let degenerate = Some(SyncPolicy {
        push: false,
        pull: false,
    });
    let fields = vec![
        field("x", "PairedBuffers1 < i8 >", degenerate),
        field("y", "PairedBuffers1 < i16 >", degenerate),
    ];
    match generate_sync_plan(&AggregateShape::NamedFields(fields)) {
        Err(GenError::RedundantField { index, name }) => {
            assert_eq!(index, 0);
            assert_eq!(name, "x");
        }
        _ => panic!("generation must fail on the first redundant field"),
    }
}

#[test]
fn unsupported_shapes_fail_generation() {
    assert!(matches!(
        generate_sync_plan(&AggregateShape::UnnamedFields),
        Err(GenError::UnnamedFields)
    ));
    assert!(matches!(
        generate_sync_plan(&AggregateShape::NotAStruct),
        Err(GenError::NotAStruct)
    ));
}

#[test]
fn empty_field_list_generates_empty_plans() {
    let plan = generate_sync_plan(&AggregateShape::NamedFields(Vec::new())).unwrap();
    assert!(plan.send_order.is_empty());
    assert!(plan.retrieve_order.is_empty());
}
