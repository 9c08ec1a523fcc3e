use c_header_gen::ir::{CType, CompositeType, Field, OpaqueType, PrimitiveType};
use c_header_gen::sort::sort_types_by_dependencies;

fn holder(name: &str, field_ty: CType) -> CType {
    CType::Composite(CompositeType {
        name: String::from(name),
        fields: vec![Field { name: String::from("inner"), the_type: field_ty }],
    })
}

fn leaf(name: &str) -> CType {
    CType::Composite(CompositeType {
        name: String::from(name),
        fields: vec![Field {
            name: String::from("x"),
            the_type: CType::Primitive(PrimitiveType::U32),
        }],
    })
}

#[test]
fn sort_moves_value_dependency_first() {
    let types = vec![holder("Outer", leaf("Inner")), leaf("Inner")];
    let order = sort_types_by_dependencies(&types);
    assert_eq!(order, vec![1, 0]);
}

#[test]
fn sort_resolves_a_chain() {
    let types = vec![
        holder("C", leaf("B")),
        holder("B", leaf("A")),
        leaf("A"),
    ];
    let order = sort_types_by_dependencies(&types);
    assert_eq!(order, vec![2, 1, 0]);
}

#[test]
fn sort_keeps_unrelated_input_order() {
    let types = vec![
        CType::Primitive(PrimitiveType::U8),
        CType::Opaque(OpaqueType { name: String::from("First") }),
        CType::Opaque(OpaqueType { name: String::from("Second") }),
    ];
    let order = sort_types_by_dependencies(&types);
    assert_eq!(order, vec![0, 1, 2]);
}

#[test]
fn pointer_fields_do_not_force_an_order() {
    let types = vec![
        holder(
            "Outer",
            CType::ReadPointer(Box::new(leaf("Inner"))),
        ),
        leaf("Inner"),
    ];
    let order = sort_types_by_dependencies(&types);
    assert_eq!(order, vec![0, 1]);
}

#[test]
fn cyclic_input_falls_back_to_input_order() {
    let types = vec![holder("A", leaf("B")), holder("B", leaf("A"))];
    let order = sort_types_by_dependencies(&types);
    assert_eq!(order, vec![0, 1]);
}
