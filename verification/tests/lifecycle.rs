use stream_bridge::error::BridgeError;
use stream_bridge::handle::GuardPhase;
use stream_bridge::handle::HandleView;
use stream_bridge::handle::ReleaseGuard;
use stream_bridge::layout::HandleLayout;
use stream_bridge::schema::Field;
use stream_bridge::schema::Schema;
use stream_bridge::schema::TypeTag;

#[test]
fn fully_populated_handle_passes() {
    let handle = HandleView {
        has_get_schema: true,
        has_get_next: true,
        has_get_last_error: true,
        has_release: true,
    };
    assert!(handle.check_populated().is_ok());
}

#[test]
fn any_empty_slot_is_reported() {
    for missing in 0..4 {
        let handle = HandleView {
            has_get_schema: missing != 0,
            has_get_next: missing != 1,
            has_get_last_error: missing != 2,
            has_release: missing != 3,
        };
        assert_eq!(handle.check_populated().unwrap_err(), BridgeError::UnexpectedNullPointer);
    }
}

#[test]
fn guard_walks_the_lifecycle() {
    let mut guard = ReleaseGuard::new();
    assert_eq!(guard.current_phase(), GuardPhase::Empty);
    guard.mark_populated();
    assert_eq!(guard.current_phase(), GuardPhase::Populated);
    guard.mark_iterating();
    assert_eq!(guard.current_phase(), GuardPhase::Iterating);
    assert!(!guard.is_released());
    assert!(guard.release());
    assert!(guard.is_released());
}

#[test]
fn finish_owes_the_release_exactly_once() {
    let mut guard = ReleaseGuard::new();
    assert!(guard.finish());
    assert!(!guard.finish());
    assert!(!guard.finish());
    assert!(guard.is_released());

    let mut guard = ReleaseGuard::new();
    guard.mark_populated();
    guard.mark_iterating();
    assert!(guard.finish());
    assert!(!guard.finish());
}

#[test]
fn standard_layout_on_eight_byte_pointers() {
    let layout = HandleLayout { size: 40, align: 8, field_offsets: vec![0, 8, 16, 24, 32] };
    assert!(layout.conforms_to_abi(8));
    assert!(!layout.conforms_to_abi(4));
    assert!(!layout.conforms_to_abi(0));
}

#[test]
fn standard_layout_on_four_byte_pointers() {
    let layout = HandleLayout { size: 20, align: 4, field_offsets: vec![0, 4, 8, 12, 16] };
    assert!(layout.conforms_to_abi(4));
}

#[test]
fn deviant_layouts_are_rejected() {
    let padded = HandleLayout { size: 48, align: 8, field_offsets: vec![0, 8, 16, 24, 32] };
    assert!(!padded.conforms_to_abi(8));
    let reordered = HandleLayout { size: 40, align: 8, field_offsets: vec![0, 8, 16, 32, 24] };
    assert!(!reordered.conforms_to_abi(8));
    let four_fields = HandleLayout { size: 40, align: 8, field_offsets: vec![0, 8, 16, 24] };
    assert!(!four_fields.conforms_to_abi(8));
}

#[test]
fn schema_field_names_must_be_unique() {
    let distinct = Schema {
        fields: vec![
            Field { name: String::from("id"), type_tag: TypeTag::Int64, nullable: false },
            Field { name: String::from("name"), type_tag: TypeTag::Text, nullable: true },
        ],
    };
    assert!(distinct.has_distinct_names());
    assert_eq!(distinct.field_count(), 2);

    let repeated = Schema {
        fields: vec![
            Field { name: String::from("id"), type_tag: TypeTag::Int64, nullable: false },
            Field { name: String::from("id"), type_tag: TypeTag::Text, nullable: true },
        ],
    };
    assert!(!repeated.has_distinct_names());

    let empty = Schema { fields: vec![] };
    assert!(empty.has_distinct_names());
}

#[test]
fn duplicated_fields_are_equal() {
    let field = Field { name: String::from("id"), type_tag: TypeTag::Int64, nullable: false };
    let copy = field.duplicate();
    assert_eq!(copy, field);
    let schema = Schema { fields: vec![field] };
    let copies = schema.duplicate_fields();
    assert_eq!(copies, schema.fields);
}
