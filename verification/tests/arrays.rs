use stream_bridge::array::ArrayNode;
use stream_bridge::array::i64_to_repr;
use stream_bridge::array::int64_column;
use stream_bridge::array::var_bytes_column;
use stream_bridge::schema::TypeTag;

fn int64_node(data: Vec<u8>, len: usize) -> ArrayNode {
    ArrayNode {
        type_tag: TypeTag::Int64,
        len,
        null_count: 0,
        releasable: true,
        validity: vec![],
        data,
        offsets: vec![],
        children: vec![],
    }
}

fn var_node(tag: TypeTag, data: Vec<u8>, offsets: Vec<usize>, len: usize) -> ArrayNode {
    ArrayNode {
        type_tag: tag,
        len,
        null_count: 0,
        releasable: true,
        validity: vec![],
        data,
        offsets,
        children: vec![],
    }
}

#[test]
fn int64_values_read_little_endian() {
    let node = int64_node(
        vec![
            1, 0, 0, 0, 0, 0, 0, 0, // 1
            0xff, 0xff, 0xff, 0xff, 0xff, 0xff, 0xff, 0xff, // -1
            0, 0, 0, 0, 0, 0, 0, 0x80, // i64::MIN
            0xff, 0xff, 0xff, 0xff, 0xff, 0xff, 0xff, 0x7f, // i64::MAX
        ],
        4,
    );
    assert_eq!(node.int64_at(0), Some(1));
    assert_eq!(node.int64_at(1), Some(-1));
    assert_eq!(node.int64_at(2), Some(i64::MIN));
    assert_eq!(node.int64_at(3), Some(i64::MAX));
    assert_eq!(node.int64_at(4), None);
}

#[test]
fn int64_read_refuses_other_shapes() {
    let wrong_tag = var_node(TypeTag::Text, vec![0; 8], vec![0, 8], 1);
    assert_eq!(wrong_tag.int64_at(0), None);
    let short_buffer = int64_node(vec![0; 7], 1);
    assert_eq!(short_buffer.int64_at(0), None);
}

#[test]
fn repr_of_signed_values() {
    assert_eq!(i64_to_repr(0), 0);
    assert_eq!(i64_to_repr(1), 1);
    assert_eq!(i64_to_repr(-1), u64::MAX);
    assert_eq!(i64_to_repr(i64::MIN), 0x8000_0000_0000_0000);
    assert_eq!(i64_to_repr(i64::MAX), 0x7fff_ffff_ffff_ffff);
}

#[test]
fn variable_length_slots_come_back_byte_for_byte() {
    let node = var_node(TypeTag::Text, b"heyworld".to_vec(), vec![0, 3, 3, 8], 3);
    assert_eq!(node.bytes_at(0), Some(b"hey".to_vec()));
    assert_eq!(node.bytes_at(1), Some(vec![]));
    assert_eq!(node.bytes_at(2), Some(b"world".to_vec()));
    assert_eq!(node.bytes_at(3), None);
}

#[test]
fn variable_length_read_refuses_bad_offsets() {
    let backwards = var_node(TypeTag::Binary, vec![1, 2, 3], vec![0, 2, 1], 2);
    assert_eq!(backwards.bytes_at(0), None);
    let out_of_buffer = var_node(TypeTag::Binary, vec![1, 2, 3], vec![0, 2, 9], 2);
    assert_eq!(out_of_buffer.bytes_at(0), None);
    let nonzero_start = var_node(TypeTag::Binary, vec![1, 2, 3], vec![1, 2, 3], 2);
    assert_eq!(nonzero_start.bytes_at(0), None);
    let wrong_tag = int64_node(vec![0; 8], 1);
    assert_eq!(wrong_tag.bytes_at(0), None);
}

#[test]
fn int64_column_round_trips() {
    let values = vec![0, 1, -1, 42, i64::MIN, i64::MAX];
    let node = int64_column(&values);
    assert_eq!(node.type_tag, TypeTag::Int64);
    assert_eq!(node.len, values.len());
    assert_eq!(node.data.len(), 8 * values.len());
    assert!(node.releasable);
    for (i, v) in values.iter().enumerate() {
        assert_eq!(node.int64_at(i), Some(*v));
    }
    assert_eq!(node.int64_at(values.len()), None);
}

#[test]
fn var_bytes_column_round_trips() {
    let values = vec![b"hey".to_vec(), vec![], b"world".to_vec()];
    let node = var_bytes_column(TypeTag::Text, &values);
    assert_eq!(node.type_tag, TypeTag::Text);
    assert_eq!(node.len, 3);
    assert_eq!(node.offsets, vec![0, 3, 3, 8]);
    for (i, v) in values.iter().enumerate() {
        assert_eq!(node.bytes_at(i).as_ref(), Some(v));
    }
    assert_eq!(node.bytes_at(3), None);
}

#[test]
fn validity_bitmap_or_absence() {
    let mut node = int64_node(vec![0; 16], 2);
    assert_eq!(node.valid_at(0), Some(true));
    assert_eq!(node.valid_at(2), None);
    node.validity = vec![true, false];
    assert_eq!(node.valid_at(0), Some(true));
    assert_eq!(node.valid_at(1), Some(false));
    node.validity = vec![true];
    assert_eq!(node.valid_at(0), None);
}

#[test]
fn sentinel_is_a_node_without_release() {
    let mut node = int64_node(vec![], 0);
    assert!(!node.is_end_of_stream());
    node.releasable = false;
    assert!(node.is_end_of_stream());
}
