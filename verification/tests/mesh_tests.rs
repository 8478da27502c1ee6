use glbind::mesh::Attribute;
use glbind::mesh::BufferUsage;
use glbind::mesh::Indices;
use glbind::mesh::index_bytes;
use glbind::mesh::vertex_bytes;

fn bits_of(floats: &[f32]) -> Vec<u32> {
    floats.iter().map(|f| f.to_bits()).collect()
}

#[test]
fn buffer_usage_binding_constants() {
    assert_eq!(BufferUsage::Static.as_u32(), 35044);
    assert_eq!(BufferUsage::Dynamic.as_u32(), 35048);
    assert_eq!(BufferUsage::Stream.as_u32(), 35040);
}

#[test]
fn vertex_payload_of_twelve_floats_is_forty_eight_bytes() {
    let quad: [f32; 12] = [
        -1.0, -1.0, 0.0, 1.0, -1.0, 0.0, 1.0, 1.0, 0.0, -1.0, 1.0, 0.0,
    ];
    let data = bits_of(&quad);
    let attr = Attribute::new(b"position".to_vec(), data, BufferUsage::Static, 3, None);
    let payload = vertex_bytes(attr.get_data());
    assert_eq!(payload.len(), 48);
    let mut expected: Vec<u8> = Vec::new();
    for f in quad.iter() {
        expected.extend_from_slice(&f.to_le_bytes());
    }
    assert_eq!(payload, expected);
}

#[test]
fn index_payload_keeps_values_in_order() {
    let idx = Indices::new(vec![0u16, 1, 2, 0, 2, 3], BufferUsage::Static);
    let payload = index_bytes(idx.get_data());
    assert_eq!(payload, vec![0u8, 0, 1, 0, 2, 0, 0, 0, 2, 0, 3, 0]);
}

#[test]
fn index_data_is_kept_unchanged() {
    let idx = Indices::new(vec![0u16, 1, 2, 0, 2, 3], BufferUsage::Static);
    assert_eq!(idx.get_data(), &vec![0u16, 1, 2, 0, 2, 3]);
    assert_eq!(idx.get_buffer_usage(), 35044);
}

#[test]
fn unspecified_stride_is_zero() {
    let attr = Attribute::new(
        b"position".to_vec(),
        bits_of(&[0.0, 0.0, 0.0]),
        BufferUsage::Static,
        3,
        None,
    );
    assert_eq!(attr.get_stride(), 0);
}

#[test]
fn given_stride_is_kept() {
    let attr = Attribute::new(
        b"position".to_vec(),
        bits_of(&[0.0, 0.0, 0.0]),
        BufferUsage::Static,
        3,
        Some(24),
    );
    assert_eq!(attr.get_stride(), 24);
}

#[test]
fn attribute_keeps_name_data_and_usage() {
    let data = bits_of(&[1.5, 2.5]);
    let attr = Attribute::new(
        b"uv".to_vec(),
        data.clone(),
        BufferUsage::Dynamic,
        2,
        None,
    );
    assert_eq!(attr.get_name(), &b"uv".to_vec());
    assert_eq!(attr.get_data(), &data);
    assert_eq!(attr.get_buffer_usage(), 35048);
    assert_eq!(attr.num_component, 2);
}

#[test]
fn empty_vertex_data_uploads_no_bytes() {
    let payload = vertex_bytes(&Vec::new());
    assert!(payload.is_empty());
}

#[test]
fn vertex_payload_is_little_endian_per_component() {
    let one: f32 = 1.0;
    let payload = vertex_bytes(&vec![one.to_bits()]);
    assert_eq!(payload, one.to_le_bytes().to_vec());
    assert_eq!(payload, vec![0u8, 0, 128, 63]);
}
