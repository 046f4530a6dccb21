use hati::layout::{
    draw_data_bytes, index_bytes, light_bytes, push_words, vertex_bytes, view_data_bytes,
};
use hati::pass::lighting::PointLight;
use hati::scene::geometry::{DrawData, VertexPos};
use hati::sync::ViewData;

#[test]
fn words_are_little_endian() {
    let mut bytes = vec![0xAA];
    push_words(&mut bytes, &[0x0102_0304, 0, 0xFFFF_FFFE]);
    assert_eq!(bytes, vec![0xAA, 4, 3, 2, 1, 0, 0, 0, 0, 0xFE, 0xFF, 0xFF, 0xFF]);
    push_words(&mut bytes, &[]);
    assert_eq!(bytes.len(), 13);
}

#[test]
fn vertices_take_twelve_bytes() {
    let one = 1.0f32.to_bits();
    let bytes = vertex_bytes(&vec![VertexPos([one, 0, 2]), VertexPos([0x0A0B_0C0D, 3, 4])]);
    assert_eq!(
        bytes,
        vec![0, 0, 0x80, 0x3F, 0, 0, 0, 0, 2, 0, 0, 0, 0x0D, 0x0C, 0x0B, 0x0A, 3, 0, 0, 0, 4, 0, 0, 0]
    );
    assert_eq!(f32::from_le_bytes([bytes[0], bytes[1], bytes[2], bytes[3]]), 1.0);
    assert!(vertex_bytes(&Vec::new()).is_empty());
}

#[test]
fn indices_take_four_bytes() {
    assert_eq!(index_bytes(&vec![1, 0x100, 0x0102_0304]), vec![1, 0, 0, 0, 0, 1, 0, 0, 4, 3, 2, 1]);
    assert!(index_bytes(&Vec::new()).is_empty());
}

#[test]
fn draw_data_holds_base_index_then_base_vertex() {
    let bytes = draw_data_bytes(&vec![
        DrawData { base_index: 6, base_vertex: 4 },
        DrawData { base_index: 0x0100, base_vertex: 0x0200_0000 },
    ]);
    assert_eq!(bytes, vec![6, 0, 0, 0, 4, 0, 0, 0, 0, 1, 0, 0, 0, 0, 0, 2]);
}

#[test]
fn lights_hold_position_then_intensity() {
    let bytes = light_bytes(&vec![PointLight { position: [1, 2, 3], intensity: 0x447A_0000 }]);
    assert_eq!(bytes, vec![1, 0, 0, 0, 2, 0, 0, 0, 3, 0, 0, 0, 0, 0, 0x7A, 0x44]);
    assert_eq!(f32::from_le_bytes([bytes[12], bytes[13], bytes[14], bytes[15]]), 1000.0);
    assert_eq!(light_bytes(&vec![PointLight { position: [0; 3], intensity: 0 }; 10]).len(), 160);
}

#[test]
fn view_data_fills_a_slot() {
    let mut view = [0u32; 16];
    let mut proj = [0u32; 16];
    for i in 0..16 {
        view[i] = i as u32;
        proj[i] = 0x100 + i as u32;
    }
    let bytes = view_data_bytes(&ViewData { view, proj, position: [0x201, 0x202, 0x203, 0x204] });
    assert_eq!(bytes.len(), 256);
    for i in 0..16 {
        assert_eq!(&bytes[4 * i..4 * i + 4], &[i as u8, 0, 0, 0]);
        assert_eq!(&bytes[64 + 4 * i..64 + 4 * i + 4], &[i as u8, 1, 0, 0]);
    }
    for i in 0..4 {
        assert_eq!(&bytes[128 + 4 * i..128 + 4 * i + 4], &[i as u8 + 1, 2, 0, 0]);
    }
    assert!(bytes[144..].iter().all(|byte| *byte == 0));
}
