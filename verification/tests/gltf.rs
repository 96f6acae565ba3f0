use tubereng::gltf::read_u16_indices;

#[test]
fn indices_are_little_endian_pairs() {
    let data = [0u8, 0, 1, 0, 2, 1, 9, 0];
    assert_eq!(read_u16_indices(&data, 2, 4), vec![1, 258]);
    assert_eq!(read_u16_indices(&data, 0, 3), vec![0, 1]);
    assert!(read_u16_indices(&data, 4, 0).is_empty());
}
