use newscope::vectors::{blob_to_vector, vector_to_blob};

#[test]
fn vector_blob_round_trip() {
    let v: Vec<f32> = vec![0.1, -2.5, 3.25e-7, f32::MAX, 0.0, -0.0];
    let bits: Vec<u32> = v.iter().map(|f| f.to_bits()).collect();
    let blob = vector_to_blob(&bits);
    assert_eq!(blob.len(), 24);
    let expected: Vec<u8> = v.iter().flat_map(|f| f.to_le_bytes()).collect();
    assert_eq!(blob, expected);
    let back = blob_to_vector(&blob).unwrap();
    let floats: Vec<f32> = back.iter().map(|b| f32::from_bits(*b)).collect();
    assert_eq!(floats.iter().map(|f| f.to_bits()).collect::<Vec<_>>(), bits);
}

#[test]
fn blob_of_wrong_length_is_refused() {
    assert_eq!(blob_to_vector(&vec![1, 2, 3]), None);
    assert_eq!(blob_to_vector(&vec![]), Some(vec![]));
    assert_eq!(vector_to_blob(&vec![0x0403_0201]), vec![1, 2, 3, 4]);
}
