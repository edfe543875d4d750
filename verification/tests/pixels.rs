use space_thumbnails::pixels::rgba_to_argb;

#[test]
fn repacks_rgba_bytes_into_argb_words() {
    let rgba: Vec<u8> = vec![
        0x11, 0x22, 0x33, 0x44, // first pixel: r g b a
        0xAA, 0xBB, 0xCC, 0xDD, // second pixel
    ];
    let argb = rgba_to_argb(&rgba);
    assert_eq!(argb, vec![0x44112233, 0xDDAABBCC]);
}

#[test]
fn opaque_white_and_transparent_black() {
    let rgba: Vec<u8> = vec![255, 255, 255, 255, 0, 0, 0, 0];
    let argb = rgba_to_argb(&rgba);
    assert_eq!(argb, vec![0xFFFFFFFF, 0x00000000]);
}

#[test]
fn empty_buffer_yields_no_pixels() {
    let rgba: Vec<u8> = Vec::new();
    assert_eq!(rgba_to_argb(&rgba), Vec::<u32>::new());
}
