use rust_clip::clipboard::{
    accept_frame_length, decode_raw_buffer, encode_raw_buffer, encode_to_png, frame, hash_data,
    read_content, write_content, ClipContent, FrameError, MAX_PACKET_SIZE,
};

#[test]
fn test_hash_consistency() {
    let data1 = b"some content";
    let data2 = b"some content";
    let data3 = b"different content";

    let h1 = hash_data(data1);
    let h2 = hash_data(data2);
    let h3 = hash_data(data3);

    assert_eq!(h1, h2);
    assert_ne!(h1, h3);
}

#[test]
fn test_raw_encoding() {
    let width = 100usize;
    let height = 50usize;
    let bytes = vec![255u8; 100]; // Fake pixels

    let encoded = encode_raw_buffer(width, height, bytes.clone());
    let (w, h, decoded_bytes) = decode_raw_buffer(encoded);

    assert_eq!(width, w);
    assert_eq!(height, h);
    assert_eq!(bytes, decoded_bytes);
}

#[test]
fn fingerprint_is_the_digest_in_lower_case_hexadecimal() {
    assert_eq!(
        hash_data(b"some content"),
        "290f493c44f5d63d06b374d0a5abd292fae38b92cab2fae5efefe1b0e9347f56"
    );
    assert_eq!(
        hash_data(b"hello"),
        "2cf24dba5fb0a30e26e83b2ac5b9e29e1b161e5c1fa7425e73043362938b9824"
    );
    assert_eq!(
        hash_data(b""),
        "e3b0c44298fc1c149afbf4c8996fb92427ae41e4649b934ca495991b7852b855"
    );
}

#[test]
fn raw_buffer_layout_is_two_big_endian_words_then_pixels() {
    let packed = encode_raw_buffer(0x0102, 3, vec![9, 8, 7]);
    assert_eq!(
        packed,
        vec![0, 0, 0, 0, 0, 0, 1, 2, 0, 0, 0, 0, 0, 0, 0, 3, 9, 8, 7]
    );
    let (w, h, pixels) = decode_raw_buffer(vec![0u8; 16]);
    assert_eq!((w, h, pixels), (0, 0, vec![]));
}

#[test]
fn content_layout_for_text_and_image() {
    let text = write_content(&ClipContent::Text("hi".to_string()));
    assert_eq!(text, vec![0, 0, 0, 0, 2, 0, 0, 0, 0, 0, 0, 0, b'h', b'i']);
    let image = write_content(&ClipContent::Image(vec![0xAA, 0xBB, 0xCC]));
    assert_eq!(image, vec![1, 0, 0, 0, 3, 0, 0, 0, 0, 0, 0, 0, 0xAA, 0xBB, 0xCC]);
}

#[test]
fn content_matches_bincode_of_variant_and_body() {
    let ours = write_content(&ClipContent::Text("héllo wörld".to_string()));
    let theirs = bincode::serialize(&(0u32, "héllo wörld".to_string())).unwrap();
    assert_eq!(ours, theirs);
    let ours = write_content(&ClipContent::Image(vec![1, 2, 3, 4, 5]));
    let theirs = bincode::serialize(&(1u32, vec![1u8, 2, 3, 4, 5])).unwrap();
    assert_eq!(ours, theirs);
}

#[test]
fn content_round_trip() {
    for content in [
        ClipContent::Text(String::new()),
        ClipContent::Text("hello".to_string()),
        ClipContent::Text("日本語 and emoji 🦀".to_string()),
        ClipContent::Image(vec![]),
        ClipContent::Image((0..=255u8).collect()),
    ] {
        let bytes = write_content(&content);
        assert_eq!(read_content(&bytes), Some(content));
    }
}

#[test]
fn content_that_is_malformed_is_refused() {
    assert_eq!(read_content(&[]), None);
    assert_eq!(read_content(&[0u8; 11]), None);
    // unknown kind
    assert_eq!(read_content(&[2, 0, 0, 0, 0, 0, 0, 0, 0, 0, 0, 0]), None);
    assert_eq!(read_content(&[0, 1, 0, 0, 0, 0, 0, 0, 0, 0, 0, 0]), None);
    // announces more than it holds
    assert_eq!(read_content(&[0, 0, 0, 0, 3, 0, 0, 0, 0, 0, 0, 0, b'a', b'b']), None);
    // text that is no UTF-8
    assert_eq!(read_content(&[0, 0, 0, 0, 2, 0, 0, 0, 0, 0, 0, 0, 0xC3, 0x28]), None);
    // the same bytes are fine as an image
    assert_eq!(
        read_content(&[1, 0, 0, 0, 2, 0, 0, 0, 0, 0, 0, 0, 0xC3, 0x28]),
        Some(ClipContent::Image(vec![0xC3, 0x28]))
    );
    // empty text and what follows the content
    assert_eq!(
        read_content(&[0, 0, 0, 0, 1, 0, 0, 0, 0, 0, 0, 0, b'x', b'y', b'z']),
        Some(ClipContent::Text("x".to_string()))
    );
}

#[test]
fn frame_is_length_then_data() {
    assert_eq!(frame(b"abc"), Ok(vec![0, 0, 0, 3, b'a', b'b', b'c']));
    assert_eq!(frame(b""), Ok(vec![0, 0, 0, 0]));
    let data = vec![7u8; 0x0001_0203];
    let framed = frame(&data).unwrap();
    assert_eq!(&framed[..4], &[0, 1, 2, 3]);
    assert_eq!(&framed[4..], &data[..]);
}

#[test]
fn frame_that_is_too_large_is_not_made() {
    let data = vec![0u8; MAX_PACKET_SIZE + 1];
    assert_eq!(frame(&data), Err(FrameError::FrameTooLarge));
    let data = vec![0u8; MAX_PACKET_SIZE];
    assert_eq!(frame(&data).unwrap().len(), MAX_PACKET_SIZE + 4);
}

#[test]
fn declared_length_above_the_maximum_is_rejected() {
    assert_eq!(MAX_PACKET_SIZE, 50 * 1024 * 1024);
    assert_eq!(accept_frame_length(&[0, 0, 0, 0]), Ok(0));
    assert_eq!(accept_frame_length(&[0, 0, 1, 2]), Ok(258));
    assert_eq!(accept_frame_length(&[0x03, 0x20, 0x00, 0x00]), Ok(MAX_PACKET_SIZE));
    assert_eq!(accept_frame_length(&[0x03, 0x20, 0x00, 0x01]), Err(FrameError::FrameTooLarge));
    assert_eq!(accept_frame_length(&[0xFF, 0xFF, 0xFF, 0xFF]), Err(FrameError::FrameTooLarge));
    assert_eq!(accept_frame_length(&[0x80, 0, 0, 0]), Err(FrameError::FrameTooLarge));
}

#[test]
fn png_of_an_image_decodes_to_the_same_pixels() {
    let pixels: Vec<u8> = (0..2 * 3 * 4).map(|i| (i * 11) as u8).collect();
    let file = encode_to_png(2, 3, &pixels).unwrap();
    assert_eq!(&file[..8], &[0x89, b'P', b'N', b'G', 0x0D, 0x0A, 0x1A, 0x0A]);
    assert_ne!(file, pixels);
    let decoded = image::load_from_memory(&file).unwrap().to_rgba8();
    assert_eq!((decoded.width(), decoded.height()), (2, 3));
    assert_eq!(decoded.into_raw(), pixels);
}

#[test]
fn png_is_not_made_of_pixels_that_do_not_fit_the_dimensions() {
    assert_eq!(encode_to_png(2, 3, &[0u8; 23]), None);
    assert_eq!(encode_to_png(2, 3, &[0u8; 25]), None);
    assert_eq!(encode_to_png(usize::MAX, 1, &[0u8; 4]), None);
    assert_eq!(encode_to_png(1 << 31, 1 << 31, &[]), None);
    assert_eq!(encode_to_png(0, 0, &[]), None);
}
