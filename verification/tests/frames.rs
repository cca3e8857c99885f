use capture::{CaptureError, Config, Format, Frame};

#[test]
fn config_new_keeps_the_format() {
    assert_eq!(Config::new(Format::RGBA).format, Format::RGBA);
    assert_eq!(Config::new(Format::BGRA).format, Format::BGRA);
}

#[test]
fn frame_new_keeps_its_arguments() {
    let frame = Frame::new(2, 1, vec![1, 2, 3, 4, 5, 6, 7, 8], Format::BGRA);
    assert_eq!(frame.width, 2);
    assert_eq!(frame.height, 1);
    assert_eq!(frame.buffer, vec![1u8, 2, 3, 4, 5, 6, 7, 8]);
    assert_eq!(frame.format, Format::BGRA);
}

#[test]
fn frame_new_does_not_judge_the_buffer() {
    let frame = Frame::new(100, 100, vec![1, 2, 3], Format::RGBA);
    assert_eq!(frame.buffer.len(), 3);
}

#[test]
fn into_format_converts_between_layouts() {
    let frame = Frame::new(1, 2, vec![1, 2, 3, 4, 5, 6, 7, 8], Format::RGBA);
    let bgra = frame.into_format(Format::BGRA);
    assert_eq!(bgra.format, Format::BGRA);
    assert_eq!(bgra.width, 1);
    assert_eq!(bgra.height, 2);
    assert_eq!(bgra.buffer, vec![3u8, 2, 1, 4, 7, 6, 5, 8]);
    let rgba = bgra.into_format(Format::RGBA);
    assert_eq!(rgba.format, Format::RGBA);
    assert_eq!(rgba.buffer, vec![1u8, 2, 3, 4, 5, 6, 7, 8]);
}

#[test]
fn into_format_of_the_same_layout_changes_nothing() {
    let frame = Frame::new(1, 1, vec![9, 8, 7, 6], Format::BGRA);
    let same = frame.into_format(Format::BGRA);
    assert_eq!(same.format, Format::BGRA);
    assert_eq!(same.buffer, vec![9u8, 8, 7, 6]);
}

#[test]
fn into_image_hands_rgba_to_the_encoder() {
    let frame = Frame::new(2, 1, vec![1, 2, 3, 4, 5, 6, 7, 8], Format::BGRA);
    let made = frame.into_image().unwrap();
    assert_eq!(made.image.dimensions(), (2, 1));
    assert_eq!(made.image.as_raw(), &vec![3u8, 2, 1, 4, 7, 6, 5, 8]);
    assert_eq!(made.image.get_pixel(0, 0).0, [3u8, 2, 1, 4]);
    assert_eq!(made.image.get_pixel(1, 0).0, [7u8, 6, 5, 8]);
}

#[test]
fn into_image_keeps_rgba_as_it_is() {
    let frame = Frame::new(1, 1, vec![1, 2, 3, 4], Format::RGBA);
    let made = frame.into_image().unwrap();
    assert_eq!(made.image.as_raw(), &vec![1u8, 2, 3, 4]);
}

#[test]
fn into_image_rejects_a_short_buffer() {
    let frame = Frame::new(2, 2, vec![0; 15], Format::RGBA);
    assert_eq!(frame.into_image().err(), Some(CaptureError::EncodeError));
}

#[test]
fn into_image_accepts_a_longer_buffer() {
    let frame = Frame::new(1, 1, vec![1, 2, 3, 4, 5, 6], Format::RGBA);
    let made = frame.into_image().unwrap();
    assert_eq!(made.image.dimensions(), (1, 1));
    assert_eq!(made.image.as_raw().len(), 6);
}

#[test]
fn into_image_of_an_empty_frame() {
    let frame = Frame::new(0, 0, Vec::new(), Format::RGBA);
    let made = frame.into_image().unwrap();
    assert_eq!(made.image.dimensions(), (0, 0));
}

#[test]
fn into_image_rejects_a_size_beyond_any_buffer() {
    let frame = Frame::new(u32::MAX, u32::MAX, vec![0; 16], Format::BGRA);
    assert_eq!(frame.into_image().err(), Some(CaptureError::EncodeError));
}
