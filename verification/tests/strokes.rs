use render_wasm::shapes::{StrokeCap, StrokeKind, StrokeStyle};
use render_wasm::strokes::{
    parse_stroke_from_bytes, parse_strokes_buffer, parse_strokes_from_bytes, stroke_parts_from_args, RawStrokeCap,
    RawStrokeKind, RawStrokeStyle, RAW_FILL_DATA_SIZE, STROKE_ENTRY_SIZE,
};

#[test]
fn test_stroke_entry_size() {
    // STROKE_ENTRY_SIZE = 8 bytes header + RAW_FILL_DATA_SIZE bytes fill
    assert_eq!(STROKE_ENTRY_SIZE, 8 + RAW_FILL_DATA_SIZE);
}

#[test]
fn test_parse_stroke_center_solid() {
    let mut entry = vec![0u8; STROKE_ENTRY_SIZE];
    // kind = Center (0)
    entry[0] = 0;
    // style = Solid (0)
    entry[1] = 0;
    // cap_start = None (0)
    entry[2] = 0;
    // cap_end = None (0)
    entry[3] = 0;
    // width = 5.0 (f32 LE)
    entry[4..8].copy_from_slice(&5.0f32.to_le_bytes());
    // fill: solid (tag byte 0x00 at offset 8, color at offset 12)
    entry[8] = 0x00;
    entry[12..16].copy_from_slice(&0xff00ff00_u32.to_le_bytes());

    let stroke = parse_stroke_from_bytes(&entry);

    assert_eq!(stroke.kind, StrokeKind::Center);
    assert_eq!(stroke.style, StrokeStyle::Solid);
    assert_eq!(stroke.cap_start, None);
    assert_eq!(stroke.cap_end, None);
    assert_eq!(f32::from_bits(stroke.width_bits), 5.0);
}

#[test]
fn test_parse_stroke_inner_dashed_with_caps() {
    let mut entry = vec![0u8; STROKE_ENTRY_SIZE];
    // kind = Inner (1)
    entry[0] = 1;
    // style = Dashed (2)
    entry[1] = 2;
    // cap_start = LineArrow (1)
    entry[2] = 1;
    // cap_end = Round (6)
    entry[3] = 6;
    // width = 3.5 (f32 LE)
    entry[4..8].copy_from_slice(&3.5f32.to_le_bytes());
    // fill: solid
    entry[8] = 0x00;
    entry[12..16].copy_from_slice(&0xffaabbcc_u32.to_le_bytes());

    let stroke = parse_stroke_from_bytes(&entry);

    assert_eq!(stroke.kind, StrokeKind::Inner);
    assert_eq!(stroke.style, StrokeStyle::Dashed);
    assert_eq!(stroke.cap_start, Some(StrokeCap::LineArrow));
    assert_eq!(stroke.cap_end, Some(StrokeCap::Round));
    assert_eq!(f32::from_bits(stroke.width_bits), 3.5);
}

#[test]
fn test_parse_multiple_strokes() {
    let mut buffer = vec![0u8; 2 * STROKE_ENTRY_SIZE];

    // First stroke: center solid
    buffer[0] = 0; // center
    buffer[1] = 0; // solid
    buffer[4..8].copy_from_slice(&2.0f32.to_le_bytes());
    buffer[8] = 0x00; // solid fill
    buffer[12..16].copy_from_slice(&0xff000000_u32.to_le_bytes());

    // Second stroke: outer dotted
    let off = STROKE_ENTRY_SIZE;
    buffer[off] = 2; // outer
    buffer[off + 1] = 1; // dotted
    buffer[off + 4..off + 8].copy_from_slice(&4.0f32.to_le_bytes());
    buffer[off + 8] = 0x00; // solid fill
    buffer[off + 12..off + 16].copy_from_slice(&0xff0000ff_u32.to_le_bytes());

    let strokes = parse_strokes_from_bytes(&buffer, 2);

    assert_eq!(strokes.len(), 2);
    assert_eq!(strokes[0].kind, StrokeKind::Center);
    assert_eq!(f32::from_bits(strokes[0].width_bits), 2.0);
    assert_eq!(strokes[1].kind, StrokeKind::Outer);
    assert_eq!(strokes[1].style, StrokeStyle::Dotted);
    assert_eq!(f32::from_bits(strokes[1].width_bits), 4.0);
}

#[test]
fn parse_stroke_keeps_fill_bytes_and_reads_width_little_endian() {
    let mut entry = vec![0u8; STROKE_ENTRY_SIZE];
    entry[4..8].copy_from_slice(&0x0102_0304_u32.to_le_bytes());
    for (i, byte) in entry[8..].iter_mut().enumerate() {
        *byte = i as u8;
    }
    let stroke = parse_stroke_from_bytes(&entry);
    assert_eq!(stroke.width_bits, 0x0102_0304);
    assert_eq!(stroke.fill.len(), RAW_FILL_DATA_SIZE);
    assert_eq!(stroke.fill[..], entry[8..8 + RAW_FILL_DATA_SIZE]);
}

#[test]
fn parse_stroke_ignores_bytes_after_the_entry() {
    let mut entry = vec![0u8; STROKE_ENTRY_SIZE + 5];
    entry[0] = 2;
    entry[1] = 3;
    entry[2] = 7;
    entry[3] = 4;
    entry[STROKE_ENTRY_SIZE] = 0xee;
    let stroke = parse_stroke_from_bytes(&entry);
    assert_eq!(stroke.kind, StrokeKind::Outer);
    assert_eq!(stroke.style, StrokeStyle::Mixed);
    assert_eq!(stroke.cap_start, Some(StrokeCap::Square));
    assert_eq!(stroke.cap_end, Some(StrokeCap::CircleMarker));
    assert_eq!(stroke.fill.len(), RAW_FILL_DATA_SIZE);
}

#[test]
fn parse_strokes_reads_only_whole_entries() {
    // Room for one entry and a half: asking for three gives one.
    let buffer = vec![0u8; STROKE_ENTRY_SIZE + STROKE_ENTRY_SIZE / 2];
    assert_eq!(parse_strokes_from_bytes(&buffer, 3).len(), 1);
    assert_eq!(parse_strokes_from_bytes(&buffer, 0).len(), 0);
    assert_eq!(parse_strokes_from_bytes(&[], 4).len(), 0);
}

#[test]
fn parse_strokes_prefix_matches_longer_read() {
    let mut buffer = vec![0u8; 3 * STROKE_ENTRY_SIZE];
    buffer[0] = 1;
    buffer[STROKE_ENTRY_SIZE] = 2;
    buffer[2 * STROKE_ENTRY_SIZE + 1] = 3;
    let two = parse_strokes_from_bytes(&buffer, 2);
    let three = parse_strokes_from_bytes(&buffer, 3);
    assert_eq!(two.len(), 2);
    assert_eq!(three.len(), 3);
    assert_eq!(two[..], three[..2]);
    assert_eq!(three[2].style, StrokeStyle::Mixed);
}

#[test]
fn parse_strokes_buffer_reads_count_then_entries() {
    let mut bytes = vec![0u8; 4 + 2 * STROKE_ENTRY_SIZE];
    bytes[0] = 1;
    bytes[4] = 1; // inner
    bytes[4 + STROKE_ENTRY_SIZE] = 2;
    let strokes = parse_strokes_buffer(&bytes);
    assert_eq!(strokes.len(), 1);
    assert_eq!(strokes[0].kind, StrokeKind::Inner);

    let empty = parse_strokes_buffer(&[0, 0, 0, 0]);
    assert!(empty.is_empty());
}

#[test]
fn raw_codes_decode_to_their_variants() {
    assert_eq!(RawStrokeKind::from_raw(0), RawStrokeKind::Center);
    assert_eq!(RawStrokeKind::from_raw(2), RawStrokeKind::Outer);
    assert_eq!(RawStrokeStyle::from_raw(1), RawStrokeStyle::Dotted);
    assert_eq!(RawStrokeCap::from_raw(0), RawStrokeCap::NoCap);
    assert_eq!(RawStrokeCap::from_raw(5), RawStrokeCap::DiamondMarker);
    assert_eq!(StrokeKind::from(RawStrokeKind::Inner), StrokeKind::Inner);
    assert_eq!(StrokeStyle::from(RawStrokeStyle::Mixed), StrokeStyle::Mixed);
    assert_eq!(StrokeCap::try_from(RawStrokeCap::NoCap), Err(()));
    assert_eq!(StrokeCap::try_from(RawStrokeCap::TriangleArrow), Ok(StrokeCap::TriangleArrow));
}

#[test]
fn stroke_parts_from_args_decodes_codes() {
    let (width, style, cap_start, cap_end) = stroke_parts_from_args(2.5f32.to_bits(), 2, 0, 3);
    assert_eq!(f32::from_bits(width), 2.5);
    assert_eq!(style, StrokeStyle::Dashed);
    assert_eq!(cap_start, None);
    assert_eq!(cap_end, Some(StrokeCap::SquareMarker));

    let mut entry = vec![0u8; STROKE_ENTRY_SIZE];
    entry[1] = 2;
    entry[3] = 3;
    entry[4..8].copy_from_slice(&2.5f32.to_le_bytes());
    let stroke = parse_stroke_from_bytes(&entry);
    assert_eq!(
        (stroke.width_bits, stroke.style, stroke.cap_start, stroke.cap_end),
        (width, style, cap_start, cap_end)
    );
}
