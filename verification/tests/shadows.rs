use render_wasm::shadows::{
    parse_shadows_buffer, parse_shadows_from_bytes, shadow_from_args, RawShadowData, RawShadowStyle,
    RAW_SHADOW_DATA_SIZE,
};
use render_wasm::shapes::{Shadow, ShadowStyle};

#[test]
fn test_raw_shadow_data_layout() {
    assert_eq!(RAW_SHADOW_DATA_SIZE, 24);
    assert_eq!(std::mem::align_of::<RawShadowData>(), 4);
    assert_eq!(std::mem::size_of::<RawShadowData>(), RAW_SHADOW_DATA_SIZE);
}

#[test]
fn test_raw_shadow_data_from_bytes() {
    let mut bytes = [0u8; RAW_SHADOW_DATA_SIZE];
    // color = 0xFF112233
    bytes[0..4].copy_from_slice(&0xFF112233_u32.to_le_bytes());
    // blur = 5.0
    bytes[4..8].copy_from_slice(&5.0_f32.to_le_bytes());
    // spread = 2.0
    bytes[8..12].copy_from_slice(&2.0_f32.to_le_bytes());
    // x = 10.0
    bytes[12..16].copy_from_slice(&10.0_f32.to_le_bytes());
    // y = 15.0
    bytes[16..20].copy_from_slice(&15.0_f32.to_le_bytes());
    // style = 0 (DropShadow)
    bytes[20] = 0;
    // hidden = 0 (false)
    bytes[21] = 0;

    let raw = RawShadowData::from(bytes);
    let shadow: Shadow = raw.to_shadow();

    assert_eq!(f32::from_bits(shadow.blur_bits), 5.0);
    assert_eq!(f32::from_bits(shadow.spread_bits), 2.0);
    assert_eq!(
        (f32::from_bits(shadow.offset_bits.0), f32::from_bits(shadow.offset_bits.1)),
        (10.0, 15.0)
    );
    assert!(!shadow.hidden());
}

fn entry(color: u32, blur: f32, style: u8, hidden: u8) -> [u8; RAW_SHADOW_DATA_SIZE] {
    let mut bytes = [0u8; RAW_SHADOW_DATA_SIZE];
    bytes[0..4].copy_from_slice(&color.to_le_bytes());
    bytes[4..8].copy_from_slice(&blur.to_le_bytes());
    bytes[20] = style;
    bytes[21] = hidden;
    bytes
}

#[test]
fn shadow_color_style_and_hidden_are_decoded() {
    let shadow = RawShadowData::from(entry(0xFF112233, 1.0, 1, 3)).to_shadow();
    assert_eq!(shadow.color, 0xFF112233);
    assert_eq!(shadow.style, ShadowStyle::Inner);
    assert!(shadow.hidden());
}

#[test]
fn try_from_slice_needs_a_whole_entry() {
    let bytes = entry(7, 0.5, 0, 0);
    let raw = RawShadowData::try_from_slice(&bytes).unwrap();
    assert_eq!(raw.color, 7);
    assert_eq!(raw, RawShadowData::from(bytes));
    assert_eq!(
        RawShadowData::try_from_slice(&bytes[..RAW_SHADOW_DATA_SIZE - 1]),
        Err("Invalid shadow data".to_string())
    );
}

#[test]
fn parse_shadows_reads_whole_entries_up_to_the_count() {
    let mut buffer = Vec::new();
    buffer.extend_from_slice(&entry(1, 1.0, 0, 0));
    buffer.extend_from_slice(&entry(2, 2.0, 1, 1));
    buffer.extend_from_slice(&[0u8; 10]);
    let shadows = parse_shadows_from_bytes(&buffer, 5);
    assert_eq!(shadows.len(), 2);
    assert_eq!(shadows[0].color, 1);
    assert_eq!(shadows[1].color, 2);
    assert_eq!(f32::from_bits(shadows[1].blur_bits), 2.0);
    assert_eq!(shadows[1].style, ShadowStyle::Inner);
    let one = parse_shadows_from_bytes(&buffer, 1);
    assert_eq!(one[..], shadows[..1]);
}

#[test]
fn parse_shadows_buffer_reads_count_then_entries() {
    let mut bytes = vec![2u8, 0, 0, 0];
    bytes.extend_from_slice(&entry(9, 3.0, 0, 0));
    bytes.extend_from_slice(&entry(8, 4.0, 1, 0));
    let shadows = parse_shadows_buffer(&bytes);
    assert_eq!(shadows.len(), 2);
    assert_eq!(shadows[0].color, 9);
    assert_eq!(shadows[1].color, 8);

    assert!(parse_shadows_buffer(&[]).is_empty());
    assert!(parse_shadows_buffer(&[0]).is_empty());
}

#[test]
fn shadow_style_codes() {
    assert_eq!(RawShadowStyle::from_raw(0), RawShadowStyle::DropShadow);
    assert_eq!(RawShadowStyle::from_raw(1), RawShadowStyle::InnerShadow);
    assert_eq!(ShadowStyle::from(RawShadowStyle::DropShadow), ShadowStyle::Drop);
    assert_eq!(ShadowStyle::from(RawShadowStyle::InnerShadow), ShadowStyle::Inner);
}

#[test]
fn padding_bytes_are_kept() {
    let mut bytes = entry(1, 1.0, 0, 0);
    bytes[22] = 0xab;
    bytes[23] = 0xcd;
    let raw = RawShadowData::from(bytes);
    assert_eq!(raw._padding, [0xab, 0xcd]);
    assert_eq!(raw.style, 0);
    assert_eq!(raw.hidden, 0);
}

#[test]
fn shadow_from_args_matches_the_decoded_entry() {
    let shadow = shadow_from_args(
        0x80ff0000,
        6.0f32.to_bits(),
        1.5f32.to_bits(),
        (-2.0f32).to_bits(),
        3.0f32.to_bits(),
        1,
        true,
    );
    assert_eq!(shadow.color, 0x80ff0000);
    assert_eq!(f32::from_bits(shadow.blur_bits), 6.0);
    assert_eq!(f32::from_bits(shadow.spread_bits), 1.5);
    assert_eq!(f32::from_bits(shadow.offset_bits.0), -2.0);
    assert_eq!(f32::from_bits(shadow.offset_bits.1), 3.0);
    assert_eq!(shadow.style, ShadowStyle::Inner);
    assert!(shadow.hidden());

    let mut bytes = [0u8; RAW_SHADOW_DATA_SIZE];
    bytes[0..4].copy_from_slice(&0x80ff0000_u32.to_le_bytes());
    bytes[4..8].copy_from_slice(&6.0f32.to_le_bytes());
    bytes[8..12].copy_from_slice(&1.5f32.to_le_bytes());
    bytes[12..16].copy_from_slice(&(-2.0f32).to_le_bytes());
    bytes[16..20].copy_from_slice(&3.0f32.to_le_bytes());
    bytes[20] = 1;
    bytes[21] = 1;
    assert_eq!(RawShadowData::from(bytes).to_shadow(), shadow);
}
