use vstd::prelude::*;

use crate::shapes::{lemma_u32_le_at_bytes, read_u32_le, u32_le_at, u32_le_bytes, Shadow, ShadowStyle};

verus! {

/// Size in bytes of one shadow entry in the shared buffer.
pub const RAW_SHADOW_DATA_SIZE: usize = 24;

/// Shadow style as encoded in a shadow entry.
#[derive(Debug, Clone, Copy, PartialEq)]
pub enum RawShadowStyle {
    // NOTE: Odd naming to comply with cljs value
    DropShadow,
    InnerShadow,
}

impl RawShadowStyle {
    /// Whether `value` encodes a shadow style.
    pub open spec fn is_code(value: u8) -> bool {
        value <= 1
    }

    /// The style encoded by `value`.
    pub open spec fn spec_from_raw(value: u8) -> RawShadowStyle {
        if value == 0 {
            RawShadowStyle::DropShadow
        } else {
            RawShadowStyle::InnerShadow
        }
    }

    /// Decodes a shadow style; `value` must be one of its codes.
    pub fn from_raw(value: u8) -> (r: RawShadowStyle)
        requires
            RawShadowStyle::is_code(value),
        ensures
            r == RawShadowStyle::spec_from_raw(value),
    {
        if value == 0 {
            RawShadowStyle::DropShadow
        } else {
            RawShadowStyle::InnerShadow
        }
    }

    /// The shadow style that an encoded style stands for.
    pub open spec fn spec_to_style(self) -> ShadowStyle {
        match self {
            RawShadowStyle::DropShadow => ShadowStyle::Drop,
            RawShadowStyle::InnerShadow => ShadowStyle::Inner,
        }
    }
}

impl From<RawShadowStyle> for ShadowStyle {
    fn from(value: RawShadowStyle) -> (r: ShadowStyle) {
        match value {
            RawShadowStyle::DropShadow => ShadowStyle::Drop,
            RawShadowStyle::InnerShadow => ShadowStyle::Inner,
        }
    }
}

impl vstd::std_specs::convert::FromSpecImpl<RawShadowStyle> for ShadowStyle {
    open spec fn obeys_from_spec() -> bool {
        true
    }

    open spec fn from_spec(value: RawShadowStyle) -> ShadowStyle {
        value.spec_to_style()
    }
}

/// Binary layout for a single shadow entry in the batched buffer.
///
/// | Offset | Size | Field   | Type |
/// |--------|------|---------|------|
/// | 0      | 4    | color   | u32  |
/// | 4      | 4    | blur    | f32  |
/// | 8      | 4    | spread  | f32  |
/// | 12     | 4    | x       | f32  |
/// | 16     | 4    | y       | f32  |
/// | 20     | 1    | style   | u8   |
/// | 21     | 1    | hidden  | u8   |
/// | 22     | 2    | padding | -    |
/// | Total  | 24   |         |      |
///
/// All fields are little-endian. The `f32` fields are held by their
/// IEEE-754 bit patterns; the two padding bytes are kept as they are.
#[derive(Debug, Clone, Copy, PartialEq)]
pub struct RawShadowData {
    pub color: u32,
    pub blur: u32,
    pub spread: u32,
    pub x: u32,
    pub y: u32,
    pub style: u8,
    pub hidden: u8,
    pub _padding: [u8; 2],
}

/// The shadow entry held by the first `RAW_SHADOW_DATA_SIZE` bytes of `bytes`.
pub open spec fn spec_raw_shadow_data(bytes: Seq<u8>) -> RawShadowData {
    RawShadowData {
        color: u32_le_at(bytes, 0),
        blur: u32_le_at(bytes, 4),
        spread: u32_le_at(bytes, 8),
        x: u32_le_at(bytes, 12),
        y: u32_le_at(bytes, 16),
        style: bytes[20],
        hidden: bytes[21],
        _padding: [bytes[22], bytes[23]],
    }
}

/// Decodes the shadow entry at the start of `bytes`.
fn decode_raw_shadow_data(bytes: &[u8]) -> (r: RawShadowData)
    requires
        bytes@.len() >= RAW_SHADOW_DATA_SIZE,
    ensures
        r == spec_raw_shadow_data(bytes@),
{
    RawShadowData {
        color: read_u32_le(bytes, 0),
        blur: read_u32_le(bytes, 4),
        spread: read_u32_le(bytes, 8),
        x: read_u32_le(bytes, 12),
        y: read_u32_le(bytes, 16),
        style: bytes[20],
        hidden: bytes[21],
        _padding: [bytes[22], bytes[23]],
    }
}

impl From<[u8; RAW_SHADOW_DATA_SIZE]> for RawShadowData {
    fn from(bytes: [u8; RAW_SHADOW_DATA_SIZE]) -> (r: RawShadowData) {
        decode_raw_shadow_data(bytes.as_slice())
    }
}

impl vstd::std_specs::convert::FromSpecImpl<[u8; RAW_SHADOW_DATA_SIZE]> for RawShadowData {
    open spec fn obeys_from_spec() -> bool {
        true
    }

    open spec fn from_spec(bytes: [u8; RAW_SHADOW_DATA_SIZE]) -> RawShadowData {
        spec_raw_shadow_data(bytes@)
    }
}

impl RawShadowData {
    /// Decodes the shadow entry at the start of `bytes`; fails when `bytes`
    /// is shorter than an entry.
    pub fn try_from_slice(bytes: &[u8]) -> (r: Result<RawShadowData, String>)
        ensures
            r is Ok <==> bytes@.len() >= RAW_SHADOW_DATA_SIZE,
            r matches Ok(data) ==> data == spec_raw_shadow_data(bytes@),
            r matches Err(e) ==> e@ == "Invalid shadow data"@,
    {
        if bytes.len() >= RAW_SHADOW_DATA_SIZE {
            Ok(decode_raw_shadow_data(bytes))
        } else {
            Err(String::from_str("Invalid shadow data"))
        }
    }

    /// The shadow that an entry describes.
    pub open spec fn spec_to_shadow(self) -> Shadow {
        Shadow::spec_new(
            self.color,
            self.blur,
            self.spread,
            (self.x, self.y),
            RawShadowStyle::spec_from_raw(self.style).spec_to_style(),
            self.hidden != 0,
        )
    }

    /// The shadow that this entry describes; its style byte must be a
    /// shadow style code.
    pub fn to_shadow(self) -> (r: Shadow)
        requires
            RawShadowStyle::is_code(self.style),
        ensures
            r == self.spec_to_shadow(),
    {
        let style = ShadowStyle::from(RawShadowStyle::from_raw(self.style));
        Shadow::new(self.color, self.blur, self.spread, (self.x, self.y), style, self.hidden != 0)
    }
}

/// The `i`-th shadow entry of `buffer`.
pub open spec fn shadow_entry(buffer: Seq<u8>, i: int) -> Seq<u8> {
    buffer.subrange(i * RAW_SHADOW_DATA_SIZE, i * RAW_SHADOW_DATA_SIZE + RAW_SHADOW_DATA_SIZE)
}

/// How many shadows are read from `buffer` when `num_shadows` are asked
/// for: no more than the whole entries that the buffer holds.
pub open spec fn shadow_count(buffer: Seq<u8>, num_shadows: nat) -> nat {
    let available = buffer.len() / (RAW_SHADOW_DATA_SIZE as nat);
    if num_shadows <= available {
        num_shadows
    } else {
        available
    }
}

/// Whether each shadow entry that is read holds a valid style code.
pub open spec fn are_valid_shadow_entries(buffer: Seq<u8>, num_shadows: nat) -> bool {
    forall|i: int|
        0 <= i < shadow_count(buffer, num_shadows) ==> RawShadowStyle::is_code(
            #[trigger] shadow_entry(buffer, i)[20],
        )
}

/// The shadows read from `buffer` when `num_shadows` are asked for.
pub open spec fn spec_parse_shadows(buffer: Seq<u8>, num_shadows: nat) -> Seq<Shadow> {
    Seq::new(
        shadow_count(buffer, num_shadows),
        |i: int| spec_raw_shadow_data(shadow_entry(buffer, i)).spec_to_shadow(),
    )
}

/// Decodes the first `num_shadows` whole shadow entries of `buffer`, or all
/// of them if it holds fewer.
pub fn parse_shadows_from_bytes(buffer: &[u8], num_shadows: usize) -> (r: Vec<Shadow>)
    requires
        are_valid_shadow_entries(buffer@, num_shadows as nat),
    ensures
        r@ == spec_parse_shadows(buffer@, num_shadows as nat),
{
    let available = buffer.len() / RAW_SHADOW_DATA_SIZE;
    let count = if num_shadows <= available {
        num_shadows
    } else {
        available
    };
    let mut result: Vec<Shadow> = Vec::new();
    let mut i: usize = 0;
    while i < count
        invariant
            i <= count,
            buffer@.len() <= usize::MAX,
            count == shadow_count(buffer@, num_shadows as nat),
            count <= buffer@.len() / (RAW_SHADOW_DATA_SIZE as nat),
            are_valid_shadow_entries(buffer@, num_shadows as nat),
            result@.len() == i,
            forall|j: int|
                0 <= j < i ==> #[trigger] result@[j] == spec_raw_shadow_data(
                    shadow_entry(buffer@, j),
                ).spec_to_shadow(),
        decreases count - i,
    {
        assert(i * RAW_SHADOW_DATA_SIZE + RAW_SHADOW_DATA_SIZE <= buffer@.len()) by (nonlinear_arith)
            requires
                i < count,
                count <= buffer@.len() / (RAW_SHADOW_DATA_SIZE as nat),
        ;
        let start = i * RAW_SHADOW_DATA_SIZE;
        let entry = &buffer[start..start + RAW_SHADOW_DATA_SIZE];
        assert(entry@ == shadow_entry(buffer@, i as int));
        assert(RawShadowStyle::is_code(shadow_entry(buffer@, i as int)[20]));
        let shadow = decode_raw_shadow_data(entry).to_shadow();
        result.push(shadow);
        i = i + 1;
    }
    assert(result@ =~= spec_parse_shadows(buffer@, num_shadows as nat));
    result
}

/// How many shadows a shadow buffer announces in its first byte (none when
/// the buffer is empty).
pub open spec fn announced_shadows(bytes: Seq<u8>) -> nat {
    if bytes.len() == 0 {
        0
    } else {
        bytes[0] as nat
    }
}

/// The shadows that a shadow buffer holds.
///
/// Buffer layout: [u8 count][3 bytes padding][N × 24-byte RawShadowData]
pub fn parse_shadows_buffer(bytes: &[u8]) -> (r: Vec<Shadow>)
    requires
        announced_shadows(bytes@) != 0 ==> bytes@.len() >= 4,
        announced_shadows(bytes@) != 0 ==> are_valid_shadow_entries(
            bytes@.skip(4),
            announced_shadows(bytes@),
        ),
    ensures
        r@ == (if announced_shadows(bytes@) == 0 {
            Seq::empty()
        } else {
            spec_parse_shadows(bytes@.skip(4), announced_shadows(bytes@))
        }),
{
    let num_shadows: usize = if bytes.len() == 0 {
        0
    } else {
        bytes[0] as usize
    };
    if num_shadows == 0 {
        Vec::new()
    } else {
        let entries = &bytes[4..bytes.len()];
        assert(entries@ == bytes@.skip(4));
        parse_shadows_from_bytes(entries, num_shadows)
    }
}

/// Asking for fewer shadows reads a prefix of what asking for more reads:
/// the entries are read in order, each on its own.
pub proof fn lemma_parse_shadows_prefix(buffer: Seq<u8>, fewer: nat, more: nat)
    requires
        fewer <= more,
    ensures
        spec_parse_shadows(buffer, fewer) == spec_parse_shadows(buffer, more).take(
            shadow_count(buffer, fewer) as int,
        ),
{
    assert(spec_parse_shadows(buffer, fewer) =~= spec_parse_shadows(buffer, more).take(
        shadow_count(buffer, fewer) as int,
    ));
}

/// Bytes after the entries that are read do not change what is read.
pub proof fn lemma_parse_shadows_ignores_trailing_bytes(
    buffer: Seq<u8>,
    trailing: Seq<u8>,
    num_shadows: nat,
)
    requires
        num_shadows * RAW_SHADOW_DATA_SIZE <= buffer.len(),
    ensures
        spec_parse_shadows(buffer + trailing, num_shadows) == spec_parse_shadows(
            buffer,
            num_shadows,
        ),
{
    let whole = buffer + trailing;
    assert(num_shadows <= buffer.len() / (RAW_SHADOW_DATA_SIZE as nat)) by (nonlinear_arith)
        requires
            num_shadows * RAW_SHADOW_DATA_SIZE <= buffer.len(),
    ;
    assert(num_shadows <= whole.len() / (RAW_SHADOW_DATA_SIZE as nat)) by (nonlinear_arith)
        requires
            num_shadows * RAW_SHADOW_DATA_SIZE <= buffer.len(),
            buffer.len() <= whole.len(),
    ;
    assert forall|i: int| 0 <= i < num_shadows implies shadow_entry(whole, i) == shadow_entry(
        buffer,
        i,
    ) by {
        assert(i * RAW_SHADOW_DATA_SIZE + RAW_SHADOW_DATA_SIZE <= buffer.len()) by (nonlinear_arith)
            requires
                0 <= i < num_shadows,
                num_shadows * RAW_SHADOW_DATA_SIZE <= buffer.len(),
        ;
        assert(shadow_entry(whole, i) =~= shadow_entry(buffer, i));
    }
    assert(spec_parse_shadows(whole, num_shadows) =~= spec_parse_shadows(buffer, num_shadows));
}

/// The shadow made from the arguments of the single-shadow setter.
pub open spec fn spec_shadow_from_args(
    raw_color: u32,
    blur_bits: u32,
    spread_bits: u32,
    x_bits: u32,
    y_bits: u32,
    raw_style: u8,
    hidden: bool,
) -> Shadow {
    Shadow::spec_new(
        raw_color,
        blur_bits,
        spread_bits,
        (x_bits, y_bits),
        RawShadowStyle::spec_from_raw(raw_style).spec_to_style(),
        hidden,
    )
}

/// The shadow that the single-shadow setter adds to a shape, made from its
/// arguments; `raw_style` must be a shadow style code.
pub fn shadow_from_args(
    raw_color: u32,
    blur_bits: u32,
    spread_bits: u32,
    x_bits: u32,
    y_bits: u32,
    raw_style: u8,
    hidden: bool,
) -> (r: Shadow)
    requires
        RawShadowStyle::is_code(raw_style),
    ensures
        r == spec_shadow_from_args(raw_color, blur_bits, spread_bits, x_bits, y_bits, raw_style, hidden),
{
    let style = ShadowStyle::from(RawShadowStyle::from_raw(raw_style));
    Shadow::new(raw_color, blur_bits, spread_bits, (x_bits, y_bits), style, hidden)
}

/// A shadow read from a shadow entry is the shadow that the single-shadow
/// setter makes from the entry's fields, a nonzero hidden byte meaning
/// hidden.
pub proof fn lemma_entry_matches_shadow_from_args(data: RawShadowData)
    ensures
        data.spec_to_shadow() == spec_shadow_from_args(
            data.color,
            data.blur,
            data.spread,
            data.x,
            data.y,
            data.style,
            data.hidden != 0,
        ),
{
}

/// The code of each shadow style in a shadow entry.
pub open spec fn shadow_style_code(style: ShadowStyle) -> u8 {
    match style {
        ShadowStyle::Drop => 0,
        ShadowStyle::Inner => 1,
    }
}

/// The code of each encoded shadow style.
pub open spec fn raw_shadow_style_code(style: RawShadowStyle) -> u8 {
    match style {
        RawShadowStyle::DropShadow => 0,
        RawShadowStyle::InnerShadow => 1,
    }
}

/// Shadow style codes and variants correspond one to one, and converting
/// an encoded style keeps its code.
pub proof fn lemma_shadow_style_codes_round_trip()
    ensures
        forall|v: u8|
            RawShadowStyle::is_code(v) ==> raw_shadow_style_code(
                #[trigger] RawShadowStyle::spec_from_raw(v),
            ) == v,
        forall|c: RawShadowStyle|
            RawShadowStyle::spec_from_raw(#[trigger] raw_shadow_style_code(c)) == c,
        forall|c: RawShadowStyle|
            shadow_style_code(#[trigger] c.spec_to_style()) == raw_shadow_style_code(c),
{
}

/// The 24 bytes of a shadow entry: five little-endian `u32` fields, then
/// the style byte, the hidden byte and the two padding bytes.
pub open spec fn encode_raw_shadow_data(data: RawShadowData) -> Seq<u8> {
    let c = u32_le_bytes(data.color);
    let b = u32_le_bytes(data.blur);
    let s = u32_le_bytes(data.spread);
    let x = u32_le_bytes(data.x);
    let y = u32_le_bytes(data.y);
    seq![
        c[0], c[1], c[2], c[3],
        b[0], b[1], b[2], b[3],
        s[0], s[1], s[2], s[3],
        x[0], x[1], x[2], x[3],
        y[0], y[1], y[2], y[3],
        data.style, data.hidden, data._padding[0], data._padding[1],
    ]
}

/// Decoding the bytes of a shadow entry gives back the entry: every field
/// is read from the offset at which the layout puts it.
pub proof fn lemma_shadow_entry_round_trip(data: RawShadowData)
    ensures
        encode_raw_shadow_data(data).len() == RAW_SHADOW_DATA_SIZE,
        spec_raw_shadow_data(encode_raw_shadow_data(data)) == data,
{
    let bytes = encode_raw_shadow_data(data);
    let decoded = spec_raw_shadow_data(bytes);
    assert(decoded.color == data.color) by {
        lemma_u32_le_at_bytes(bytes, 0, data.color);
    }
    assert(decoded.blur == data.blur) by {
        lemma_u32_le_at_bytes(bytes, 4, data.blur);
    }
    assert(decoded.spread == data.spread) by {
        lemma_u32_le_at_bytes(bytes, 8, data.spread);
    }
    assert(decoded.x == data.x) by {
        lemma_u32_le_at_bytes(bytes, 12, data.x);
    }
    assert(decoded.y == data.y) by {
        lemma_u32_le_at_bytes(bytes, 16, data.y);
    }
    assert(decoded.style == data.style);
    assert(decoded.hidden == data.hidden);
    assert(decoded._padding@ =~= data._padding@);
    assert(decoded._padding == data._padding);
}

/// The shadow that an entry describes keeps the entry's color, blur,
/// spread and offset, takes the style with the entry's style code, and is
/// hidden exactly when the hidden byte is nonzero.
pub proof fn lemma_entry_to_shadow_fields(data: RawShadowData)
    requires
        RawShadowStyle::is_code(data.style),
    ensures
        ({
            let shadow = data.spec_to_shadow();
            &&& shadow.color == data.color
            &&& shadow.blur_bits == data.blur
            &&& shadow.spread_bits == data.spread
            &&& shadow.offset_bits == (data.x, data.y)
            &&& shadow_style_code(shadow.style) == data.style
            &&& shadow.hidden == (data.hidden != 0)
        }),
{
}

/// The single-shadow setter keeps its arguments and takes the style with
/// the given code.
pub proof fn lemma_shadow_from_args_fields(
    raw_color: u32,
    blur_bits: u32,
    spread_bits: u32,
    x_bits: u32,
    y_bits: u32,
    raw_style: u8,
    hidden: bool,
)
    requires
        RawShadowStyle::is_code(raw_style),
    ensures
        ({
            let shadow = spec_shadow_from_args(
                raw_color,
                blur_bits,
                spread_bits,
                x_bits,
                y_bits,
                raw_style,
                hidden,
            );
            &&& shadow.color == raw_color
            &&& shadow.blur_bits == blur_bits
            &&& shadow.spread_bits == spread_bits
            &&& shadow.offset_bits == (x_bits, y_bits)
            &&& shadow_style_code(shadow.style) == raw_style
            &&& shadow.hidden == hidden
        }),
{
}

/// Reading shadows gives as many as asked for when the buffer holds them,
/// and otherwise every whole entry of the buffer; the i-th is the entry at
/// byte `i * RAW_SHADOW_DATA_SIZE` read on its own.
pub proof fn lemma_parse_shadows_count(buffer: Seq<u8>, num_shadows: nat)
    ensures
        ({
            let r = spec_parse_shadows(buffer, num_shadows);
            &&& r.len() <= num_shadows
            &&& r.len() * RAW_SHADOW_DATA_SIZE <= buffer.len()
            &&& (r.len() == num_shadows || buffer.len() < (r.len() + 1) * RAW_SHADOW_DATA_SIZE)
            &&& (num_shadows * RAW_SHADOW_DATA_SIZE <= buffer.len() ==> r.len() == num_shadows)
            &&& forall|i: int|
                0 <= i < r.len() ==> #[trigger] r[i] == spec_raw_shadow_data(
                    buffer.subrange(
                        i * RAW_SHADOW_DATA_SIZE,
                        i * RAW_SHADOW_DATA_SIZE + RAW_SHADOW_DATA_SIZE,
                    ),
                ).spec_to_shadow()
        }),
{
    let n = spec_parse_shadows(buffer, num_shadows).len();
    let available = buffer.len() / (RAW_SHADOW_DATA_SIZE as nat);
    assert(available * RAW_SHADOW_DATA_SIZE <= buffer.len() < (available + 1) * RAW_SHADOW_DATA_SIZE)
        by (nonlinear_arith)
        requires
            available == buffer.len() / (RAW_SHADOW_DATA_SIZE as nat),
    ;
    assert(n * RAW_SHADOW_DATA_SIZE <= available * RAW_SHADOW_DATA_SIZE) by (nonlinear_arith)
        requires
            n <= available,
    ;
    assert(num_shadows * RAW_SHADOW_DATA_SIZE <= buffer.len() ==> num_shadows <= available)
        by (nonlinear_arith)
        requires
            available * RAW_SHADOW_DATA_SIZE <= buffer.len() < (available + 1) * RAW_SHADOW_DATA_SIZE,
    ;
}

/// A shadow buffer announces as many shadows as its first byte says, and
/// none when it is empty; the entries start after the 4-byte header.
pub proof fn lemma_shadow_buffer_header(bytes: Seq<u8>)
    ensures
        bytes.len() == 0 ==> announced_shadows(bytes) == 0,
        bytes.len() > 0 ==> announced_shadows(bytes) == bytes[0],
        bytes.len() >= 4 ==> spec_parse_shadows(bytes.skip(4), announced_shadows(bytes))
            == spec_parse_shadows(bytes.subrange(4, bytes.len() as int), bytes[0] as nat),
{
    if bytes.len() >= 4 {
        assert(bytes.skip(4) =~= bytes.subrange(4, bytes.len() as int));
    }
}

} // verus!
