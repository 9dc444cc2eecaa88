use vstd::prelude::*;

verus! {

/// The unsigned 32-bit integer stored little-endian in the four bytes of
/// `bytes` that start at `at`.
pub open spec fn u32_le_at(bytes: Seq<u8>, at: int) -> u32 {
    (bytes[at] + 256 * bytes[at + 1] + 65536 * bytes[at + 2] + 16777216 * bytes[at + 3]) as u32
}

/// Reads the little-endian `u32` at byte offset `at` of `bytes`.
pub fn read_u32_le(bytes: &[u8], at: usize) -> (r: u32)
    requires
        at + 4 <= bytes@.len(),
    ensures
        r == u32_le_at(bytes@, at as int),
{
    let b0 = bytes[at] as u32;
    let b1 = bytes[at + 1] as u32;
    let b2 = bytes[at + 2] as u32;
    let b3 = bytes[at + 3] as u32;
    b0 + 256 * b1 + 65536 * b2 + 16777216 * b3
}

/// Whether a shadow is cast outside the shape or inside it.
#[derive(Debug, Clone, Copy, PartialEq, Eq, Structural)]
pub enum ShadowStyle {
    Drop,
    Inner,
}

/// A shadow of a shape.
///
/// `color` is a 32-bit ARGB color. The blur, the spread and the two
/// coordinates of the offset are `f32` values, held by their IEEE-754 bit
/// patterns (`f32::to_bits`). Hence the derived `==` compares them bit for
/// bit: NaN equals a NaN with the same bits, and `0.0` differs from `-0.0`,
/// where a float comparison would say the opposite.
#[derive(Debug, Clone, Copy, PartialEq)]
pub struct Shadow {
    pub color: u32,
    pub blur_bits: u32,
    pub spread_bits: u32,
    pub offset_bits: (u32, u32),
    pub style: ShadowStyle,
    pub hidden: bool,
}

impl Shadow {
    pub open spec fn spec_new(
        color: u32,
        blur_bits: u32,
        spread_bits: u32,
        offset_bits: (u32, u32),
        style: ShadowStyle,
        hidden: bool,
    ) -> Shadow {
        Shadow { color, blur_bits, spread_bits, offset_bits, style, hidden }
    }

    pub fn new(
        color: u32,
        blur_bits: u32,
        spread_bits: u32,
        offset_bits: (u32, u32),
        style: ShadowStyle,
        hidden: bool,
    ) -> (r: Shadow)
        ensures
            r == Shadow::spec_new(color, blur_bits, spread_bits, offset_bits, style, hidden),
    {
        Shadow { color, blur_bits, spread_bits, offset_bits, style, hidden }
    }

    pub fn hidden(&self) -> (r: bool)
        ensures
            r == self.hidden,
    {
        self.hidden
    }
}

/// How a stroke is drawn along its path.
#[derive(Debug, Clone, Copy, PartialEq, Eq, Structural)]
pub enum StrokeStyle {
    Solid,
    Dotted,
    Dashed,
    Mixed,
}

/// The marker drawn at an end of an open stroke.
#[derive(Debug, Clone, Copy, PartialEq, Eq, Structural)]
pub enum StrokeCap {
    LineArrow,
    TriangleArrow,
    SquareMarker,
    CircleMarker,
    DiamondMarker,
    Round,
    Square,
}

/// Where a stroke lies relative to the outline of its shape.
#[derive(Debug, Clone, Copy, PartialEq, Eq, Structural)]
pub enum StrokeKind {
    Center,
    Inner,
    Outer,
}

/// A stroke of a shape.
///
/// `fill` holds the encoded fill of the stroke, as it stands in the shared
/// buffer; `width_bits` is the IEEE-754 bit pattern of the `f32` width, so
/// the derived `==` compares widths bit for bit.
#[derive(Debug, Clone, PartialEq)]
pub struct Stroke {
    pub fill: Vec<u8>,
    pub width_bits: u32,
    pub style: StrokeStyle,
    pub cap_start: Option<StrokeCap>,
    pub cap_end: Option<StrokeCap>,
    pub kind: StrokeKind,
}

/// The mathematical value of a [`Stroke`].
pub struct StrokeModel {
    pub fill: Seq<u8>,
    pub width_bits: u32,
    pub style: StrokeStyle,
    pub cap_start: Option<StrokeCap>,
    pub cap_end: Option<StrokeCap>,
    pub kind: StrokeKind,
}

impl View for Stroke {
    type V = StrokeModel;

    open spec fn view(&self) -> StrokeModel {
        StrokeModel {
            fill: self.fill@,
            width_bits: self.width_bits,
            style: self.style,
            cap_start: self.cap_start,
            cap_end: self.cap_end,
            kind: self.kind,
        }
    }
}

/// The four bytes that store `x` little-endian.
pub open spec fn u32_le_bytes(x: u32) -> Seq<u8> {
    seq![
        (x % 256) as u8,
        ((x / 256) % 256) as u8,
        ((x / 65536) % 256) as u8,
        (x / 16777216) as u8,
    ]
}

/// The little-endian bytes of a `u32`, read back in order, give that `u32`.
pub proof fn lemma_u32_le_digits(x: u32)
    ensures
        u32_le_at(u32_le_bytes(x), 0) == x,
{
    lemma_u32_le_round_trip(Seq::empty(), x, Seq::empty());
    assert(Seq::<u8>::empty() + u32_le_bytes(x) + Seq::<u8>::empty() =~= u32_le_bytes(x));
}

/// Four bytes equal to the little-endian bytes of `x`, wherever they stand,
/// read back as `x`.
pub proof fn lemma_u32_le_at_bytes(bytes: Seq<u8>, at: int, x: u32)
    requires
        0 <= at,
        at + 4 <= bytes.len(),
        bytes[at] == u32_le_bytes(x)[0],
        bytes[at + 1] == u32_le_bytes(x)[1],
        bytes[at + 2] == u32_le_bytes(x)[2],
        bytes[at + 3] == u32_le_bytes(x)[3],
    ensures
        u32_le_at(bytes, at) == x,
{
    lemma_u32_le_digits(x);
}

/// Reading back the little-endian bytes of a `u32` gives that `u32`, at any
/// offset at which they stand.
pub proof fn lemma_u32_le_round_trip(prefix: Seq<u8>, x: u32, suffix: Seq<u8>)
    ensures
        u32_le_at(prefix + u32_le_bytes(x) + suffix, prefix.len() as int) == x,
{
    let bytes = prefix + u32_le_bytes(x) + suffix;
    let at = prefix.len() as int;
    assert(bytes[at] == x % 256);
    assert(bytes[at + 1] == (x / 256) % 256);
    assert(bytes[at + 2] == (x / 65536) % 256);
    assert(bytes[at + 3] == x / 16777216);
    assert((x % 256) + 256 * ((x / 256) % 256) + 65536 * ((x / 65536) % 256) + 16777216 * (x
        / 16777216) == x) by (nonlinear_arith)
        requires
            0 <= x < 0x1_0000_0000,
    ;
}

} // verus!
