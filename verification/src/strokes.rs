use vstd::prelude::*;
use vstd::std_specs::convert::TryFromSpec;

use crate::shapes::{read_u32_le, u32_le_at, Stroke, StrokeCap, StrokeKind, StrokeModel, StrokeStyle};

verus! {

/// Size in bytes of an encoded fill, as it stands inside a stroke entry:
/// a 4-byte tag followed by the largest fill body, a 156-byte gradient
/// (six `f32` values, a stop count with 3 bytes of padding, and 16 stops
/// of 8 bytes). The fill encoding itself belongs to the fill module, which
/// sets this size; the value here is an assumption to be checked against
/// that module, since every stroke entry after the first is read at a
/// multiple of `STROKE_ENTRY_SIZE`.
pub const RAW_FILL_DATA_SIZE: usize = 160;

/// Binary layout per stroke entry:
///   byte 0:   kind      (0=center, 1=inner, 2=outer)
///   byte 1:   style     (0=solid, 1=dotted, 2=dashed, 3=mixed)
///   byte 2:   cap_start
///   byte 3:   cap_end
///   bytes 4-7: width    (f32, little-endian)
///   bytes 8..: fill data (RAW_FILL_DATA_SIZE bytes)
pub const STROKE_ENTRY_SIZE: usize = 8 + RAW_FILL_DATA_SIZE;

/// Stroke style as encoded in a stroke entry.
#[derive(Debug, Clone, PartialEq, Copy)]
pub enum RawStrokeStyle {
    Solid,
    Dotted,
    Dashed,
    Mixed,
}

impl RawStrokeStyle {
    /// Whether `value` encodes a stroke style.
    pub open spec fn is_code(value: u8) -> bool {
        value <= 3
    }

    /// The style encoded by `value`.
    pub open spec fn spec_from_raw(value: u8) -> RawStrokeStyle {
        if value == 0 {
            RawStrokeStyle::Solid
        } else if value == 1 {
            RawStrokeStyle::Dotted
        } else if value == 2 {
            RawStrokeStyle::Dashed
        } else {
            RawStrokeStyle::Mixed
        }
    }

    /// Decodes a stroke style; `value` must be one of its codes.
    pub fn from_raw(value: u8) -> (r: RawStrokeStyle)
        requires
            RawStrokeStyle::is_code(value),
        ensures
            r == RawStrokeStyle::spec_from_raw(value),
    {
        if value == 0 {
            RawStrokeStyle::Solid
        } else if value == 1 {
            RawStrokeStyle::Dotted
        } else if value == 2 {
            RawStrokeStyle::Dashed
        } else {
            RawStrokeStyle::Mixed
        }
    }
}

impl RawStrokeStyle {
    /// The stroke style that an encoded style stands for.
    pub open spec fn spec_to_style(self) -> StrokeStyle {
        match self {
            RawStrokeStyle::Solid => StrokeStyle::Solid,
            RawStrokeStyle::Dotted => StrokeStyle::Dotted,
            RawStrokeStyle::Dashed => StrokeStyle::Dashed,
            RawStrokeStyle::Mixed => StrokeStyle::Mixed,
        }
    }
}

impl From<RawStrokeStyle> for StrokeStyle {
    fn from(value: RawStrokeStyle) -> (r: StrokeStyle) {
        match value {
            RawStrokeStyle::Solid => StrokeStyle::Solid,
            RawStrokeStyle::Dotted => StrokeStyle::Dotted,
            RawStrokeStyle::Dashed => StrokeStyle::Dashed,
            RawStrokeStyle::Mixed => StrokeStyle::Mixed,
        }
    }
}

impl vstd::std_specs::convert::FromSpecImpl<RawStrokeStyle> for StrokeStyle {
    open spec fn obeys_from_spec() -> bool {
        true
    }

    open spec fn from_spec(value: RawStrokeStyle) -> StrokeStyle {
        value.spec_to_style()
    }
}

/// Stroke cap as encoded in a stroke entry; `NoCap` stands for no cap.
#[derive(Debug, Clone, Copy, PartialEq)]
pub enum RawStrokeCap {
    NoCap,
    LineArrow,
    TriangleArrow,
    SquareMarker,
    CircleMarker,
    DiamondMarker,
    Round,
    Square,
}

impl RawStrokeCap {
    /// Whether `value` encodes a stroke cap.
    pub open spec fn is_code(value: u8) -> bool {
        value <= 7
    }

    /// The cap encoded by `value`.
    pub open spec fn spec_from_raw(value: u8) -> RawStrokeCap {
        if value == 0 {
            RawStrokeCap::NoCap
        } else if value == 1 {
            RawStrokeCap::LineArrow
        } else if value == 2 {
            RawStrokeCap::TriangleArrow
        } else if value == 3 {
            RawStrokeCap::SquareMarker
        } else if value == 4 {
            RawStrokeCap::CircleMarker
        } else if value == 5 {
            RawStrokeCap::DiamondMarker
        } else if value == 6 {
            RawStrokeCap::Round
        } else {
            RawStrokeCap::Square
        }
    }

    /// Decodes a stroke cap; `value` must be one of its codes.
    pub fn from_raw(value: u8) -> (r: RawStrokeCap)
        requires
            RawStrokeCap::is_code(value),
        ensures
            r == RawStrokeCap::spec_from_raw(value),
    {
        if value == 0 {
            RawStrokeCap::NoCap
        } else if value == 1 {
            RawStrokeCap::LineArrow
        } else if value == 2 {
            RawStrokeCap::TriangleArrow
        } else if value == 3 {
            RawStrokeCap::SquareMarker
        } else if value == 4 {
            RawStrokeCap::CircleMarker
        } else if value == 5 {
            RawStrokeCap::DiamondMarker
        } else if value == 6 {
            RawStrokeCap::Round
        } else {
            RawStrokeCap::Square
        }
    }

    /// The cap that an encoded cap stands for: none for `NoCap`.
    pub open spec fn spec_to_cap(self) -> Option<StrokeCap> {
        match self {
            RawStrokeCap::NoCap => None,
            RawStrokeCap::LineArrow => Some(StrokeCap::LineArrow),
            RawStrokeCap::TriangleArrow => Some(StrokeCap::TriangleArrow),
            RawStrokeCap::SquareMarker => Some(StrokeCap::SquareMarker),
            RawStrokeCap::CircleMarker => Some(StrokeCap::CircleMarker),
            RawStrokeCap::DiamondMarker => Some(StrokeCap::DiamondMarker),
            RawStrokeCap::Round => Some(StrokeCap::Round),
            RawStrokeCap::Square => Some(StrokeCap::Square),
        }
    }
}

impl TryFrom<RawStrokeCap> for StrokeCap {
    type Error = ();

    fn try_from(value: RawStrokeCap) -> (r: Result<StrokeCap, ()>) {
        match value {
            RawStrokeCap::NoCap => Err(()),
            RawStrokeCap::LineArrow => Ok(StrokeCap::LineArrow),
            RawStrokeCap::TriangleArrow => Ok(StrokeCap::TriangleArrow),
            RawStrokeCap::SquareMarker => Ok(StrokeCap::SquareMarker),
            RawStrokeCap::CircleMarker => Ok(StrokeCap::CircleMarker),
            RawStrokeCap::DiamondMarker => Ok(StrokeCap::DiamondMarker),
            RawStrokeCap::Round => Ok(StrokeCap::Round),
            RawStrokeCap::Square => Ok(StrokeCap::Square),
        }
    }
}

impl vstd::std_specs::convert::TryFromSpecImpl<RawStrokeCap> for StrokeCap {
    open spec fn obeys_try_from_spec() -> bool {
        true
    }

    open spec fn try_from_spec(value: RawStrokeCap) -> Result<StrokeCap, ()> {
        match value.spec_to_cap() {
            Some(cap) => Ok(cap),
            None => Err(()),
        }
    }
}

/// Stroke kind as encoded in a stroke entry.
#[derive(Debug, Clone, Copy, PartialEq)]
pub enum RawStrokeKind {
    Center,
    Inner,
    Outer,
}

impl RawStrokeKind {
    /// Whether `value` encodes a stroke kind.
    pub open spec fn is_code(value: u8) -> bool {
        value <= 2
    }

    /// The kind encoded by `value`.
    pub open spec fn spec_from_raw(value: u8) -> RawStrokeKind {
        if value == 0 {
            RawStrokeKind::Center
        } else if value == 1 {
            RawStrokeKind::Inner
        } else {
            RawStrokeKind::Outer
        }
    }

    /// Decodes a stroke kind; `value` must be one of its codes.
    pub fn from_raw(value: u8) -> (r: RawStrokeKind)
        requires
            RawStrokeKind::is_code(value),
        ensures
            r == RawStrokeKind::spec_from_raw(value),
    {
        if value == 0 {
            RawStrokeKind::Center
        } else if value == 1 {
            RawStrokeKind::Inner
        } else {
            RawStrokeKind::Outer
        }
    }
}

impl RawStrokeKind {
    /// The stroke kind that an encoded kind stands for.
    pub open spec fn spec_to_kind(self) -> StrokeKind {
        match self {
            RawStrokeKind::Center => StrokeKind::Center,
            RawStrokeKind::Inner => StrokeKind::Inner,
            RawStrokeKind::Outer => StrokeKind::Outer,
        }
    }
}

impl From<RawStrokeKind> for StrokeKind {
    fn from(value: RawStrokeKind) -> (r: StrokeKind) {
        match value {
            RawStrokeKind::Center => StrokeKind::Center,
            RawStrokeKind::Inner => StrokeKind::Inner,
            RawStrokeKind::Outer => StrokeKind::Outer,
        }
    }
}

impl vstd::std_specs::convert::FromSpecImpl<RawStrokeKind> for StrokeKind {
    open spec fn obeys_from_spec() -> bool {
        true
    }

    open spec fn from_spec(value: RawStrokeKind) -> StrokeKind {
        value.spec_to_kind()
    }
}

/// Whether the four header bytes of a stroke entry hold valid codes.
pub open spec fn is_valid_stroke_entry(entry: Seq<u8>) -> bool {
    &&& RawStrokeKind::is_code(entry[0])
    &&& RawStrokeStyle::is_code(entry[1])
    &&& RawStrokeCap::is_code(entry[2])
    &&& RawStrokeCap::is_code(entry[3])
}

/// The stroke that a stroke entry encodes.
pub open spec fn spec_parse_stroke(entry: Seq<u8>) -> StrokeModel {
    StrokeModel {
        fill: entry.subrange(8, 8 + RAW_FILL_DATA_SIZE),
        width_bits: u32_le_at(entry, 4),
        style: RawStrokeStyle::spec_from_raw(entry[1]).spec_to_style(),
        cap_start: RawStrokeCap::spec_from_raw(entry[2]).spec_to_cap(),
        cap_end: RawStrokeCap::spec_from_raw(entry[3]).spec_to_cap(),
        kind: RawStrokeKind::spec_from_raw(entry[0]).spec_to_kind(),
    }
}

/// Decodes one stroke entry from the start of `bytes`.
///
/// The fill is handed on as its encoded bytes: decoding it, and rejecting
/// an invalid one, is the fill module's work.
pub fn parse_stroke_from_bytes(bytes: &[u8]) -> (r: Stroke)
    requires
        bytes@.len() >= STROKE_ENTRY_SIZE,
        is_valid_stroke_entry(bytes@),
    ensures
        r@ == spec_parse_stroke(bytes@),
{
    let kind = RawStrokeKind::from_raw(bytes[0]);
    let style = RawStrokeStyle::from_raw(bytes[1]);
    let cap_start = RawStrokeCap::from_raw(bytes[2]);
    let cap_end = RawStrokeCap::from_raw(bytes[3]);
    let width_bits = read_u32_le(bytes, 4);
    let fill_bytes = &bytes[8..8 + RAW_FILL_DATA_SIZE];
    let fill = vstd::slice::slice_to_vec(fill_bytes);
    Stroke {
        fill,
        width_bits,
        style: StrokeStyle::from(style),
        cap_start: StrokeCap::try_from(cap_start).ok(),
        cap_end: StrokeCap::try_from(cap_end).ok(),
        kind: StrokeKind::from(kind),
    }
}

/// The `i`-th stroke entry of `buffer`.
pub open spec fn stroke_entry(buffer: Seq<u8>, i: int) -> Seq<u8> {
    buffer.subrange(i * STROKE_ENTRY_SIZE, i * STROKE_ENTRY_SIZE + STROKE_ENTRY_SIZE)
}

/// How many strokes are read from `buffer` when `num_strokes` are asked
/// for: no more than the whole entries that the buffer holds.
pub open spec fn stroke_count(buffer: Seq<u8>, num_strokes: nat) -> nat {
    let available = buffer.len() / (STROKE_ENTRY_SIZE as nat);
    if num_strokes <= available {
        num_strokes
    } else {
        available
    }
}

/// Whether each stroke entry that is read holds valid codes.
pub open spec fn are_valid_stroke_entries(buffer: Seq<u8>, num_strokes: nat) -> bool {
    forall|i: int|
        0 <= i < stroke_count(buffer, num_strokes) ==> #[trigger] is_valid_stroke_entry(
            stroke_entry(buffer, i),
        )
}

/// The strokes read from `buffer` when `num_strokes` are asked for.
pub open spec fn spec_parse_strokes(buffer: Seq<u8>, num_strokes: nat) -> Seq<StrokeModel> {
    Seq::new(stroke_count(buffer, num_strokes), |i: int| spec_parse_stroke(stroke_entry(buffer, i)))
}

/// The strokes as mathematical values.
pub open spec fn stroke_models(strokes: Seq<Stroke>) -> Seq<StrokeModel> {
    strokes.map_values(|s: Stroke| s@)
}

/// Decodes the first `num_strokes` whole stroke entries of `buffer`, or all
/// of them if it holds fewer.
pub fn parse_strokes_from_bytes(buffer: &[u8], num_strokes: usize) -> (r: Vec<Stroke>)
    requires
        are_valid_stroke_entries(buffer@, num_strokes as nat),
    ensures
        stroke_models(r@) == spec_parse_strokes(buffer@, num_strokes as nat),
{
    let available = buffer.len() / STROKE_ENTRY_SIZE;
    let count = if num_strokes <= available {
        num_strokes
    } else {
        available
    };
    let mut result: Vec<Stroke> = Vec::new();
    let mut i: usize = 0;
    while i < count
        invariant
            i <= count,
            buffer@.len() <= usize::MAX,
            count == stroke_count(buffer@, num_strokes as nat),
            count <= buffer@.len() / (STROKE_ENTRY_SIZE as nat),
            are_valid_stroke_entries(buffer@, num_strokes as nat),
            result@.len() == i,
            forall|j: int|
                0 <= j < i ==> (#[trigger] result@[j])@ == spec_parse_stroke(
                    stroke_entry(buffer@, j),
                ),
        decreases count - i,
    {
        assert(i * STROKE_ENTRY_SIZE + STROKE_ENTRY_SIZE <= buffer@.len()) by (nonlinear_arith)
            requires
                i < count,
                count <= buffer@.len() / (STROKE_ENTRY_SIZE as nat),
        ;
        let start = i * STROKE_ENTRY_SIZE;
        let entry = &buffer[start..start + STROKE_ENTRY_SIZE];
        assert(entry@ == stroke_entry(buffer@, i as int));
        assert(is_valid_stroke_entry(stroke_entry(buffer@, i as int)));
        let stroke = parse_stroke_from_bytes(entry);
        result.push(stroke);
        i = i + 1;
    }
    assert(stroke_models(result@) =~= spec_parse_strokes(buffer@, num_strokes as nat));
    result
}

/// The strokes that a stroke buffer holds.
///
/// Buffer layout:
///   byte 0:      number of strokes (u8)
///   bytes 1-3:   padding (reserved)
///   bytes 4..:   N × STROKE_ENTRY_SIZE stroke entries
pub fn parse_strokes_buffer(bytes: &[u8]) -> (r: Vec<Stroke>)
    requires
        bytes@.len() >= 4,
        are_valid_stroke_entries(bytes@.skip(4), bytes@[0] as nat),
    ensures
        stroke_models(r@) == spec_parse_strokes(bytes@.skip(4), bytes@[0] as nat),
{
    let num_strokes = bytes[0] as usize;
    let entries = &bytes[4..bytes.len()];
    assert(entries@ == bytes@.skip(4));
    parse_strokes_from_bytes(entries, num_strokes)
}

/// Asking for fewer strokes reads a prefix of what asking for more reads:
/// the entries are read in order, each on its own.
pub proof fn lemma_parse_strokes_prefix(buffer: Seq<u8>, fewer: nat, more: nat)
    requires
        fewer <= more,
    ensures
        spec_parse_strokes(buffer, fewer) == spec_parse_strokes(buffer, more).take(
            stroke_count(buffer, fewer) as int,
        ),
{
    assert(spec_parse_strokes(buffer, fewer) =~= spec_parse_strokes(buffer, more).take(
        stroke_count(buffer, fewer) as int,
    ));
}

/// Bytes after the entries that are read do not change what is read.
pub proof fn lemma_parse_strokes_ignores_trailing_bytes(
    buffer: Seq<u8>,
    trailing: Seq<u8>,
    num_strokes: nat,
)
    requires
        num_strokes * STROKE_ENTRY_SIZE <= buffer.len(),
    ensures
        spec_parse_strokes(buffer + trailing, num_strokes) == spec_parse_strokes(
            buffer,
            num_strokes,
        ),
{
    let whole = buffer + trailing;
    assert(num_strokes <= buffer.len() / (STROKE_ENTRY_SIZE as nat)) by (nonlinear_arith)
        requires
            num_strokes * STROKE_ENTRY_SIZE <= buffer.len(),
    ;
    assert(num_strokes <= whole.len() / (STROKE_ENTRY_SIZE as nat)) by (nonlinear_arith)
        requires
            num_strokes * STROKE_ENTRY_SIZE <= buffer.len(),
            buffer.len() <= whole.len(),
    ;
    assert forall|i: int| 0 <= i < num_strokes implies stroke_entry(whole, i) == stroke_entry(
        buffer,
        i,
    ) by {
        assert(i * STROKE_ENTRY_SIZE + STROKE_ENTRY_SIZE <= buffer.len()) by (nonlinear_arith)
            requires
                0 <= i < num_strokes,
                num_strokes * STROKE_ENTRY_SIZE <= buffer.len(),
        ;
        assert(stroke_entry(whole, i) =~= stroke_entry(buffer, i));
    }
    assert(spec_parse_strokes(whole, num_strokes) =~= spec_parse_strokes(buffer, num_strokes));
}

/// The width, style and caps of a stroke made from the arguments of the
/// single-stroke setters.
pub open spec fn spec_stroke_parts_from_args(width_bits: u32, style: u8, cap_start: u8, cap_end: u8) -> (
    u32,
    StrokeStyle,
    Option<StrokeCap>,
    Option<StrokeCap>,
) {
    (
        width_bits,
        RawStrokeStyle::spec_from_raw(style).spec_to_style(),
        RawStrokeCap::spec_from_raw(cap_start).spec_to_cap(),
        RawStrokeCap::spec_from_raw(cap_end).spec_to_cap(),
    )
}

/// Decodes the arguments of the single-stroke setters (center, inner and
/// outer): the width, the style and the two caps; each code must be valid.
pub fn stroke_parts_from_args(width_bits: u32, style: u8, cap_start: u8, cap_end: u8) -> (r: (
    u32,
    StrokeStyle,
    Option<StrokeCap>,
    Option<StrokeCap>,
))
    requires
        RawStrokeStyle::is_code(style),
        RawStrokeCap::is_code(cap_start),
        RawStrokeCap::is_code(cap_end),
    ensures
        r == spec_stroke_parts_from_args(width_bits, style, cap_start, cap_end),
{
    let stroke_style = RawStrokeStyle::from_raw(style);
    let cap_start = RawStrokeCap::from_raw(cap_start);
    let cap_end = RawStrokeCap::from_raw(cap_end);
    (
        width_bits,
        StrokeStyle::from(stroke_style),
        StrokeCap::try_from(cap_start).ok(),
        StrokeCap::try_from(cap_end).ok(),
    )
}

/// A stroke read from a stroke entry has the width, style and caps that
/// the single-stroke setters make from the entry's header fields.
pub proof fn lemma_entry_matches_stroke_parts_from_args(entry: Seq<u8>)
    requires
        entry.len() >= STROKE_ENTRY_SIZE,
    ensures
        ({
            let s = spec_parse_stroke(entry);
            (s.width_bits, s.style, s.cap_start, s.cap_end) == spec_stroke_parts_from_args(
                u32_le_at(entry, 4),
                entry[1],
                entry[2],
                entry[3],
            )
        }),
{
}

/// The code of each stroke style in a stroke entry.
pub open spec fn stroke_style_code(style: StrokeStyle) -> u8 {
    match style {
        StrokeStyle::Solid => 0,
        StrokeStyle::Dotted => 1,
        StrokeStyle::Dashed => 2,
        StrokeStyle::Mixed => 3,
    }
}

/// The code of each stroke cap in a stroke entry (`0` means no cap).
pub open spec fn stroke_cap_code(cap: StrokeCap) -> u8 {
    match cap {
        StrokeCap::LineArrow => 1,
        StrokeCap::TriangleArrow => 2,
        StrokeCap::SquareMarker => 3,
        StrokeCap::CircleMarker => 4,
        StrokeCap::DiamondMarker => 5,
        StrokeCap::Round => 6,
        StrokeCap::Square => 7,
    }
}

/// The code of each stroke kind in a stroke entry.
pub open spec fn stroke_kind_code(kind: StrokeKind) -> u8 {
    match kind {
        StrokeKind::Center => 0,
        StrokeKind::Inner => 1,
        StrokeKind::Outer => 2,
    }
}

/// The code of each encoded stroke cap.
pub open spec fn raw_stroke_cap_code(cap: RawStrokeCap) -> u8 {
    match cap {
        RawStrokeCap::NoCap => 0,
        RawStrokeCap::LineArrow => 1,
        RawStrokeCap::TriangleArrow => 2,
        RawStrokeCap::SquareMarker => 3,
        RawStrokeCap::CircleMarker => 4,
        RawStrokeCap::DiamondMarker => 5,
        RawStrokeCap::Round => 6,
        RawStrokeCap::Square => 7,
    }
}

/// The code of each encoded stroke style.
pub open spec fn raw_stroke_style_code(style: RawStrokeStyle) -> u8 {
    match style {
        RawStrokeStyle::Solid => 0,
        RawStrokeStyle::Dotted => 1,
        RawStrokeStyle::Dashed => 2,
        RawStrokeStyle::Mixed => 3,
    }
}

/// The code of each encoded stroke kind.
pub open spec fn raw_stroke_kind_code(kind: RawStrokeKind) -> u8 {
    match kind {
        RawStrokeKind::Center => 0,
        RawStrokeKind::Inner => 1,
        RawStrokeKind::Outer => 2,
    }
}

/// Decoding a code gives the variant with that code, and decoding the code
/// of a variant gives that variant back: codes and variants correspond one
/// to one.
pub proof fn lemma_raw_stroke_codes_round_trip()
    ensures
        forall|v: u8|
            RawStrokeCap::is_code(v) ==> raw_stroke_cap_code(#[trigger] RawStrokeCap::spec_from_raw(v))
                == v,
        forall|c: RawStrokeCap| RawStrokeCap::spec_from_raw(#[trigger] raw_stroke_cap_code(c)) == c,
        forall|v: u8|
            RawStrokeStyle::is_code(v) ==> raw_stroke_style_code(
                #[trigger] RawStrokeStyle::spec_from_raw(v),
            ) == v,
        forall|c: RawStrokeStyle|
            RawStrokeStyle::spec_from_raw(#[trigger] raw_stroke_style_code(c)) == c,
        forall|v: u8|
            RawStrokeKind::is_code(v) ==> raw_stroke_kind_code(#[trigger] RawStrokeKind::spec_from_raw(v))
                == v,
        forall|c: RawStrokeKind| RawStrokeKind::spec_from_raw(#[trigger] raw_stroke_kind_code(c)) == c,
{
}

/// Converting an encoded cap keeps its name: it fails exactly for `NoCap`,
/// and otherwise gives the cap with the same code.
pub proof fn lemma_cap_conversion_keeps_code(raw: RawStrokeCap)
    ensures
        StrokeCap::try_from_spec(raw) is Err <==> raw == RawStrokeCap::NoCap,
        StrokeCap::try_from_spec(raw) matches Ok(cap) ==> stroke_cap_code(cap) == raw_stroke_cap_code(
            raw,
        ),
{
}

/// Converting encoded caps is one to one on the seven real caps.
pub proof fn lemma_cap_conversion_injective(a: RawStrokeCap, b: RawStrokeCap)
    requires
        StrokeCap::try_from_spec(a) is Ok,
        StrokeCap::try_from_spec(a) == StrokeCap::try_from_spec(b),
    ensures
        a == b,
{
}

/// Each field of a decoded stroke entry is what its documented bytes
/// encode: the kind is the one with code byte 0, the style the one with
/// code byte 1, each cap is absent for code 0 and otherwise the cap with
/// that code, the width is bytes 4 to 7 read little-endian, and the fill is
/// the bytes that follow the header.
pub proof fn lemma_parse_stroke_fields(entry: Seq<u8>)
    requires
        entry.len() >= STROKE_ENTRY_SIZE,
        is_valid_stroke_entry(entry),
    ensures
        ({
            let s = spec_parse_stroke(entry);
            &&& stroke_kind_code(s.kind) == entry[0]
            &&& stroke_style_code(s.style) == entry[1]
            &&& (s.cap_start is None <==> entry[2] == 0)
            &&& (s.cap_start matches Some(cap) ==> stroke_cap_code(cap) == entry[2])
            &&& (s.cap_end is None <==> entry[3] == 0)
            &&& (s.cap_end matches Some(cap) ==> stroke_cap_code(cap) == entry[3])
            &&& s.width_bits as int == entry[4] + 256 * entry[5] + 65536 * entry[6] + 16777216
                * entry[7]
            &&& s.fill.len() == RAW_FILL_DATA_SIZE
            &&& forall|i: int| 0 <= i < RAW_FILL_DATA_SIZE ==> #[trigger] s.fill[i] == entry[8 + i]
        }),
{
}

/// The single-stroke setters keep the width, take the style with the given
/// code, and take each cap as absent for code 0 and otherwise the cap with
/// that code.
pub proof fn lemma_stroke_parts_from_args_codes(width_bits: u32, style: u8, cap_start: u8, cap_end: u8)
    requires
        RawStrokeStyle::is_code(style),
        RawStrokeCap::is_code(cap_start),
        RawStrokeCap::is_code(cap_end),
    ensures
        ({
            let (w, st, cs, ce) = spec_stroke_parts_from_args(width_bits, style, cap_start, cap_end);
            &&& w == width_bits
            &&& stroke_style_code(st) == style
            &&& (cs is None <==> cap_start == 0)
            &&& (cs matches Some(cap) ==> stroke_cap_code(cap) == cap_start)
            &&& (ce is None <==> cap_end == 0)
            &&& (ce matches Some(cap) ==> stroke_cap_code(cap) == cap_end)
        }),
{
}

/// Reading strokes gives as many as asked for when the buffer holds them,
/// and otherwise every whole entry of the buffer; the i-th is the entry at
/// byte `i * STROKE_ENTRY_SIZE` read on its own.
pub proof fn lemma_parse_strokes_count(buffer: Seq<u8>, num_strokes: nat)
    ensures
        ({
            let r = spec_parse_strokes(buffer, num_strokes);
            &&& r.len() <= num_strokes
            &&& r.len() * STROKE_ENTRY_SIZE <= buffer.len()
            &&& (r.len() == num_strokes || buffer.len() < (r.len() + 1) * STROKE_ENTRY_SIZE)
            &&& (num_strokes * STROKE_ENTRY_SIZE <= buffer.len() ==> r.len() == num_strokes)
            &&& forall|i: int|
                0 <= i < r.len() ==> #[trigger] r[i] == spec_parse_stroke(
                    buffer.subrange(i * STROKE_ENTRY_SIZE, i * STROKE_ENTRY_SIZE + STROKE_ENTRY_SIZE),
                )
        }),
{
    let n = spec_parse_strokes(buffer, num_strokes).len();
    let available = buffer.len() / (STROKE_ENTRY_SIZE as nat);
    assert(available * STROKE_ENTRY_SIZE <= buffer.len() < (available + 1) * STROKE_ENTRY_SIZE)
        by (nonlinear_arith)
        requires
            available == buffer.len() / (STROKE_ENTRY_SIZE as nat),
    ;
    assert(n * STROKE_ENTRY_SIZE <= available * STROKE_ENTRY_SIZE) by (nonlinear_arith)
        requires
            n <= available,
    ;
    assert(num_strokes * STROKE_ENTRY_SIZE <= buffer.len() ==> num_strokes <= available)
        by (nonlinear_arith)
        requires
            available * STROKE_ENTRY_SIZE <= buffer.len() < (available + 1) * STROKE_ENTRY_SIZE,
    ;
}

} // verus!
