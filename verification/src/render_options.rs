use vstd::prelude::*;

use crate::options::{DEBUG_VISIBLE, FAST_MODE, PROFILE_REBUILD_TILES, SETTLING_MODE};

verus! {

/// Bit pattern of the `f32` value `1.0`: the device pixel ratio used when
/// none was given.
pub const DEFAULT_DPR_BITS: u32 = 0x3f80_0000;

/// Whether every bit of `flag` is set in `flags`.
pub open spec fn has_flag(flags: u32, flag: u32) -> bool {
    flags & flag == flag
}

/// `flags` with the bits of `flag` switched on (`enabled`) or off.
pub open spec fn with_flag(flags: u32, flag: u32, enabled: bool) -> u32 {
    if enabled {
        flags | flag
    } else {
        flags & !flag
    }
}

/// Options of the renderer: a set of mode flags and an optional device
/// pixel ratio.
///
/// The device pixel ratio is an `f32`; it is held here by its IEEE-754 bit
/// pattern (`f32::to_bits`), which is all the options ever do with it.
/// Hence the derived `==` compares device pixel ratios bit for bit: a NaN
/// ratio equals a NaN with the same bits, and `0.0` differs from `-0.0`,
/// where a float comparison would say the opposite.
#[derive(Debug, Copy, Clone, PartialEq)]
pub struct RenderOptions {
    pub flags: u32,
    pub dpr: Option<u32>,
}

impl RenderOptions {
    pub open spec fn spec_is_debug_visible(self) -> bool {
        has_flag(self.flags, DEBUG_VISIBLE)
    }

    pub open spec fn spec_is_profile_rebuild_tiles(self) -> bool {
        has_flag(self.flags, PROFILE_REBUILD_TILES)
    }

    pub open spec fn spec_is_fast_mode(self) -> bool {
        has_flag(self.flags, FAST_MODE)
    }

    pub open spec fn spec_is_settling_mode(self) -> bool {
        has_flag(self.flags, SETTLING_MODE)
    }

    pub open spec fn spec_is_reduced_quality(self) -> bool {
        self.spec_is_fast_mode() || self.spec_is_settling_mode()
    }

    /// The options after fast mode was switched on or off.
    pub open spec fn with_fast_mode(self, enabled: bool) -> RenderOptions {
        RenderOptions { flags: with_flag(self.flags, FAST_MODE, enabled), dpr: self.dpr }
    }

    /// The options after settling mode was switched on or off.
    pub open spec fn with_settling_mode(self, enabled: bool) -> RenderOptions {
        RenderOptions { flags: with_flag(self.flags, SETTLING_MODE, enabled), dpr: self.dpr }
    }

    /// The bit pattern of the device pixel ratio in effect.
    pub open spec fn spec_dpr(self) -> u32 {
        match self.dpr {
            Some(bits) => bits,
            None => DEFAULT_DPR_BITS,
        }
    }

    pub fn is_debug_visible(&self) -> (r: bool)
        ensures
            r == self.spec_is_debug_visible(),
    {
        self.flags & DEBUG_VISIBLE == DEBUG_VISIBLE
    }

    pub fn is_profile_rebuild_tiles(&self) -> (r: bool)
        ensures
            r == self.spec_is_profile_rebuild_tiles(),
    {
        self.flags & PROFILE_REBUILD_TILES == PROFILE_REBUILD_TILES
    }

    /// Use fast mode to enable / disable expensive operations
    pub fn is_fast_mode(&self) -> (r: bool)
        ensures
            r == self.spec_is_fast_mode(),
    {
        self.flags & FAST_MODE == FAST_MODE
    }

    pub fn set_fast_mode(&mut self, enabled: bool)
        ensures
            *final(self) == old(self).with_fast_mode(enabled),
    {
        if enabled {
            self.flags = self.flags | FAST_MODE;
        } else {
            self.flags = self.flags & !FAST_MODE;
        }
    }

    /// Settling mode: transitional reduced-quality render after pan/zoom ends.
    /// Blur is kept but rendered at reduced resolution/sigma so the first
    /// post-interaction frame appears quickly. A follow-up full-quality render
    /// is then scheduled.
    pub fn is_settling_mode(&self) -> (r: bool)
        ensures
            r == self.spec_is_settling_mode(),
    {
        self.flags & SETTLING_MODE == SETTLING_MODE
    }

    pub fn set_settling_mode(&mut self, enabled: bool)
        ensures
            *final(self) == old(self).with_settling_mode(enabled),
    {
        if enabled {
            self.flags = self.flags | SETTLING_MODE;
        } else {
            self.flags = self.flags & !SETTLING_MODE;
        }
    }

    /// Returns true if blur quality should be reduced (either fast mode or settling mode).
    pub fn is_reduced_quality(&self) -> (r: bool)
        ensures
            r == self.spec_is_reduced_quality(),
    {
        self.is_fast_mode() || self.is_settling_mode()
    }

    /// The device pixel ratio, as the bit pattern of an `f32`; `1.0` when
    /// none was given.
    pub fn dpr(&self) -> (r: u32)
        ensures
            r == self.spec_dpr(),
    {
        match self.dpr {
            Some(bits) => bits,
            None => DEFAULT_DPR_BITS,
        }
    }
}

/// Switching a mode flag on or off touches only that flag, and reading the
/// flag back gives what was written (bit-level facts behind the laws below).
proof fn lemma_with_flag_bits(flags: u32, enabled: bool)
    ensures
        has_flag(with_flag(flags, FAST_MODE, enabled), FAST_MODE) == enabled,
        has_flag(with_flag(flags, SETTLING_MODE, enabled), SETTLING_MODE) == enabled,
        has_flag(with_flag(flags, FAST_MODE, enabled), SETTLING_MODE) == has_flag(flags, SETTLING_MODE),
        has_flag(with_flag(flags, FAST_MODE, enabled), DEBUG_VISIBLE) == has_flag(flags, DEBUG_VISIBLE),
        has_flag(with_flag(flags, FAST_MODE, enabled), PROFILE_REBUILD_TILES) == has_flag(flags, PROFILE_REBUILD_TILES),
        has_flag(with_flag(flags, SETTLING_MODE, enabled), FAST_MODE) == has_flag(flags, FAST_MODE),
        has_flag(with_flag(flags, SETTLING_MODE, enabled), DEBUG_VISIBLE) == has_flag(flags, DEBUG_VISIBLE),
        has_flag(with_flag(flags, SETTLING_MODE, enabled), PROFILE_REBUILD_TILES) == has_flag(flags, PROFILE_REBUILD_TILES),
{
    if enabled {
        assert((flags | 4u32) & 4u32 == 4u32) by (bit_vector);
        assert((flags | 8u32) & 8u32 == 8u32) by (bit_vector);
        assert(((flags | 4u32) & 8u32 == 8u32) == (flags & 8u32 == 8u32)) by (bit_vector);
        assert(((flags | 4u32) & 1u32 == 1u32) == (flags & 1u32 == 1u32)) by (bit_vector);
        assert(((flags | 4u32) & 2u32 == 2u32) == (flags & 2u32 == 2u32)) by (bit_vector);
        assert(((flags | 8u32) & 4u32 == 4u32) == (flags & 4u32 == 4u32)) by (bit_vector);
        assert(((flags | 8u32) & 1u32 == 1u32) == (flags & 1u32 == 1u32)) by (bit_vector);
        assert(((flags | 8u32) & 2u32 == 2u32) == (flags & 2u32 == 2u32)) by (bit_vector);
    } else {
        assert((flags & !4u32) & 4u32 != 4u32) by (bit_vector);
        assert((flags & !8u32) & 8u32 != 8u32) by (bit_vector);
        assert(((flags & !4u32) & 8u32 == 8u32) == (flags & 8u32 == 8u32)) by (bit_vector);
        assert(((flags & !4u32) & 1u32 == 1u32) == (flags & 1u32 == 1u32)) by (bit_vector);
        assert(((flags & !4u32) & 2u32 == 2u32) == (flags & 2u32 == 2u32)) by (bit_vector);
        assert(((flags & !8u32) & 4u32 == 4u32) == (flags & 4u32 == 4u32)) by (bit_vector);
        assert(((flags & !8u32) & 1u32 == 1u32) == (flags & 1u32 == 1u32)) by (bit_vector);
        assert(((flags & !8u32) & 2u32 == 2u32) == (flags & 2u32 == 2u32)) by (bit_vector);
    }
}

/// After fast mode is set to `enabled`, `is_fast_mode` reports `enabled`;
/// the other flags, settling mode among them, and the device pixel ratio
/// are as they were.
pub proof fn lemma_set_fast_mode_reads_back(opts: RenderOptions, enabled: bool)
    ensures
        opts.with_fast_mode(enabled).spec_is_fast_mode() == enabled,
        opts.with_fast_mode(enabled).spec_is_settling_mode() == opts.spec_is_settling_mode(),
        opts.with_fast_mode(enabled).spec_is_debug_visible() == opts.spec_is_debug_visible(),
        opts.with_fast_mode(enabled).spec_is_profile_rebuild_tiles()
            == opts.spec_is_profile_rebuild_tiles(),
        opts.with_fast_mode(enabled).spec_dpr() == opts.spec_dpr(),
{
    lemma_with_flag_bits(opts.flags, enabled);
}

/// After settling mode is set to `enabled`, `is_settling_mode` reports
/// `enabled`; the other flags, fast mode among them, and the device pixel
/// ratio are as they were.
pub proof fn lemma_set_settling_mode_reads_back(opts: RenderOptions, enabled: bool)
    ensures
        opts.with_settling_mode(enabled).spec_is_settling_mode() == enabled,
        opts.with_settling_mode(enabled).spec_is_fast_mode() == opts.spec_is_fast_mode(),
        opts.with_settling_mode(enabled).spec_is_debug_visible() == opts.spec_is_debug_visible(),
        opts.with_settling_mode(enabled).spec_is_profile_rebuild_tiles()
            == opts.spec_is_profile_rebuild_tiles(),
        opts.with_settling_mode(enabled).spec_dpr() == opts.spec_dpr(),
{
    lemma_with_flag_bits(opts.flags, enabled);
}

/// Setting a mode twice leaves the options as the second setting alone
/// does: the last write wins.
pub proof fn lemma_set_mode_last_write_wins(opts: RenderOptions, first: bool, second: bool)
    ensures
        opts.with_fast_mode(first).with_fast_mode(second) == opts.with_fast_mode(second),
        opts.with_settling_mode(first).with_settling_mode(second) == opts.with_settling_mode(
            second,
        ),
{
    let f = opts.flags;
    assert(with_flag(with_flag(f, FAST_MODE, first), FAST_MODE, second) == with_flag(f, FAST_MODE, second)) by {
        assert(((f | 4u32) | 4u32) == (f | 4u32)) by (bit_vector);
        assert(((f & !4u32) | 4u32) == (f | 4u32)) by (bit_vector);
        assert(((f | 4u32) & !4u32) == (f & !4u32)) by (bit_vector);
        assert(((f & !4u32) & !4u32) == (f & !4u32)) by (bit_vector);
    }
    assert(with_flag(with_flag(f, SETTLING_MODE, first), SETTLING_MODE, second) == with_flag(f, SETTLING_MODE, second)) by {
        assert(((f | 8u32) | 8u32) == (f | 8u32)) by (bit_vector);
        assert(((f & !8u32) | 8u32) == (f | 8u32)) by (bit_vector);
        assert(((f | 8u32) & !8u32) == (f & !8u32)) by (bit_vector);
        assert(((f & !8u32) & !8u32) == (f & !8u32)) by (bit_vector);
    }
}

/// Fast mode and settling mode are set independently: the order in which
/// the two are set does not matter.
pub proof fn lemma_set_modes_commute(opts: RenderOptions, fast: bool, settling: bool)
    ensures
        opts.with_fast_mode(fast).with_settling_mode(settling) == opts.with_settling_mode(
            settling,
        ).with_fast_mode(fast),
{
    let f = opts.flags;
    assert(((f | 4u32) | 8u32) == ((f | 8u32) | 4u32)) by (bit_vector);
    assert(((f | 4u32) & !8u32) == ((f & !8u32) | 4u32)) by (bit_vector);
    assert(((f & !4u32) | 8u32) == ((f | 8u32) & !4u32)) by (bit_vector);
    assert(((f & !4u32) & !8u32) == ((f & !8u32) & !4u32)) by (bit_vector);
}

/// Setting a mode to the value it already has changes nothing.
pub proof fn lemma_set_mode_to_current_is_noop(opts: RenderOptions)
    ensures
        opts.with_fast_mode(opts.spec_is_fast_mode()) == opts,
        opts.with_settling_mode(opts.spec_is_settling_mode()) == opts,
{
    let f = opts.flags;
    assert(f & 4u32 == 4u32 ==> (f | 4u32) == f) by (bit_vector);
    assert(f & 4u32 != 4u32 ==> (f & !4u32) == f) by (bit_vector);
    assert(f & 8u32 == 8u32 ==> (f | 8u32) == f) by (bit_vector);
    assert(f & 8u32 != 8u32 ==> (f & !8u32) == f) by (bit_vector);
}

/// Quality is reduced exactly when fast mode or settling mode is on: after
/// either is switched on it is reduced, and after both are switched off it
/// is not.
pub proof fn lemma_reduced_quality(opts: RenderOptions)
    ensures
        opts.with_fast_mode(true).spec_is_reduced_quality(),
        opts.with_settling_mode(true).spec_is_reduced_quality(),
        !opts.with_fast_mode(false).with_settling_mode(false).spec_is_reduced_quality(),
{
    lemma_with_flag_bits(opts.flags, true);
    lemma_with_flag_bits(opts.flags, false);
    lemma_with_flag_bits(opts.with_fast_mode(false).flags, false);
}

/// Each mode query reports exactly its own bit of the flags: debug
/// visibility bit 0 (`0x01`), tile-rebuild profiling bit 1 (`0x02`), fast
/// mode bit 2 (`0x04`), settling mode bit 3 (`0x08`), and reduced quality
/// either of bits 2 and 3. Toggling any set of other bits leaves a query's
/// answer unchanged.
pub proof fn lemma_flag_queries_read_their_bit(opts: RenderOptions, toggled: u32)
    ensures
        opts.spec_is_debug_visible() == (opts.flags & 0x01 != 0),
        opts.spec_is_profile_rebuild_tiles() == (opts.flags & 0x02 != 0),
        opts.spec_is_fast_mode() == (opts.flags & 0x04 != 0),
        opts.spec_is_settling_mode() == (opts.flags & 0x08 != 0),
        opts.spec_is_reduced_quality() == (opts.flags & 0x0c != 0),
        toggled & 0x01 == 0 ==> (RenderOptions {
            flags: opts.flags ^ toggled,
            dpr: opts.dpr,
        }).spec_is_debug_visible() == opts.spec_is_debug_visible(),
        toggled & 0x02 == 0 ==> (RenderOptions {
            flags: opts.flags ^ toggled,
            dpr: opts.dpr,
        }).spec_is_profile_rebuild_tiles() == opts.spec_is_profile_rebuild_tiles(),
        toggled & 0x04 == 0 ==> (RenderOptions {
            flags: opts.flags ^ toggled,
            dpr: opts.dpr,
        }).spec_is_fast_mode() == opts.spec_is_fast_mode(),
        toggled & 0x08 == 0 ==> (RenderOptions {
            flags: opts.flags ^ toggled,
            dpr: opts.dpr,
        }).spec_is_settling_mode() == opts.spec_is_settling_mode(),
{
    let f = opts.flags;
    let t = toggled;
    assert(((f & 1u32 == 1u32) == (f & 1u32 != 0u32)) && (t & 1u32 == 0u32 ==> (((f ^ t) & 1u32
        == 1u32) == (f & 1u32 == 1u32)))) by (bit_vector);
    assert(((f & 2u32 == 2u32) == (f & 2u32 != 0u32)) && (t & 2u32 == 0u32 ==> (((f ^ t) & 2u32
        == 2u32) == (f & 2u32 == 2u32)))) by (bit_vector);
    assert(((f & 4u32 == 4u32) == (f & 4u32 != 0u32)) && (t & 4u32 == 0u32 ==> (((f ^ t) & 4u32
        == 4u32) == (f & 4u32 == 4u32)))) by (bit_vector);
    assert(((f & 8u32 == 8u32) == (f & 8u32 != 0u32)) && (t & 8u32 == 0u32 ==> (((f ^ t) & 8u32
        == 8u32) == (f & 8u32 == 8u32)))) by (bit_vector);
    assert((f & 12u32 != 0u32) == ((f & 4u32 != 0u32) || (f & 8u32 != 0u32))) by (bit_vector);
}

/// The device pixel ratio in effect is the one given, and `1.0` (bit
/// pattern `0x3f80_0000`) when none was given; switching modes leaves it
/// alone.
pub proof fn lemma_dpr_given_or_one(opts: RenderOptions, enabled: bool)
    ensures
        opts.dpr matches Some(bits) ==> opts.spec_dpr() == bits,
        opts.dpr is None ==> opts.spec_dpr() == 0x3f80_0000,
        opts.with_fast_mode(enabled).spec_dpr() == opts.spec_dpr(),
        opts.with_settling_mode(enabled).spec_dpr() == opts.spec_dpr(),
{
}

impl Default for RenderOptions {
    fn default() -> (r: RenderOptions)
        ensures
            r.flags == 0,
            r.dpr is None,
    {
        RenderOptions { flags: 0, dpr: None }
    }
}

} // verus!
