//! Digital-to-analog converter driver.
//!
//! The same logical converter has different register bindings across chip
//! families. `DacRegBlock` is the build-time register view: each family
//! supplies one binding of the logical operations (read or write the
//! control register, write the data-holding register for a channel at a
//! precision) to its own layout. The driver is generic over that view, so
//! an unsupported family fails at build time and no variant is ever
//! branched on at run time.

use vstd::arithmetic::div_mod::{
    lemma_div_pos_is_pos, lemma_fundamental_div_mod, lemma_mod_division_less_than_divisor,
    lemma_multiply_divide_lt,
};
use vstd::prelude::*;

verus! {

#[derive(Clone, Copy)]
/// Select the channel to output to. Most chips expose two.
pub enum Channel {
    One,
    Two,
}

#[derive(Clone, Copy)]
/// Three options are available to set the converter's precision.
pub enum DacBits {
    /// Eight bit precision, right-aligned.
    EightR,
    /// 12-bit precision, left-aligned.
    TwelveL,
    /// 12-bit precision, right-aligned.
    TwelveR,
}

#[derive(Clone, Copy)]
/// Select a trigger, used by some features.
pub enum Trigger {
    /// Timer 6
    Tim6,
    /// Timers 3 or 8
    Tim3_8,
    /// Timer 7
    Tim7,
    /// Timer 15
    Tim15,
    /// Timer 2
    Tim2,
    /// Timer 4
    Tim4,
    /// Eg, for interrupts
    Exti9,
    /// A software trigger
    Swtrig,
}

impl Trigger {
    /// The 3-bit encoding of the trigger source.
    pub open spec fn bits_spec(&self) -> u8 {
        match self {
            Trigger::Tim6 => 0,
            Trigger::Tim3_8 => 1,
            Trigger::Tim7 => 2,
            Trigger::Tim15 => 3,
            Trigger::Tim2 => 4,
            Trigger::Tim4 => 5,
            Trigger::Exti9 => 6,
            Trigger::Swtrig => 7,
        }
    }

    /// The 3-bit encoding of the trigger source.
    pub fn bits(&self) -> (r: u8)
        ensures
            r == self.bits_spec(),
            r < 8,
    {
        match self {
            Trigger::Tim6 => 0,
            Trigger::Tim3_8 => 1,
            Trigger::Tim7 => 2,
            Trigger::Tim15 => 3,
            Trigger::Tim2 => 4,
            Trigger::Tim4 => 5,
            Trigger::Exti9 => 6,
            Trigger::Swtrig => 7,
        }
    }
}

// --- control-register field layout, common to the supported families ---

/// Bit position of a channel's enable bit in the control register.
pub open spec fn en_lo(c: Channel) -> u32 {
    match c {
        Channel::One => 0,
        Channel::Two => 16,
    }
}

/// Bit position of a channel's trigger-enable bit.
pub open spec fn ten_lo(c: Channel) -> u32 {
    match c {
        Channel::One => 1,
        Channel::Two => 17,
    }
}

/// Bit position of a channel's 3-bit trigger-select field.
pub open spec fn tsel_lo(c: Channel) -> u32 {
    match c {
        Channel::One => 2,
        Channel::Two => 18,
    }
}

/// Bit position of a channel's 2-bit wave-generation field.
pub open spec fn wave_lo(c: Channel) -> u32 {
    match c {
        Channel::One => 6,
        Channel::Two => 22,
    }
}

/// Bit position of a channel's 4-bit amplitude/mask field.
pub open spec fn mamp_lo(c: Channel) -> u32 {
    match c {
        Channel::One => 8,
        Channel::Two => 24,
    }
}

/// The `w`-bit field of `v` starting at bit `lo`.
pub open spec fn fld(v: u32, lo: u32, w: u32) -> u32 {
    (v >> lo) & (((1u32 << w) - 1) as u32)
}

/// `v` with the `w`-bit field at `lo` replaced by `val`: the shape of
/// every read-modify-write the driver performs.
pub open spec fn spec_set_field(v: u32, lo: u32, w: u32, val: u32) -> u32 {
    (v & !((((1u32 << w) - 1) as u32) << lo)) | ((val << lo) as u32)
}

/// After replacing a field, reading it back gives the value written.
pub proof fn lemma_set_field_reads_back(v: u32, lo: u32, w: u32, val: u32)
    by (bit_vector)
    requires
        lo + w <= 32,
        1 <= w,
        w <= 31,
        val < (1u32 << w),
    ensures
        fld(spec_set_field(v, lo, w, val), lo, w) == val,
{
}

/// Replacing one field leaves every field disjoint from it unchanged.
pub proof fn lemma_set_field_frames(v: u32, lo: u32, w: u32, val: u32, lo2: u32, w2: u32)
    by (bit_vector)
    requires
        lo + w <= 32,
        1 <= w,
        w <= 31,
        val < (1u32 << w),
        lo2 + w2 <= 32,
        1 <= w2,
        w2 <= 31,
        lo2 + w2 <= lo || lo + w <= lo2,
    ensures
        fld(spec_set_field(v, lo, w, val), lo2, w2) == fld(v, lo2, w2),
{
}

/// Law: a field write is idempotent: writing the same value twice leaves
/// the register exactly as one write leaves it, with no toggle effect.
pub proof fn lemma_set_field_idempotent(v: u32, lo: u32, w: u32, val: u32)
    by (bit_vector)
    requires
        lo + w <= 32,
        1 <= w,
        w <= 31,
        val < (1u32 << w),
    ensures
        spec_set_field(spec_set_field(v, lo, w, val), lo, w, val) == spec_set_field(v, lo, w, val),
{
}

/// A later write to the same field wins: the earlier value is gone.
pub proof fn lemma_set_field_overwrites(v: u32, lo: u32, w: u32, val1: u32, val2: u32)
    by (bit_vector)
    requires
        lo + w <= 32,
        1 <= w,
        w <= 31,
        val1 < (1u32 << w),
        val2 < (1u32 << w),
    ensures
        spec_set_field(spec_set_field(v, lo, w, val1), lo, w, val2) == spec_set_field(
            v,
            lo,
            w,
            val2,
        ),
{
}

/// Values of the small constant shifts the field widths use.
pub proof fn lemma_small_shift_values()
    by (bit_vector)
    ensures
        (1u32 << 1) == 2,
        (1u32 << 2) == 4,
        (1u32 << 3) == 8,
        (1u32 << 4) == 16,
{
}

/// Read-modify-write step on a register value: replace the `w`-bit field
/// at `lo` with `val`.
pub fn set_field(v: u32, lo: u32, w: u32, val: u32) -> (r: u32)
    requires
        lo + w <= 32,
        1 <= w,
        w <= 31,
        val < (1u32 << w),
    ensures
        r == spec_set_field(v, lo, w, val),
{
    assert((1u32 << w) >= 1) by (bit_vector)
        requires
            w <= 31,
    ;
    (v & !(((1u32 << w) - 1) << lo)) | (val << lo)
}

// --- the variant-selected register view ---

/// The bits of a data-holding register that the hardware implements for
/// a precision mode; a write is truncated to this field.
pub open spec fn dhr_mask(b: DacBits) -> u32 {
    match b {
        DacBits::EightR => 0xFF,
        DacBits::TwelveL => 0xFFF0,
        DacBits::TwelveR => 0xFFF,
    }
}

/// The implemented field of a data-holding register, as a runtime mask.
pub fn dhr_mask_of(b: DacBits) -> (r: u32)
    ensures
        r == dhr_mask(b),
{
    match b {
        DacBits::EightR => 0xFF,
        DacBits::TwelveL => 0xFFF0,
        DacBits::TwelveR => 0xFFF,
    }
}

/// One hardware family's register block, bound at build time. `cr` is the
/// contents of the control register and `data(c, b)` the contents of the
/// data-holding register the family binds to channel `c` at precision
/// `b`. On a family that binds both channels to a single register set the
/// channels alias, which `shares_channels` records.
pub trait DacRegBlock: Sized {
    /// Whether both channels are bound to one set of data registers.
    spec fn shares_channels() -> bool;

    /// Contents of the control register.
    spec fn cr(&self) -> u32;

    /// Contents of the data-holding register for (channel, precision).
    spec fn data(&self, c: Channel, b: DacBits) -> u32;

    /// Read the control register.
    fn read_cr(&self) -> (r: u32)
        ensures
            r == self.cr(),
    ;

    /// Write the control register; the data registers are untouched.
    fn write_cr(&mut self, v: u32)
        ensures
            final(self).cr() == v,
            forall|c: Channel, b: DacBits| final(self).data(c, b) == old(self).data(c, b),
    ;

    /// Read the data-holding register for (channel, precision).
    fn read_data(&self, c: Channel, b: DacBits) -> (r: u32)
        ensures
            r == self.data(c, b),
    ;

    /// Write the data-holding register for (channel, precision). The
    /// hardware keeps the bits of the implemented field and silently
    /// drops the rest; on a shared-register family the write lands on
    /// both channels.
    fn write_data(&mut self, c: Channel, b: DacBits, v: u32)
        ensures
            final(self).cr() == old(self).cr(),
            forall|c2: Channel, b2: DacBits|
                final(self).data(c2, b2) == if b2 == b && (c2 == c || Self::shares_channels()) {
                    v & dhr_mask(b)
                } else {
                    old(self).data(c2, b2)
                },
    ;
}

/// Register block of the families with one data-register set per channel.
pub struct DacRegsDual {
    pub cr: u32,
    pub dhr8r1: u32,
    pub dhr12l1: u32,
    pub dhr12r1: u32,
    pub dhr8r2: u32,
    pub dhr12l2: u32,
    pub dhr12r2: u32,
}

impl DacRegsDual {
    /// The block in its reset state: every register clear.
    pub fn new() -> (r: Self)
        ensures
            r.cr() == 0,
            forall|c: Channel, b: DacBits| r.data(c, b) == 0,
    {
        DacRegsDual {
            cr: 0,
            dhr8r1: 0,
            dhr12l1: 0,
            dhr12r1: 0,
            dhr8r2: 0,
            dhr12l2: 0,
            dhr12r2: 0,
        }
    }
}

impl DacRegBlock for DacRegsDual {
    open spec fn shares_channels() -> bool {
        false
    }

    open spec fn cr(&self) -> u32 {
        self.cr
    }

    open spec fn data(&self, c: Channel, b: DacBits) -> u32 {
        match c {
            Channel::One => match b {
                DacBits::EightR => self.dhr8r1,
                DacBits::TwelveL => self.dhr12l1,
                DacBits::TwelveR => self.dhr12r1,
            },
            Channel::Two => match b {
                DacBits::EightR => self.dhr8r2,
                DacBits::TwelveL => self.dhr12l2,
                DacBits::TwelveR => self.dhr12r2,
            },
        }
    }

    fn read_cr(&self) -> u32 {
        self.cr
    }

    fn write_cr(&mut self, v: u32) {
        self.cr = v;
    }

    fn read_data(&self, c: Channel, b: DacBits) -> u32 {
        match c {
            Channel::One => match b {
                DacBits::EightR => self.dhr8r1,
                DacBits::TwelveL => self.dhr12l1,
                DacBits::TwelveR => self.dhr12r1,
            },
            Channel::Two => match b {
                DacBits::EightR => self.dhr8r2,
                DacBits::TwelveL => self.dhr12l2,
                DacBits::TwelveR => self.dhr12r2,
            },
        }
    }

    fn write_data(&mut self, c: Channel, b: DacBits, v: u32) {
        let masked = v & dhr_mask_of(b);
        match c {
            Channel::One => match b {
                DacBits::EightR => {
                    self.dhr8r1 = masked;
                },
                DacBits::TwelveL => {
                    self.dhr12l1 = masked;
                },
                DacBits::TwelveR => {
                    self.dhr12r1 = masked;
                },
            },
            Channel::Two => match b {
                DacBits::EightR => {
                    self.dhr8r2 = masked;
                },
                DacBits::TwelveL => {
                    self.dhr12l2 = masked;
                },
                DacBits::TwelveR => {
                    self.dhr12r2 = masked;
                },
            },
        }
    }
}

/// Register block of the family that binds both channels to one set of
/// data-holding registers. Its register map does not expose the
/// trigger-select fields, so the trigger operations are absent for it.
pub struct DacRegsShared {
    pub cr: u32,
    pub dhr8r: u32,
    pub dhr12l: u32,
    pub dhr12r: u32,
}

impl DacRegsShared {
    /// The block in its reset state: every register clear.
    pub fn new() -> (r: Self)
        ensures
            r.cr() == 0,
            forall|c: Channel, b: DacBits| r.data(c, b) == 0,
    {
        DacRegsShared { cr: 0, dhr8r: 0, dhr12l: 0, dhr12r: 0 }
    }
}

impl DacRegBlock for DacRegsShared {
    open spec fn shares_channels() -> bool {
        true
    }

    open spec fn cr(&self) -> u32 {
        self.cr
    }

    open spec fn data(&self, c: Channel, b: DacBits) -> u32 {
        match b {
            DacBits::EightR => self.dhr8r,
            DacBits::TwelveL => self.dhr12l,
            DacBits::TwelveR => self.dhr12r,
        }
    }

    fn read_cr(&self) -> u32 {
        self.cr
    }

    fn write_cr(&mut self, v: u32) {
        self.cr = v;
    }

    fn read_data(&self, c: Channel, b: DacBits) -> u32 {
        match b {
            DacBits::EightR => self.dhr8r,
            DacBits::TwelveL => self.dhr12l,
            DacBits::TwelveR => self.dhr12r,
        }
    }

    fn write_data(&mut self, c: Channel, b: DacBits, v: u32) {
        let masked = v & dhr_mask_of(b);
        match b {
            DacBits::EightR => {
                self.dhr8r = masked;
            },
            DacBits::TwelveL => {
                self.dhr12l = masked;
            },
            DacBits::TwelveR => {
                self.dhr12r = masked;
            },
        }
    }
}

/// Families whose register map exposes the trigger-select fields. The
/// trigger operations are defined only over these, so requesting a
/// trigger on a family without the fields fails at build time.
pub trait TriggerCapable: DacRegBlock {

}

impl TriggerCapable for DacRegsDual {

}

// --- clock enable / reset capability ---

/// Bit position of the converter's enable and reset bits in the bus
/// clock-control registers.
pub const RCC_DAC_BIT: u32 = 29;

/// Clock-control registers of the peripheral bus the converter hangs
/// off: clock-enable and reset.
pub struct Rcc {
    pub apb1enr: u32,
    pub apb1rstr: u32,
}

/// Power up the converter's clock domain and pulse its reset line: the
/// enable bit is set, and the reset bit is left clear after the pulse.
/// Every other bit of both registers keeps its value.
pub fn rcc_en_reset_dac(rcc: &mut Rcc)
    ensures
        final(rcc).apb1enr == spec_set_field(old(rcc).apb1enr, RCC_DAC_BIT, 1, 1),
        final(rcc).apb1rstr == spec_set_field(old(rcc).apb1rstr, RCC_DAC_BIT, 1, 0),
{
    proof {
        lemma_small_shift_values();
        lemma_set_field_overwrites(rcc.apb1rstr, RCC_DAC_BIT, 1, 1, 0);
    }
    rcc.apb1enr = set_field(rcc.apb1enr, RCC_DAC_BIT, 1, 1);
    rcc.apb1rstr = set_field(rcc.apb1rstr, RCC_DAC_BIT, 1, 1);
    rcc.apb1rstr = set_field(rcc.apb1rstr, RCC_DAC_BIT, 1, 0);
}

// --- voltage conversion ---

/// Largest raw code of a precision mode.
pub open spec fn max_code(b: DacBits) -> u32 {
    match b {
        DacBits::EightR => 255,
        DacBits::TwelveL => 4095,
        DacBits::TwelveR => 4095,
    }
}

/// The raw code for `mv` millivolts against a reference of `vref_mv`
/// millivolts: mv / vref * max_code, rounded to nearest, ties rounded up.
pub open spec fn voltage_code(mv: u32, vref_mv: u32, b: DacBits) -> int
    recommends
        vref_mv > 0,
{
    (2 * mv * max_code(b) + vref_mv) / (2 * vref_mv)
}

/// Law: within the reference range the conversion is exact. The raw code
/// is the integer nearest to mv / vref * max_code (a tie rounds up), so
/// twice the scaled voltage lies within vref of twice the code; the code
/// never exceeds max_code; and in the right-aligned modes the register
/// field holds it untruncated.
pub proof fn lemma_voltage_code_exact(mv: u32, vref_mv: u32, b: DacBits)
    requires
        0 < vref_mv,
        mv <= vref_mv,
    ensures
        0 <= voltage_code(mv, vref_mv, b) <= max_code(b),
        2 * (vref_mv as int) * voltage_code(mv, vref_mv, b) - vref_mv <= 2 * mv * max_code(b)
            < 2 * (vref_mv as int) * voltage_code(mv, vref_mv, b) + vref_mv,
        b != DacBits::TwelveL ==> ((voltage_code(mv, vref_mv, b) as u32) & dhr_mask(b))
            == voltage_code(mv, vref_mv, b),
{
    let m = max_code(b) as int;
    let x = 2 * mv * m + vref_mv;
    let d = 2 * (vref_mv as int);
    let code = voltage_code(mv, vref_mv, b);

    assert(code == x / d);
    assert(x >= 0) by (nonlinear_arith)
        requires
            mv >= 0,
            m >= 0,
            vref_mv > 0,
            x == 2 * mv * m + vref_mv,
    ;
    lemma_div_pos_is_pos(x, d);

    assert(x < d * (m + 1)) by (nonlinear_arith)
        requires
            mv <= vref_mv,
            m >= 0,
            vref_mv > 0,
            x == 2 * mv * m + vref_mv,
            d == 2 * (vref_mv as int),
    ;
    lemma_multiply_divide_lt(x, d, m + 1);

    lemma_fundamental_div_mod(x, d);
    lemma_mod_division_less_than_divisor(x, d);
    assert(2 * (vref_mv as int) * code - vref_mv <= 2 * mv * max_code(b) < 2 * (vref_mv as int)
        * code + vref_mv);

    let cu = code as u32;
    assert(cu == code);
    if b == DacBits::EightR {
        assert(cu <= 255 ==> (cu & 0xFF) == cu) by (bit_vector);
    }
    if b == DacBits::TwelveR {
        assert(cu <= 4095 ==> (cu & 0xFFF) == cu) by (bit_vector);
    }
}

// --- the driver ---

/// Spec-level control-register transform of `enable` and `disable`.
pub open spec fn cr_with_enable(cr: u32, c: Channel, on: bool) -> u32 {
    spec_set_field(
        cr,
        en_lo(c),
        1,
        if on {
            1
        } else {
            0
        },
    )
}

/// Spec-level control-register transform of `set_trigger`: trigger mode
/// enabled and the 3-bit source field programmed.
pub open spec fn cr_with_trigger(cr: u32, c: Channel, t: Trigger) -> u32 {
    spec_set_field(spec_set_field(cr, ten_lo(c), 1, 1), tsel_lo(c), 3, t.bits_spec() as u32)
}

/// Spec-level control-register transform of the wave-generation setup:
/// the 2-bit wave field and the 4-bit amplitude field both programmed
/// with `wbits`.
pub open spec fn cr_with_wave(cr: u32, c: Channel, wbits: u32) -> u32 {
    spec_set_field(spec_set_field(cr, wave_lo(c), 2, wbits), mamp_lo(c), 4, wbits)
}

/// Law: `enable` and `disable` are idempotent. A second call leaves the
/// control register exactly as the first left it — the enable bit stays
/// where it was put, with no toggle-off side effect.
pub proof fn lemma_enable_idempotent(cr: u32, c: Channel)
    ensures
        cr_with_enable(cr_with_enable(cr, c, true), c, true) == cr_with_enable(cr, c, true),
        cr_with_enable(cr_with_enable(cr, c, false), c, false) == cr_with_enable(cr, c, false),
        fld(cr_with_enable(cr, c, true), en_lo(c), 1) == 1,
        fld(cr_with_enable(cr, c, false), en_lo(c), 1) == 0,
{
    lemma_small_shift_values();
    assert(en_lo(c) == 0 || en_lo(c) == 16);
    lemma_set_field_idempotent(cr, en_lo(c), 1, 1);
    lemma_set_field_idempotent(cr, en_lo(c), 1, 0);
    lemma_set_field_reads_back(cr, en_lo(c), 1, 1);
    lemma_set_field_reads_back(cr, en_lo(c), 1, 0);
}

/// Law: selecting a trigger is one logical operation — afterwards the
/// trigger-enable bit is set and the source field holds the trigger's
/// encoding, and the channel's enable bit is exactly what it was, so the
/// write pair never glitches the output on or off.
pub proof fn lemma_trigger_programs_both_fields(cr: u32, c: Channel, t: Trigger)
    ensures
        fld(cr_with_trigger(cr, c, t), tsel_lo(c), 3) == t.bits_spec(),
        fld(cr_with_trigger(cr, c, t), ten_lo(c), 1) == 1,
        fld(cr_with_trigger(cr, c, t), en_lo(c), 1) == fld(cr, en_lo(c), 1),
{
    lemma_small_shift_values();
    assert(en_lo(c) == 0 || en_lo(c) == 16);
    assert(ten_lo(c) == 1 || ten_lo(c) == 17);
    assert(tsel_lo(c) == 2 || tsel_lo(c) == 18);
    assert(t.bits_spec() < 8);
    let inner = spec_set_field(cr, ten_lo(c), 1, 1);
    lemma_set_field_reads_back(inner, tsel_lo(c), 3, t.bits_spec() as u32);
    lemma_set_field_frames(inner, tsel_lo(c), 3, t.bits_spec() as u32, ten_lo(c), 1);
    lemma_set_field_reads_back(cr, ten_lo(c), 1, 1);
    lemma_set_field_frames(inner, tsel_lo(c), 3, t.bits_spec() as u32, en_lo(c), 1);
    lemma_set_field_frames(cr, ten_lo(c), 1, 1, en_lo(c), 1);
}

/// Law: `enable` and `disable` touch nothing but the channel's enable
/// bit — both channels' trigger, wave and amplitude fields, and the
/// other channel's enable bit, read back unchanged.
pub proof fn lemma_enable_isolated(cr: u32, c: Channel, on: bool, c2: Channel)
    ensures
        fld(cr_with_enable(cr, c, on), ten_lo(c2), 1) == fld(cr, ten_lo(c2), 1),
        fld(cr_with_enable(cr, c, on), tsel_lo(c2), 3) == fld(cr, tsel_lo(c2), 3),
        fld(cr_with_enable(cr, c, on), wave_lo(c2), 2) == fld(cr, wave_lo(c2), 2),
        fld(cr_with_enable(cr, c, on), mamp_lo(c2), 4) == fld(cr, mamp_lo(c2), 4),
        c2 != c ==> fld(cr_with_enable(cr, c, on), en_lo(c2), 1) == fld(cr, en_lo(c2), 1),
{
    lemma_small_shift_values();
    assert(en_lo(c) == 0 || en_lo(c) == 16);
    assert(ten_lo(c2) == 1 || ten_lo(c2) == 17);
    assert(tsel_lo(c2) == 2 || tsel_lo(c2) == 18);
    assert(wave_lo(c2) == 6 || wave_lo(c2) == 22);
    assert(mamp_lo(c2) == 8 || mamp_lo(c2) == 24);
    let val: u32 = if on {
        1
    } else {
        0
    };
    lemma_set_field_frames(cr, en_lo(c), 1, val, ten_lo(c2), 1);
    lemma_set_field_frames(cr, en_lo(c), 1, val, tsel_lo(c2), 3);
    lemma_set_field_frames(cr, en_lo(c), 1, val, wave_lo(c2), 2);
    lemma_set_field_frames(cr, en_lo(c), 1, val, mamp_lo(c2), 4);
    if c2 != c {
        assert((en_lo(c) == 0 && en_lo(c2) == 16) || (en_lo(c) == 16 && en_lo(c2) == 0));
        lemma_set_field_frames(cr, en_lo(c), 1, val, en_lo(c2), 1);
    }
}

/// Digital-to-analog converter driver. It owns its register block
/// exclusively: construction consumes the block, so building a second
/// driver over the same block is rejected at build time, and no other
/// code can reach the registers while the driver lives.
pub struct Dac<R: DacRegBlock> {
    pub regs: R,
    pub channel: Channel,
    pub bits: DacBits,
    pub vref_mv: u32,
}

impl<R: DacRegBlock> Dac<R> {
    /// Create a new driver instance: enables and resets the converter's
    /// clock domain, then takes exclusive ownership of the register block
    /// along with the channel, the precision mode, and the reference
    /// voltage in millivolts.
    pub fn new(regs: R, channel: Channel, bits: DacBits, vref_mv: u32, rcc: &mut Rcc) -> (r: Self)
        requires
            vref_mv > 0,
        ensures
            r.regs == regs,
            r.channel == channel,
            r.bits == bits,
            r.vref_mv == vref_mv,
            final(rcc).apb1enr == spec_set_field(old(rcc).apb1enr, RCC_DAC_BIT, 1, 1),
            final(rcc).apb1rstr == spec_set_field(old(rcc).apb1rstr, RCC_DAC_BIT, 1, 0),
    {
        rcc_en_reset_dac(rcc);
        Dac { regs, channel, bits, vref_mv }
    }

    /// Set the channel's enable bit in the control register. Every other
    /// control field and every data register keeps its value; enabling an
    /// already-enabled channel rewrites the same bit and changes nothing.
    pub fn enable(&mut self)
        ensures
            final(self).channel == old(self).channel,
            final(self).bits == old(self).bits,
            final(self).vref_mv == old(self).vref_mv,
            final(self).regs.cr() == cr_with_enable(
                old(self).regs.cr(),
                old(self).channel,
                true,
            ),
            fld(final(self).regs.cr(), en_lo(old(self).channel), 1) == 1,
            forall|c: Channel, b: DacBits|
                final(self).regs.data(c, b) == old(self).regs.data(c, b),
    {
        proof {
            lemma_small_shift_values();
            assert(en_lo(self.channel) == 0 || en_lo(self.channel) == 16);
            lemma_set_field_reads_back(self.regs.cr(), en_lo(self.channel), 1, 1);
        }
        let cr = self.regs.read_cr();
        let lo = match self.channel {
            Channel::One => 0u32,
            Channel::Two => 16u32,
        };
        let v = set_field(cr, lo, 1, 1);
        self.regs.write_cr(v);
    }

    /// Clear the channel's enable bit in the control register. Every
    /// other control field and every data register keeps its value;
    /// disabling an already-disabled channel changes nothing.
    pub fn disable(&mut self)
        ensures
            final(self).channel == old(self).channel,
            final(self).bits == old(self).bits,
            final(self).vref_mv == old(self).vref_mv,
            final(self).regs.cr() == cr_with_enable(
                old(self).regs.cr(),
                old(self).channel,
                false,
            ),
            fld(final(self).regs.cr(), en_lo(old(self).channel), 1) == 0,
            forall|c: Channel, b: DacBits|
                final(self).regs.data(c, b) == old(self).regs.data(c, b),
    {
        proof {
            lemma_small_shift_values();
            assert(en_lo(self.channel) == 0 || en_lo(self.channel) == 16);
            lemma_set_field_reads_back(self.regs.cr(), en_lo(self.channel), 1, 0);
        }
        let cr = self.regs.read_cr();
        let lo = match self.channel {
            Channel::One => 0u32,
            Channel::Two => 16u32,
        };
        let v = set_field(cr, lo, 1, 0);
        self.regs.write_cr(v);
    }

    /// Set the output value as a raw integer code: a pass-through write of
    /// `val` into the data-holding register selected by (channel,
    /// precision). No range check is made — a value wider than the
    /// register's field is silently truncated by the hardware.
    pub fn set_value(&mut self, val: u32)
        ensures
            final(self).channel == old(self).channel,
            final(self).bits == old(self).bits,
            final(self).vref_mv == old(self).vref_mv,
            final(self).regs.cr() == old(self).regs.cr(),
            forall|c2: Channel, b2: DacBits|
                final(self).regs.data(c2, b2) == if b2 == old(self).bits && (c2 == old(
                    self,
                ).channel || R::shares_channels()) {
                    val & dhr_mask(old(self).bits)
                } else {
                    old(self).regs.data(c2, b2)
                },
    {
        let c = self.channel;
        let b = self.bits;
        self.regs.write_data(c, b, val);
    }

    /// Set the output as a voltage, in millivolts. The voltage is
    /// converted to the raw code `voltage_code` names — scaled against the
    /// reference voltage and rounded to nearest, a tie rounding up — and
    /// written through `set_value`. The code is not clamped: a voltage
    /// above the reference yields an out-of-range code that the hardware
    /// truncates at the field width.
    pub fn set_voltage_mv(&mut self, mv: u32)
        requires
            old(self).vref_mv > 0,
        ensures
            final(self).channel == old(self).channel,
            final(self).bits == old(self).bits,
            final(self).vref_mv == old(self).vref_mv,
            final(self).regs.cr() == old(self).regs.cr(),
            forall|c2: Channel, b2: DacBits|
                final(self).regs.data(c2, b2) == if b2 == old(self).bits && (c2 == old(
                    self,
                ).channel || R::shares_channels()) {
                    (voltage_code(mv, old(self).vref_mv, old(self).bits) as u32) & dhr_mask(
                        old(self).bits,
                    )
                } else {
                    old(self).regs.data(c2, b2)
                },
    {
        let maxc: u64 = match self.bits {
            DacBits::EightR => 255,
            DacBits::TwelveL => 4095,
            DacBits::TwelveR => 4095,
        };
        let mv64: u64 = mv as u64;
        let vref64: u64 = self.vref_mv as u64;
        assert(2 * mv64 * maxc + vref64 < 0xFFFF_FFFF_FFFF_FFFF) by (nonlinear_arith)
            requires
                mv64 < 0x1_0000_0000,
                vref64 < 0x1_0000_0000,
                maxc <= 4095,
        ;
        let code: u64 = (2 * mv64 * maxc + vref64) / (2 * vref64);
        self.set_value(code as u32);
    }
}

impl<R: DacRegBlock + TriggerCapable> Dac<R> {
    /// Select and activate a trigger for the channel: sets the
    /// trigger-enable bit, then programs the 3-bit source field, as two
    /// back-to-back control-register writes forming one logical
    /// operation. Data registers are untouched.
    pub fn set_trigger(&mut self, trigger: Trigger)
        ensures
            final(self).channel == old(self).channel,
            final(self).bits == old(self).bits,
            final(self).vref_mv == old(self).vref_mv,
            final(self).regs.cr() == cr_with_trigger(
                old(self).regs.cr(),
                old(self).channel,
                trigger,
            ),
            forall|c: Channel, b: DacBits|
                final(self).regs.data(c, b) == old(self).regs.data(c, b),
    {
        proof {
            lemma_small_shift_values();
        }
        let tb = trigger.bits();
        let (ten, tsel) = match self.channel {
            Channel::One => (1u32, 2u32),
            Channel::Two => (17u32, 18u32),
        };
        let cr0 = self.regs.read_cr();
        let v1 = set_field(cr0, ten, 1, 1);
        self.regs.write_cr(v1);
        let cr1 = self.regs.read_cr();
        let v2 = set_field(cr1, tsel, 3, tb as u32);
        self.regs.write_cr(v2);
    }

    /// Independent trigger with single LFSR (noise) generation: programs
    /// the wave and amplitude fields, activates the trigger, then writes
    /// `data` — the LFSR seed mask, not validated against the datasheet's
    /// legal range — through `set_value`.
    pub fn trigger_lfsr(&mut self, trigger: Trigger, data: u32)
        ensures
            final(self).channel == old(self).channel,
            final(self).bits == old(self).bits,
            final(self).vref_mv == old(self).vref_mv,
            final(self).regs.cr() == cr_with_trigger(
                cr_with_wave(old(self).regs.cr(), old(self).channel, 1),
                old(self).channel,
                trigger,
            ),
            forall|c2: Channel, b2: DacBits|
                final(self).regs.data(c2, b2) == if b2 == old(self).bits && (c2 == old(
                    self,
                ).channel || R::shares_channels()) {
                    data & dhr_mask(old(self).bits)
                } else {
                    old(self).regs.data(c2, b2)
                },
    {
        self.set_wave(1);
        self.set_trigger(trigger);
        self.set_value(data);
    }

    /// Independent trigger with single triangle generation: programs the
    /// wave and amplitude fields, activates the trigger, then writes
    /// `data` — the triangle amplitude mask, not validated against the
    /// datasheet's legal range — through `set_value`.
    pub fn trigger_triangle(&mut self, trigger: Trigger, data: u32)
        ensures
            final(self).channel == old(self).channel,
            final(self).bits == old(self).bits,
            final(self).vref_mv == old(self).vref_mv,
            final(self).regs.cr() == cr_with_trigger(
                cr_with_wave(old(self).regs.cr(), old(self).channel, 2),
                old(self).channel,
                trigger,
            ),
            forall|c2: Channel, b2: DacBits|
                final(self).regs.data(c2, b2) == if b2 == old(self).bits && (c2 == old(
                    self,
                ).channel || R::shares_channels()) {
                    data & dhr_mask(old(self).bits)
                } else {
                    old(self).regs.data(c2, b2)
                },
    {
        self.set_wave(2);
        self.set_trigger(trigger);
        self.set_value(data);
    }

    /// Program the wave-generation field and the amplitude field of the
    /// channel with `wbits`, by two read-modify-writes of the control
    /// register.
    fn set_wave(&mut self, wbits: u32)
        requires
            wbits < 4,
        ensures
            final(self).channel == old(self).channel,
            final(self).bits == old(self).bits,
            final(self).vref_mv == old(self).vref_mv,
            final(self).regs.cr() == cr_with_wave(
                old(self).regs.cr(),
                old(self).channel,
                wbits,
            ),
            forall|c: Channel, b: DacBits|
                final(self).regs.data(c, b) == old(self).regs.data(c, b),
    {
        proof {
            lemma_small_shift_values();
        }
        let (wave, mamp) = match self.channel {
            Channel::One => (6u32, 8u32),
            Channel::Two => (22u32, 24u32),
        };
        let cr0 = self.regs.read_cr();
        let v1 = set_field(cr0, wave, 2, wbits);
        self.regs.write_cr(v1);
        let cr1 = self.regs.read_cr();
        let v2 = set_field(cr1, mamp, 4, wbits);
        self.regs.write_cr(v2);
    }
}

} // verus!
