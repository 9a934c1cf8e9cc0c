//! Register model: the memory-mapped registers that the acquisition path
//! touches, their bit fields, and read-modify-write of one field.
use vstd::prelude::*;

verus! {

/// A 32-bit hardware register that the acquisition path reads or writes.
#[derive(PartialEq, Eq, Structural, Clone, Copy, Debug)]
pub enum Register {
    /// RCC.APB2ENR, the APB2 peripheral clock gates.
    RccApb2enr,
    /// ADC_COMMON.CCR, settings shared by all converters.
    AdcCommonCcr,
    /// ADC1.SR, status flags.
    AdcSr,
    /// ADC1.CR1, interrupt enables and scan settings.
    AdcCr1,
    /// ADC1.CR2, power, mode and conversion start.
    AdcCr2,
    /// ADC1.SQR1, regular sequence length.
    AdcSqr1,
    /// ADC1.SQR3, first regular conversions of the sequence.
    AdcSqr3,
    /// ADC1.DR, regular data.
    AdcDr,
}

/// A named bit field of one of the registers above.
#[derive(PartialEq, Eq, Structural, Clone, Copy, Debug)]
pub enum Field {
    /// APB2ENR bit 8: ADC1 clock gate.
    Adc1En,
    /// CCR bits 16..=17: ADC clock prescaler (PCLK2 / (2 * (n + 1))).
    AdcPre,
    /// SR bit 0: analog watchdog event.
    Awd,
    /// SR bit 1: end of regular conversion.
    Eoc,
    /// SR bit 2: end of injected conversion.
    Jeoc,
    /// SR bit 3: injected conversion started.
    Jstrt,
    /// SR bit 4: regular conversion started.
    Strt,
    /// SR bit 5: overrun.
    Ovr,
    /// CR1 bit 5: interrupt on end of conversion.
    Eocie,
    /// CR1 bit 6: interrupt on analog watchdog.
    Awdie,
    /// CR1 bit 7: interrupt on end of injected conversion.
    Jeocie,
    /// CR1 bit 26: interrupt on overrun.
    Ovrie,
    /// CR2 bit 0: converter on.
    Adon,
    /// CR2 bit 1: continuous conversion.
    Cont,
    /// CR2 bit 10: end-of-conversion selection.
    Eocs,
    /// CR2 bit 30: software start of a regular conversion.
    Swstart,
    /// SQR1 bits 20..=23: regular sequence length minus one.
    SeqLen,
    /// SQR3 bits 0..=4: channel of the first regular conversion.
    Sq1,
    /// DR bits 0..=15: regular conversion result.
    Data,
}

/// The value of a field: the bits under `mask`, shifted down by `shift`.
pub open spec fn field_of(bits: u32, mask: u32, shift: u32) -> u32 {
    (bits & mask) >> shift
}

/// `bits` with the field under `mask` replaced by `v`, all other bits kept.
pub open spec fn with_field(bits: u32, mask: u32, shift: u32, v: u32) -> u32 {
    (bits & !mask) | ((v << shift) & mask)
}

impl Field {
    pub open spec fn spec_register(self) -> Register {
        match self {
            Field::Adc1En => Register::RccApb2enr,
            Field::AdcPre => Register::AdcCommonCcr,
            Field::Awd | Field::Eoc | Field::Jeoc | Field::Jstrt | Field::Strt
            | Field::Ovr => Register::AdcSr,
            Field::Eocie | Field::Awdie | Field::Jeocie | Field::Ovrie => Register::AdcCr1,
            Field::Adon | Field::Cont | Field::Eocs | Field::Swstart => Register::AdcCr2,
            Field::SeqLen => Register::AdcSqr1,
            Field::Sq1 => Register::AdcSqr3,
            Field::Data => Register::AdcDr,
        }
    }

    pub open spec fn spec_shift(self) -> u32 {
        match self {
            Field::Adc1En => 8,
            Field::AdcPre => 16,
            Field::Awd => 0,
            Field::Eoc => 1,
            Field::Jeoc => 2,
            Field::Jstrt => 3,
            Field::Strt => 4,
            Field::Ovr => 5,
            Field::Eocie => 5,
            Field::Awdie => 6,
            Field::Jeocie => 7,
            Field::Ovrie => 26,
            Field::Adon => 0,
            Field::Cont => 1,
            Field::Eocs => 10,
            Field::Swstart => 30,
            Field::SeqLen => 20,
            Field::Sq1 => 0,
            Field::Data => 0,
        }
    }

    /// The largest value the field holds.
    pub open spec fn spec_max(self) -> u32 {
        match self {
            Field::AdcPre => 3,
            Field::SeqLen => 15,
            Field::Sq1 => 31,
            Field::Data => 0xffff,
            _ => 1,
        }
    }

    /// The field's bits in place within its register.
    pub open spec fn spec_mask(self) -> u32 {
        match self {
            Field::Adc1En => 0x100,
            Field::AdcPre => 0x3_0000,
            Field::Awd => 0x1,
            Field::Eoc => 0x2,
            Field::Jeoc => 0x4,
            Field::Jstrt => 0x8,
            Field::Strt => 0x10,
            Field::Ovr => 0x20,
            Field::Eocie => 0x20,
            Field::Awdie => 0x40,
            Field::Jeocie => 0x80,
            Field::Ovrie => 0x400_0000,
            Field::Adon => 0x1,
            Field::Cont => 0x2,
            Field::Eocs => 0x400,
            Field::Swstart => 0x4000_0000,
            Field::SeqLen => 0xf0_0000,
            Field::Sq1 => 0x1f,
            Field::Data => 0xffff,
        }
    }

    /// The field's value in a register that holds `bits`.
    pub open spec fn get(self, bits: u32) -> u32 {
        field_of(bits, self.spec_mask(), self.spec_shift())
    }

    /// `bits` with this field set to `v`.
    pub open spec fn put(self, bits: u32, v: u32) -> u32 {
        with_field(bits, self.spec_mask(), self.spec_shift(), v)
    }

    pub fn register(&self) -> (r: Register)
        ensures
            r == self.spec_register(),
    {
        match self {
            Field::Adc1En => Register::RccApb2enr,
            Field::AdcPre => Register::AdcCommonCcr,
            Field::Awd | Field::Eoc | Field::Jeoc | Field::Jstrt | Field::Strt
            | Field::Ovr => Register::AdcSr,
            Field::Eocie | Field::Awdie | Field::Jeocie | Field::Ovrie => Register::AdcCr1,
            Field::Adon | Field::Cont | Field::Eocs | Field::Swstart => Register::AdcCr2,
            Field::SeqLen => Register::AdcSqr1,
            Field::Sq1 => Register::AdcSqr3,
            Field::Data => Register::AdcDr,
        }
    }

    pub fn shift(&self) -> (r: u32)
        ensures
            r == self.spec_shift(),
    {
        match self {
            Field::Adc1En => 8,
            Field::AdcPre => 16,
            Field::Awd => 0,
            Field::Eoc => 1,
            Field::Jeoc => 2,
            Field::Jstrt => 3,
            Field::Strt => 4,
            Field::Ovr => 5,
            Field::Eocie => 5,
            Field::Awdie => 6,
            Field::Jeocie => 7,
            Field::Ovrie => 26,
            Field::Adon => 0,
            Field::Cont => 1,
            Field::Eocs => 10,
            Field::Swstart => 30,
            Field::SeqLen => 20,
            Field::Sq1 => 0,
            Field::Data => 0,
        }
    }

    pub fn max(&self) -> (r: u32)
        ensures
            r == self.spec_max(),
    {
        match self {
            Field::AdcPre => 3,
            Field::SeqLen => 15,
            Field::Sq1 => 31,
            Field::Data => 0xffff,
            _ => 1,
        }
    }

    pub fn mask(&self) -> (r: u32)
        ensures
            r == self.spec_mask(),
    {
        match self {
            Field::Adc1En => 0x100,
            Field::AdcPre => 0x3_0000,
            Field::Awd => 0x1,
            Field::Eoc => 0x2,
            Field::Jeoc => 0x4,
            Field::Jstrt => 0x8,
            Field::Strt => 0x10,
            Field::Ovr => 0x20,
            Field::Eocie => 0x20,
            Field::Awdie => 0x40,
            Field::Jeocie => 0x80,
            Field::Ovrie => 0x400_0000,
            Field::Adon => 0x1,
            Field::Cont => 0x2,
            Field::Eocs => 0x400,
            Field::Swstart => 0x4000_0000,
            Field::SeqLen => 0xf0_0000,
            Field::Sq1 => 0x1f,
            Field::Data => 0xffff,
        }
    }
}

/// Each field is a run of ones: its maximum shifted into place is its mask.
pub proof fn lemma_field_shape(f: Field)
    ensures
        f.spec_shift() < 32,
        f.spec_max() == f.spec_mask() >> f.spec_shift(),
        f.spec_max() << f.spec_shift() == f.spec_mask(),
        f.spec_max() & (f.spec_max() + 1) as u32 == 0,
{
    assert(
        (0x100u32 >> 8u32) == 1u32 && (0x3_0000u32 >> 16u32) == 3u32
        && (0x2u32 >> 1u32) == 1u32 && (0x4u32 >> 2u32) == 1u32 && (0x8u32 >> 3u32) == 1u32
        && (0x10u32 >> 4u32) == 1u32 && (0x20u32 >> 5u32) == 1u32 && (0x40u32 >> 6u32) == 1u32
        && (0x80u32 >> 7u32) == 1u32 && (0x400_0000u32 >> 26u32) == 1u32
        && (0x400u32 >> 10u32) == 1u32 && (0x4000_0000u32 >> 30u32) == 1u32
        && (0xf0_0000u32 >> 20u32) == 15u32 && (0x1fu32 >> 0u32) == 31u32
        && (0xffffu32 >> 0u32) == 0xffffu32 && (0x1u32 >> 0u32) == 1u32
        && (1u32 << 8u32) == 0x100u32 && (3u32 << 16u32) == 0x3_0000u32
        && (1u32 << 0u32) == 1u32 && (1u32 << 1u32) == 2u32 && (1u32 << 2u32) == 4u32
        && (1u32 << 3u32) == 8u32 && (1u32 << 4u32) == 0x10u32 && (1u32 << 5u32) == 0x20u32
        && (1u32 << 6u32) == 0x40u32 && (1u32 << 7u32) == 0x80u32
        && (1u32 << 26u32) == 0x400_0000u32 && (1u32 << 10u32) == 0x400u32
        && (1u32 << 30u32) == 0x4000_0000u32 && (15u32 << 20u32) == 0xf0_0000u32
        && (31u32 << 0u32) == 0x1fu32 && (0xffffu32 << 0u32) == 0xffffu32
        && (1u32 & 2u32) == 0u32 && (3u32 & 4u32) == 0u32 && (15u32 & 16u32) == 0u32
        && (31u32 & 32u32) == 0u32 && (0xffffu32 & 0x1_0000u32) == 0u32
    ) by (bit_vector);
}

/// Writing a field and reading it back gives the value written.
pub proof fn lemma_put_get(f: Field, bits: u32, v: u32)
    requires
        v <= f.spec_max(),
    ensures
        f.get(f.put(bits, v)) == v,
        f.put(bits, v) & !f.spec_mask() == bits & !f.spec_mask(),
{
    lemma_field_shape(f);
    let mask = f.spec_mask();
    let shift = f.spec_shift();
    assert(((((bits & !mask) | ((v << shift) & mask)) & mask) >> shift) == v
        && ((bits & !mask) | ((v << shift) & mask)) & !mask == bits & !mask) by (bit_vector)
        requires
            shift < 32,
            (mask >> shift) << shift == mask,
            (mask >> shift) & ((mask >> shift) + 1) as u32 == 0,
            v <= mask >> shift,
    ;
}

/// Two distinct fields of one register share no bit.
pub proof fn lemma_fields_disjoint(f: Field, g: Field)
    requires
        f.spec_register() == g.spec_register(),
        f != g,
    ensures
        f.spec_mask() & g.spec_mask() == 0,
{
    assert(
        (0x1u32 & 0x2u32) == 0u32 && (0x1u32 & 0x4u32) == 0u32 && (0x1u32 & 0x8u32) == 0u32
        && (0x1u32 & 0x10u32) == 0u32 && (0x1u32 & 0x20u32) == 0u32 && (0x2u32 & 0x1u32) == 0u32
        && (0x2u32 & 0x4u32) == 0u32 && (0x2u32 & 0x8u32) == 0u32 && (0x2u32 & 0x10u32) == 0u32
        && (0x2u32 & 0x20u32) == 0u32 && (0x4u32 & 0x1u32) == 0u32 && (0x4u32 & 0x2u32) == 0u32
        && (0x4u32 & 0x8u32) == 0u32 && (0x4u32 & 0x10u32) == 0u32 && (0x4u32 & 0x20u32) == 0u32
        && (0x8u32 & 0x1u32) == 0u32 && (0x8u32 & 0x2u32) == 0u32 && (0x8u32 & 0x4u32) == 0u32
        && (0x8u32 & 0x10u32) == 0u32 && (0x8u32 & 0x20u32) == 0u32 && (0x10u32 & 0x1u32) == 0u32
        && (0x10u32 & 0x2u32) == 0u32 && (0x10u32 & 0x4u32) == 0u32 && (0x10u32 & 0x8u32) == 0u32
        && (0x10u32 & 0x20u32) == 0u32 && (0x20u32 & 0x1u32) == 0u32 && (0x20u32 & 0x2u32) == 0u32
        && (0x20u32 & 0x4u32) == 0u32 && (0x20u32 & 0x8u32) == 0u32 && (0x20u32 & 0x10u32) == 0u32
        && (0x20u32 & 0x40u32) == 0u32 && (0x20u32 & 0x80u32) == 0u32 && (0x20u32 & 0x4000000u32) == 0u32
        && (0x40u32 & 0x20u32) == 0u32 && (0x40u32 & 0x80u32) == 0u32 && (0x40u32 & 0x4000000u32) == 0u32
        && (0x80u32 & 0x20u32) == 0u32 && (0x80u32 & 0x40u32) == 0u32 && (0x80u32 & 0x4000000u32) == 0u32
        && (0x4000000u32 & 0x20u32) == 0u32 && (0x4000000u32 & 0x40u32) == 0u32 && (0x4000000u32 & 0x80u32) == 0u32
        && (0x1u32 & 0x400u32) == 0u32 && (0x1u32 & 0x40000000u32) == 0u32 && (0x2u32 & 0x400u32) == 0u32
        && (0x2u32 & 0x40000000u32) == 0u32 && (0x400u32 & 0x1u32) == 0u32 && (0x400u32 & 0x2u32) == 0u32
        && (0x400u32 & 0x40000000u32) == 0u32 && (0x40000000u32 & 0x1u32) == 0u32 && (0x40000000u32 & 0x2u32) == 0u32
        && (0x40000000u32 & 0x400u32) == 0u32
    ) by (bit_vector);
}

/// Writing one field leaves every other field of the register as it was.
pub proof fn lemma_put_other(f: Field, g: Field, bits: u32, v: u32)
    requires
        f.spec_register() == g.spec_register(),
        f != g,
    ensures
        g.get(f.put(bits, v)) == g.get(bits),
{
    lemma_fields_disjoint(f, g);
    let m = f.spec_mask();
    let s = f.spec_shift();
    let n = g.spec_mask();
    let t = g.spec_shift();
    assert(((((bits & !m) | ((v << s) & m)) & n) >> t) == ((bits & n) >> t)) by (bit_vector)
        requires
            m & n == 0,
    ;
}

/// The register value `bits` with `field` set to `value`; every other bit is kept.
pub fn write_field(bits: u32, field: Field, value: u32) -> (r: u32)
    requires
        value <= field.spec_max(),
    ensures
        r == field.put(bits, value),
        field.get(r) == value,
        r & !field.spec_mask() == bits & !field.spec_mask(),
        forall|g: Field|
            g.spec_register() == field.spec_register() && g != field ==> #[trigger] g.get(r)
                == g.get(bits),
{
    proof {
        lemma_put_get(field, bits, value);
        assert forall|g: Field|
            g.spec_register() == field.spec_register() && g != field implies #[trigger] g.get(
                field.put(bits, value),
            ) == g.get(bits) by {
            lemma_put_other(field, g, bits, value);
        }
    }
    (bits & !field.mask()) | ((value << field.shift()) & field.mask())
}

/// The value of `field` in a register that holds `bits`.
pub fn read_field(bits: u32, field: Field) -> (r: u32)
    ensures
        r == field.get(bits),
        r <= field.spec_max(),
{
    proof {
        lemma_field_shape(field);
        let m = field.spec_mask();
        let s = field.spec_shift();
        assert((bits & m) >> s <= m >> s) by (bit_vector);
    }
    (bits & field.mask()) >> field.shift()
}

} // verus!
