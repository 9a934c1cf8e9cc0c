//! What the ADC interrupt handler decides from the status and data
//! registers: which diagnostics to emit, which flags to acknowledge, how to
//! halt the converter, and which sample to publish.
use vstd::prelude::*;
use crate::regs::{Field, lemma_put_get, lemma_put_other, read_field, write_field};

verus! {

/// A condition reported by the interrupt handler, one line each.
#[derive(PartialEq, Eq, Structural, Clone, Copy, Debug)]
pub enum Diagnostic {
    /// OVR: a conversion finished before the previous result was read.
    Overrun,
    /// EOC, with the data register as read.
    EndOfConversion(u32),
    /// JEOC: an injected conversion finished.
    InjectedEndOfConversion,
    /// AWD: the analog watchdog fired.
    AnalogWatchdog,
}

impl Diagnostic {
    pub open spec fn spec_label(self) -> Seq<char> {
        match self {
            Diagnostic::Overrun => "ADC OVR"@,
            Diagnostic::EndOfConversion(_) => "ADC EOC"@,
            Diagnostic::InjectedEndOfConversion => "ADC JEOC"@,
            Diagnostic::AnalogWatchdog => "ADC AWD"@,
        }
    }

    /// The text that opens the diagnostic line; an end-of-conversion line
    /// goes on with the data value in decimal.
    pub fn label(&self) -> (r: &'static str)
        ensures
            r@ == self.spec_label(),
    {
        match self {
            Diagnostic::Overrun => "ADC OVR",
            Diagnostic::EndOfConversion(_) => "ADC EOC",
            Diagnostic::InjectedEndOfConversion => "ADC JEOC",
            Diagnostic::AnalogWatchdog => "ADC AWD",
        }
    }
}

/// What the interrupt handler does, as values for the hardware.
#[derive(Debug)]
pub struct IsrOutcome {
    /// Lines to emit, in order.
    pub diagnostics: Vec<Diagnostic>,
    /// The word written to SR; its zero bits clear those flags, its one bits
    /// leave the others as they are.
    pub sr_write: u32,
    /// CR2 after ADON is cleared (the first write).
    pub cr2_off: u32,
    /// CR2 after SWSTART is cleared as well (the second write).
    pub cr2_idle: u32,
    /// The sample to publish: the low 16 bits of the data register.
    pub sample: u16,
}

/// The SR word that clears EOC and STRT and keeps every other flag.
pub open spec fn spec_sr_ack() -> u32 {
    !(Field::Eoc.spec_mask() | Field::Strt.spec_mask())
}

/// The diagnostics for status `sr` and data `dr`: OVR, EOC, JEOC, AWD, each
/// when its flag is set, in that order.
pub open spec fn spec_diagnostics(sr: u32, dr: u32) -> Seq<Diagnostic> {
    let ovr = if Field::Ovr.get(sr) == 1 { seq![Diagnostic::Overrun] } else { Seq::empty() };
    let eoc = if Field::Eoc.get(sr) == 1 { seq![Diagnostic::EndOfConversion(dr)] } else { Seq::empty() };
    let jeoc = if Field::Jeoc.get(sr) == 1 { seq![Diagnostic::InjectedEndOfConversion] } else { Seq::empty() };
    let awd = if Field::Awd.get(sr) == 1 { seq![Diagnostic::AnalogWatchdog] } else { Seq::empty() };
    ovr + eoc + jeoc + awd
}

/// CR2 with the converter off and no software start pending.
pub open spec fn spec_cr2_idle(cr2: u32) -> u32 {
    Field::Swstart.put(Field::Adon.put(cr2, 0), 0)
}

/// The sample carried by data register value `dr`.
pub open spec fn spec_sample(dr: u32) -> u16 {
    Field::Data.get(dr) as u16
}

/// The interrupt handler's decisions for status `sr`, control `cr2` and data
/// `dr`, as read on entry. The converter is halted after one sample: ADON
/// and SWSTART are cleared even though continuous mode stays selected.
pub fn service_interrupt(sr: u32, cr2: u32, dr: u32) -> (r: IsrOutcome)
    ensures
        r.diagnostics@ == spec_diagnostics(sr, dr),
        r.sr_write == spec_sr_ack(),
        r.cr2_off == Field::Adon.put(cr2, 0),
        r.cr2_idle == spec_cr2_idle(cr2),
        r.sample == spec_sample(dr),
        r.sample as u32 == dr & 0xffff,
{
    let mut diagnostics: Vec<Diagnostic> = Vec::new();
    if read_field(sr, Field::Ovr) == 1 {
        diagnostics.push(Diagnostic::Overrun);
    }
    if read_field(sr, Field::Eoc) == 1 {
        diagnostics.push(Diagnostic::EndOfConversion(dr));
    }
    if read_field(sr, Field::Jeoc) == 1 {
        diagnostics.push(Diagnostic::InjectedEndOfConversion);
    }
    if read_field(sr, Field::Awd) == 1 {
        diagnostics.push(Diagnostic::AnalogWatchdog);
    }
    assert(diagnostics@ =~= spec_diagnostics(sr, dr));
    let sr_write = !(Field::Eoc.mask() | Field::Strt.mask());
    let cr2_off = write_field(cr2, Field::Adon, 0);
    let cr2_idle = write_field(cr2_off, Field::Swstart, 0);
    let data = read_field(dr, Field::Data);
    proof {
        assert((dr & 0xffff) >> 0 == dr & 0xffff) by (bit_vector);
    }
    IsrOutcome { diagnostics, sr_write, cr2_off, cr2_idle, sample: data as u16 }
}

/// After the handler's writes the converter is off, no software start is
/// pending, and EOC and STRT are clear; the other status flags and control
/// fields are as they were.
pub proof fn lemma_handler_effect(sr: u32, cr2: u32)
    ensures
        Field::Adon.get(spec_cr2_idle(cr2)) == 0,
        Field::Swstart.get(spec_cr2_idle(cr2)) == 0,
        Field::Cont.get(spec_cr2_idle(cr2)) == Field::Cont.get(cr2),
        Field::Eocs.get(spec_cr2_idle(cr2)) == Field::Eocs.get(cr2),
        Field::Eoc.get(sr & spec_sr_ack()) == 0,
        Field::Strt.get(sr & spec_sr_ack()) == 0,
        Field::Ovr.get(sr & spec_sr_ack()) == Field::Ovr.get(sr),
        Field::Jeoc.get(sr & spec_sr_ack()) == Field::Jeoc.get(sr),
        Field::Awd.get(sr & spec_sr_ack()) == Field::Awd.get(sr),
{
    let c1 = Field::Adon.put(cr2, 0);
    lemma_put_get(Field::Adon, cr2, 0);
    lemma_put_other(Field::Swstart, Field::Adon, c1, 0);
    lemma_put_get(Field::Swstart, c1, 0);
    lemma_put_other(Field::Adon, Field::Cont, cr2, 0);
    lemma_put_other(Field::Swstart, Field::Cont, c1, 0);
    lemma_put_other(Field::Adon, Field::Eocs, cr2, 0);
    lemma_put_other(Field::Swstart, Field::Eocs, c1, 0);
    assert(
        ((sr & !(2u32 | 0x10u32)) & 2u32) >> 1u32 == 0u32
        && ((sr & !(2u32 | 0x10u32)) & 0x10u32) >> 4u32 == 0u32
        && ((sr & !(2u32 | 0x10u32)) & 0x20u32) >> 5u32 == (sr & 0x20u32) >> 5u32
        && ((sr & !(2u32 | 0x10u32)) & 4u32) >> 2u32 == (sr & 4u32) >> 2u32
        && ((sr & !(2u32 | 0x10u32)) & 1u32) >> 0u32 == (sr & 1u32) >> 0u32
    ) by (bit_vector);
}

/// A data register that holds a 12-bit code yields a sample in [0, 4095].
pub proof fn lemma_sample_range(dr: u32)
    requires
        dr <= 4095,
    ensures
        spec_sample(dr) <= 4095,
        spec_sample(dr) as u32 == dr,
{
    assert((dr & 0xffff) >> 0 == dr) by (bit_vector)
        requires
            dr <= 4095,
    ;
}

} // verus!
