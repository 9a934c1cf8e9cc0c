//! The register file of the acquisition path and the ADC bring-up
//! sequence: clock gate, prescaler, continuous single-channel conversion
//! with end-of-conversion interrupt, software start, interrupt unmask.
use vstd::prelude::*;
use crate::regs::{Field, Register, lemma_put_get, lemma_put_other, write_field};

verus! {

/// The contents of every register that the acquisition path touches, and
/// whether the ADC interrupt line is unmasked in the interrupt controller.
#[derive(PartialEq, Eq, Structural, Clone, Copy, Debug)]
pub struct RegisterFile {
    pub apb2enr: u32,
    pub ccr: u32,
    pub sr: u32,
    pub cr1: u32,
    pub cr2: u32,
    pub sqr1: u32,
    pub sqr3: u32,
    pub dr: u32,
    pub adc_irq_unmasked: bool,
}

/// One field assignment: `field` takes `value`.
#[derive(PartialEq, Eq, Structural, Clone, Copy, Debug)]
pub struct FieldWrite {
    pub field: Field,
    pub value: u32,
}

/// One effect of bring-up, performed as a single hardware access.
#[derive(PartialEq, Eq, Structural, Clone, Copy, Debug)]
pub enum Step {
    /// Read-modify-write of one field.
    Modify(FieldWrite),
    /// Read-modify-write of two fields of the same register in one write.
    ModifyPair(FieldWrite, FieldWrite),
    /// Unmask the ADC line in the interrupt controller.
    UnmaskAdcInterrupt,
}

impl FieldWrite {
    pub open spec fn wf(self) -> bool {
        self.value <= self.field.spec_max()
    }
}

impl Step {
    pub open spec fn wf(self) -> bool {
        match self {
            Step::Modify(w) => w.wf(),
            Step::ModifyPair(a, b) => a.wf() && b.wf() && a.field.spec_register()
                == b.field.spec_register() && a.field != b.field,
            Step::UnmaskAdcInterrupt => true,
        }
    }

    /// The register this step writes, if it writes one.
    pub open spec fn spec_target(self) -> Option<Register> {
        match self {
            Step::Modify(w) => Some(w.field.spec_register()),
            Step::ModifyPair(a, _) => Some(a.field.spec_register()),
            Step::UnmaskAdcInterrupt => None,
        }
    }

    /// What the target register holds after the step, given what it held.
    pub open spec fn spec_new_bits(self, bits: u32) -> u32 {
        match self {
            Step::Modify(w) => w.field.put(bits, w.value),
            Step::ModifyPair(a, b) => b.field.put(a.field.put(bits, a.value), b.value),
            Step::UnmaskAdcInterrupt => bits,
        }
    }

    pub fn target(&self) -> (r: Option<Register>)
        ensures
            r == self.spec_target(),
    {
        match self {
            Step::Modify(w) => Some(w.field.register()),
            Step::ModifyPair(a, _) => Some(a.field.register()),
            Step::UnmaskAdcInterrupt => None,
        }
    }

    /// The value to write to the target register, given the value read from it.
    pub fn new_bits(&self, bits: u32) -> (r: u32)
        requires
            self.wf(),
        ensures
            r == self.spec_new_bits(bits),
    {
        match self {
            Step::Modify(w) => write_field(bits, w.field, w.value),
            Step::ModifyPair(a, b) => write_field(write_field(bits, a.field, a.value), b.field, b.value),
            Step::UnmaskAdcInterrupt => bits,
        }
    }
}

/// The bring-up writes, in the order the hardware receives them.
pub open spec fn spec_bring_up_sequence() -> Seq<Step> {
    seq![
        Step::Modify(FieldWrite { field: Field::Adc1En, value: 1 }),
        Step::Modify(FieldWrite { field: Field::AdcPre, value: 3 }),
        Step::ModifyPair(
            FieldWrite { field: Field::Cont, value: 1 },
            FieldWrite { field: Field::Adon, value: 1 },
        ),
        Step::Modify(FieldWrite { field: Field::SeqLen, value: 0 }),
        Step::Modify(FieldWrite { field: Field::Sq1, value: 0 }),
        Step::Modify(FieldWrite { field: Field::Eocie, value: 1 }),
        Step::Modify(FieldWrite { field: Field::Eocs, value: 0 }),
        Step::Modify(FieldWrite { field: Field::Swstart, value: 1 }),
        Step::UnmaskAdcInterrupt,
    ]
}

/// The bring-up writes in hardware order: the ADC1 clock gate in
/// RCC.APB2ENR, the prescaler PCLK2 / 8 in ADC_COMMON.CCR, continuous mode
/// and power-on in ADC1.CR2, a regular sequence of one conversion in
/// ADC1.SQR1, channel 0 first in ADC1.SQR3, the end-of-conversion interrupt
/// in ADC1.CR1, end-of-conversion selection and software start in ADC1.CR2,
/// and last the unmask of the ADC interrupt line.
pub fn bring_up_sequence() -> (r: Vec<Step>)
    ensures
        r@ == spec_bring_up_sequence(),
        forall|i: int| 0 <= i < r@.len() ==> (#[trigger] r@[i]).wf(),
{
    let r = vec![
        Step::Modify(FieldWrite { field: Field::Adc1En, value: 1 }),
        Step::Modify(FieldWrite { field: Field::AdcPre, value: 3 }),
        Step::ModifyPair(
            FieldWrite { field: Field::Cont, value: 1 },
            FieldWrite { field: Field::Adon, value: 1 },
        ),
        Step::Modify(FieldWrite { field: Field::SeqLen, value: 0 }),
        Step::Modify(FieldWrite { field: Field::Sq1, value: 0 }),
        Step::Modify(FieldWrite { field: Field::Eocie, value: 1 }),
        Step::Modify(FieldWrite { field: Field::Eocs, value: 0 }),
        Step::Modify(FieldWrite { field: Field::Swstart, value: 1 }),
        Step::UnmaskAdcInterrupt,
    ];
    assert(r@ =~= spec_bring_up_sequence());
    r
}

impl RegisterFile {
    /// Every register at its reset value, the ADC interrupt line masked.
    pub open spec fn spec_reset() -> RegisterFile {
        RegisterFile {
            apb2enr: 0,
            ccr: 0,
            sr: 0,
            cr1: 0,
            cr2: 0,
            sqr1: 0,
            sqr3: 0,
            dr: 0,
            adc_irq_unmasked: false,
        }
    }

    pub fn reset() -> (r: RegisterFile)
        ensures
            r == RegisterFile::spec_reset(),
    {
        RegisterFile {
            apb2enr: 0,
            ccr: 0,
            sr: 0,
            cr1: 0,
            cr2: 0,
            sqr1: 0,
            sqr3: 0,
            dr: 0,
            adc_irq_unmasked: false,
        }
    }

    pub open spec fn value(self, reg: Register) -> u32 {
        match reg {
            Register::RccApb2enr => self.apb2enr,
            Register::AdcCommonCcr => self.ccr,
            Register::AdcSr => self.sr,
            Register::AdcCr1 => self.cr1,
            Register::AdcCr2 => self.cr2,
            Register::AdcSqr1 => self.sqr1,
            Register::AdcSqr3 => self.sqr3,
            Register::AdcDr => self.dr,
        }
    }

    /// The value of `f` in this register file.
    pub open spec fn field(self, f: Field) -> u32 {
        f.get(self.value(f.spec_register()))
    }

    /// This register file with `reg` holding `bits`.
    pub open spec fn with(self, reg: Register, bits: u32) -> RegisterFile {
        match reg {
            Register::RccApb2enr => RegisterFile { apb2enr: bits, ..self },
            Register::AdcCommonCcr => RegisterFile { ccr: bits, ..self },
            Register::AdcSr => RegisterFile { sr: bits, ..self },
            Register::AdcCr1 => RegisterFile { cr1: bits, ..self },
            Register::AdcCr2 => RegisterFile { cr2: bits, ..self },
            Register::AdcSqr1 => RegisterFile { sqr1: bits, ..self },
            Register::AdcSqr3 => RegisterFile { sqr3: bits, ..self },
            Register::AdcDr => RegisterFile { dr: bits, ..self },
        }
    }

    /// The register file after `step`.
    pub open spec fn spec_apply(self, step: Step) -> RegisterFile {
        match step.spec_target() {
            Some(reg) => self.with(reg, step.spec_new_bits(self.value(reg))),
            None => RegisterFile { adc_irq_unmasked: true, ..self },
        }
    }

    /// The register file after each of `steps` in turn.
    pub open spec fn spec_run(self, steps: Seq<Step>) -> RegisterFile
        decreases steps.len(),
    {
        if steps.len() == 0 {
            self
        } else {
            self.spec_run(steps.drop_last()).spec_apply(steps.last())
        }
    }

    pub fn read(&self, reg: Register) -> (r: u32)
        ensures
            r == self.value(reg),
    {
        match reg {
            Register::RccApb2enr => self.apb2enr,
            Register::AdcCommonCcr => self.ccr,
            Register::AdcSr => self.sr,
            Register::AdcCr1 => self.cr1,
            Register::AdcCr2 => self.cr2,
            Register::AdcSqr1 => self.sqr1,
            Register::AdcSqr3 => self.sqr3,
            Register::AdcDr => self.dr,
        }
    }

    pub fn write(&mut self, reg: Register, bits: u32)
        ensures
            *final(self) == old(self).with(reg, bits),
    {
        match reg {
            Register::RccApb2enr => self.apb2enr = bits,
            Register::AdcCommonCcr => self.ccr = bits,
            Register::AdcSr => self.sr = bits,
            Register::AdcCr1 => self.cr1 = bits,
            Register::AdcCr2 => self.cr2 = bits,
            Register::AdcSqr1 => self.sqr1 = bits,
            Register::AdcSqr3 => self.sqr3 = bits,
            Register::AdcDr => self.dr = bits,
        }
    }

    /// Performs one bring-up step.
    pub fn apply(&mut self, step: &Step)
        requires
            step.wf(),
        ensures
            *final(self) == old(self).spec_apply(*step),
    {
        match step.target() {
            Some(reg) => {
                let bits = self.read(reg);
                let new_bits = step.new_bits(bits);
                self.write(reg, new_bits);
            },
            None => {
                self.adc_irq_unmasked = true;
            },
        }
    }

    /// The state bring-up leaves: ADC1 clocked, ADC clock at PCLK2 / 8,
    /// continuous conversion of channel 0 in a sequence of one, converter on,
    /// end-of-conversion interrupt enabled and unmasked, a conversion started.
    pub open spec fn brought_up(self) -> bool {
        &&& self.field(Field::Adc1En) == 1
        &&& self.field(Field::AdcPre) == 3
        &&& self.field(Field::Cont) == 1
        &&& self.field(Field::Adon) == 1
        &&& self.field(Field::SeqLen) == 0
        &&& self.field(Field::Sq1) == 0
        &&& self.field(Field::Eocie) == 1
        &&& self.field(Field::Eocs) == 0
        &&& self.field(Field::Swstart) == 1
        &&& self.adc_irq_unmasked
    }

    /// Runs the bring-up sequence on this register file.
    pub fn bring_up(&mut self)
        ensures
            *final(self) == old(self).spec_run(spec_bring_up_sequence()),
            final(self).brought_up(),
            final(self).sr == old(self).sr,
            final(self).dr == old(self).dr,
            Field::Awdie.get(final(self).cr1) == Field::Awdie.get(old(self).cr1),
            Field::Jeocie.get(final(self).cr1) == Field::Jeocie.get(old(self).cr1),
            Field::Ovrie.get(final(self).cr1) == Field::Ovrie.get(old(self).cr1),
    {
        let steps = bring_up_sequence();
        self.run(&steps);
        proof {
            lemma_bring_up_effect(*old(self));
        }
    }

    /// Performs every step of `steps`, first to last.
    pub fn run(&mut self, steps: &Vec<Step>)
        requires
            forall|i: int| 0 <= i < steps@.len() ==> (#[trigger] steps@[i]).wf(),
        ensures
            *final(self) == old(self).spec_run(steps@),
    {
        let mut i: usize = 0;
        while i < steps.len()
            invariant
                i <= steps@.len(),
                forall|j: int| 0 <= j < steps@.len() ==> (#[trigger] steps@[j]).wf(),
                *self == old(self).spec_run(steps@.take(i as int)),
            decreases steps@.len() - i,
        {
            self.apply(&steps[i]);
            assert(steps@.take(i as int + 1).drop_last() =~= steps@.take(i as int));
            i = i + 1;
        }
        assert(steps@.take(steps@.len() as int) =~= steps@);
    }
}

/// What the bring-up sequence leaves in the registers, from any start.
pub proof fn lemma_bring_up_effect(s: RegisterFile)
    ensures
        s.spec_run(spec_bring_up_sequence()).brought_up(),
        s.spec_run(spec_bring_up_sequence()).sr == s.sr,
        s.spec_run(spec_bring_up_sequence()).dr == s.dr,
        Field::Awdie.get(s.spec_run(spec_bring_up_sequence()).cr1) == Field::Awdie.get(s.cr1),
        Field::Jeocie.get(s.spec_run(spec_bring_up_sequence()).cr1) == Field::Jeocie.get(s.cr1),
        Field::Ovrie.get(s.spec_run(spec_bring_up_sequence()).cr1) == Field::Ovrie.get(s.cr1),
{
    let q = spec_bring_up_sequence();
    reveal_with_fuel(RegisterFile::spec_run, 10);
    assert(q.drop_last().drop_last().drop_last().drop_last().drop_last().drop_last().drop_last().drop_last().drop_last() =~= Seq::<Step>::empty());
    let f = s.spec_run(q);
    // ADC1EN: the only write to APB2ENR
    lemma_put_get(Field::Adc1En, s.apb2enr, 1);
    lemma_put_get(Field::AdcPre, s.ccr, 3);
    // CR2: CONT and ADON together, then EOCS, then SWSTART
    let c0 = s.cr2;
    let c1 = Field::Cont.put(c0, 1);
    let c2 = Field::Adon.put(c1, 1);
    let c3 = Field::Eocs.put(c2, 0);
    let c4 = Field::Swstart.put(c3, 1);
    lemma_put_get(Field::Cont, c0, 1);
    lemma_put_other(Field::Adon, Field::Cont, c1, 1);
    lemma_put_other(Field::Eocs, Field::Cont, c2, 0);
    lemma_put_other(Field::Swstart, Field::Cont, c3, 1);
    lemma_put_get(Field::Adon, c1, 1);
    lemma_put_other(Field::Eocs, Field::Adon, c2, 0);
    lemma_put_other(Field::Swstart, Field::Adon, c3, 1);
    lemma_put_get(Field::Eocs, c2, 0);
    lemma_put_other(Field::Swstart, Field::Eocs, c3, 1);
    lemma_put_get(Field::Swstart, c3, 1);
    assert(f.cr2 == c4);
    lemma_put_get(Field::SeqLen, s.sqr1, 0);
    lemma_put_get(Field::Sq1, s.sqr3, 0);
    lemma_put_get(Field::Eocie, s.cr1, 1);
    lemma_put_other(Field::Eocie, Field::Awdie, s.cr1, 1);
    lemma_put_other(Field::Eocie, Field::Jeocie, s.cr1, 1);
    lemma_put_other(Field::Eocie, Field::Ovrie, s.cr1, 1);
}

} // verus!
