//! The whole acquisition path as a state machine: registers and mailbox,
//! stepped by finished conversions, ADC interrupts and foreground polls.
use vstd::prelude::*;
use crate::adc::{RegisterFile, spec_bring_up_sequence, lemma_bring_up_effect};
use crate::isr::{
    Diagnostic, service_interrupt, spec_cr2_idle, spec_diagnostics, spec_sample, spec_sr_ack,
    lemma_handler_effect, lemma_sample_range,
};
use crate::mailbox::Mailbox;
use crate::regs::{Field, lemma_put_get, read_field, write_field};

verus! {

/// The largest code of the 12-bit converter.
pub const MAX_CODE: u16 = 4095;

/// Registers and mailbox of the running firmware.
#[derive(PartialEq, Eq, Structural, Clone, Copy, Debug)]
pub struct Firmware {
    pub regs: RegisterFile,
    pub mailbox: Mailbox,
}

/// Something that happens to the firmware.
#[derive(PartialEq, Eq, Structural, Clone, Copy, Debug)]
pub enum Event {
    /// The converter finishes a conversion with this code.
    Conversion(u16),
    /// The ADC interrupt line is asserted; the handler runs if it is pending.
    Interrupt,
    /// One iteration of the foreground loop.
    Poll,
}

impl Event {
    pub open spec fn wf(self) -> bool {
        match self {
            Event::Conversion(code) => code <= MAX_CODE,
            _ => true,
        }
    }
}

impl Firmware {
    /// Facts kept by every step: only the end-of-conversion interrupt can
    /// be enabled, the data register holds a 12-bit code, and a waiting
    /// sample is a 12-bit code published after the handler halted the
    /// converter and acknowledged EOC.
    pub open spec fn inv(self) -> bool {
        &&& self.regs.field(Field::Awdie) == 0
        &&& self.regs.field(Field::Jeocie) == 0
        &&& self.regs.field(Field::Ovrie) == 0
        &&& self.regs.dr <= MAX_CODE
        &&& self.mailbox.slot matches Some(v) ==> v <= MAX_CODE && self.regs.field(Field::Adon)
            == 0 && self.regs.field(Field::Eoc) == 0
    }

    /// Whether the ADC interrupt is asserted: unmasked, with a flag set whose
    /// interrupt is enabled.
    pub open spec fn interrupt_pending(self) -> bool {
        &&& self.regs.adc_irq_unmasked
        &&& {
            ||| self.regs.field(Field::Eoc) == 1 && self.regs.field(Field::Eocie) == 1
            ||| self.regs.field(Field::Ovr) == 1 && self.regs.field(Field::Ovrie) == 1
            ||| self.regs.field(Field::Jeoc) == 1 && self.regs.field(Field::Jeocie) == 1
            ||| self.regs.field(Field::Awd) == 1 && self.regs.field(Field::Awdie) == 1
        }
    }

    /// Nothing more can happen: converter off, no sample waiting, EOC clear.
    pub open spec fn quiescent(self) -> bool {
        &&& self.inv()
        &&& self.regs.field(Field::Adon) == 0
        &&& self.mailbox.slot is None
        &&& self.regs.field(Field::Eoc) == 0
    }

    /// The state after a conversion that yields `code`: while the converter
    /// is on, the code lands in DR and EOC and STRT are set, with OVR too if
    /// the previous result was never acknowledged. While it is off, nothing.
    pub open spec fn spec_conversion(self, code: u16) -> Firmware {
        if self.regs.field(Field::Adon) == 1 {
            let sr1 = Field::Strt.put(Field::Eoc.put(self.regs.sr, 1), 1);
            let sr2 = if self.regs.field(Field::Eoc) == 1 {
                Field::Ovr.put(sr1, 1)
            } else {
                sr1
            };
            Firmware { regs: RegisterFile { sr: sr2, dr: code as u32, ..self.regs }, ..self }
        } else {
            self
        }
    }

    /// The state after the interrupt handler runs.
    pub open spec fn spec_interrupt(self) -> Firmware {
        Firmware {
            regs: RegisterFile {
                sr: self.regs.sr & spec_sr_ack(),
                cr2: spec_cr2_idle(self.regs.cr2),
                ..self.regs
            },
            mailbox: Mailbox { slot: Some(spec_sample(self.regs.dr)) },
        }
    }

    /// The state after one foreground iteration, and the sample it prints.
    pub open spec fn spec_poll(self) -> (Firmware, Option<u16>) {
        match self.mailbox.slot {
            Some(v) => (
                Firmware {
                    regs: RegisterFile { cr2: Field::Adon.put(self.regs.cr2, 0), ..self.regs },
                    mailbox: Mailbox { slot: None },
                },
                Some(v),
            ),
            None => (self, None),
        }
    }

    /// The state after `e`, and the sample printed, if any.
    pub open spec fn spec_step(self, e: Event) -> (Firmware, Option<u16>) {
        match e {
            Event::Conversion(code) => (self.spec_conversion(code), None),
            Event::Interrupt => if self.interrupt_pending() {
                (self.spec_interrupt(), None)
            } else {
                (self, None)
            },
            Event::Poll => self.spec_poll(),
        }
    }

    /// The state after `events` in turn.
    pub open spec fn spec_run(self, events: Seq<Event>) -> Firmware
        decreases events.len(),
    {
        if events.len() == 0 {
            self
        } else {
            self.spec_run(events.drop_last()).spec_step(events.last()).0
        }
    }

    /// The samples printed while `events` happen, in order.
    pub open spec fn spec_printed(self, events: Seq<Event>) -> Seq<u16>
        decreases events.len(),
    {
        if events.len() == 0 {
            Seq::empty()
        } else {
            let before = self.spec_printed(events.drop_last());
            match self.spec_run(events.drop_last()).spec_step(events.last()).1 {
                Some(v) => before.push(v),
                None => before,
            }
        }
    }

    /// The firmware after reset and bring-up: registers configured, the
    /// first conversion started, the mailbox empty.
    pub fn boot() -> (r: Firmware)
        ensures
            r.regs == RegisterFile::spec_reset().spec_run(spec_bring_up_sequence()),
            r.regs.brought_up(),
            r.mailbox.slot is None,
            r.inv(),
    {
        let mut regs = RegisterFile::reset();
        regs.bring_up();
        proof {
            lemma_bring_up_effect(RegisterFile::spec_reset());
            assert((0u32 & 0x40u32) >> 6u32 == 0u32 && (0u32 & 0x80u32) >> 7u32 == 0u32 && (0u32
                & 0x400_0000u32) >> 26u32 == 0u32) by (bit_vector);
        }
        Firmware { regs, mailbox: Mailbox::new() }
    }

    /// The converter finishes a conversion with `code`.
    pub fn complete_conversion(&mut self, code: u16)
        requires
            code <= MAX_CODE,
        ensures
            *final(self) == old(self).spec_conversion(code),
    {
        if read_field(self.regs.cr2, Field::Adon) == 1 {
            let was_pending = read_field(self.regs.sr, Field::Eoc) == 1;
            let sr1 = write_field(write_field(self.regs.sr, Field::Eoc, 1), Field::Strt, 1);
            let sr2 = if was_pending {
                write_field(sr1, Field::Ovr, 1)
            } else {
                sr1
            };
            self.regs.sr = sr2;
            self.regs.dr = code as u32;
        }
    }

    /// The ADC interrupt handler: returns the diagnostics to emit, then
    /// acknowledges EOC and STRT, halts the converter, and publishes the
    /// sample in the mailbox.
    pub fn on_interrupt(&mut self) -> (r: Vec<Diagnostic>)
        ensures
            r@ == spec_diagnostics(old(self).regs.sr, old(self).regs.dr),
            *final(self) == old(self).spec_interrupt(),
    {
        let outcome = service_interrupt(self.regs.sr, self.regs.cr2, self.regs.dr);
        self.regs.sr = self.regs.sr & outcome.sr_write;
        self.regs.cr2 = outcome.cr2_off;
        self.regs.cr2 = outcome.cr2_idle;
        self.mailbox.publish(outcome.sample);
        outcome.diagnostics
    }

    /// One foreground iteration: take the mailbox; if a sample was there,
    /// clear ADON once more and return the sample for printing.
    pub fn poll(&mut self) -> (r: Option<u16>)
        ensures
            (*final(self), r) == old(self).spec_poll(),
    {
        let taken = self.mailbox.take();
        if taken.is_some() {
            self.regs.cr2 = write_field(self.regs.cr2, Field::Adon, 0);
        }
        taken
    }
}

/// Every step keeps the invariant.
pub proof fn lemma_step_inv(s: Firmware, e: Event)
    requires
        s.inv(),
        e.wf(),
    ensures
        s.spec_step(e).0.inv(),
{
    match e {
        Event::Conversion(code) => {
            if s.regs.field(Field::Adon) == 1 {
                let t = s.spec_conversion(code);
                assert(t.regs.cr1 == s.regs.cr1);
            }
        },
        Event::Interrupt => {
            lemma_handler_effect(s.regs.sr, s.regs.cr2);
            lemma_sample_range(s.regs.dr);
        },
        Event::Poll => {
            if s.mailbox.slot is Some {
                lemma_put_get(Field::Adon, s.regs.cr2, 0);
            }
        },
    }
}

/// From a state that keeps the invariant, every state reached keeps it.
pub proof fn lemma_run_inv(s: Firmware, events: Seq<Event>)
    requires
        s.inv(),
        forall|i: int| 0 <= i < events.len() ==> (#[trigger] events[i]).wf(),
    ensures
        s.spec_run(events).inv(),
    decreases events.len(),
{
    if events.len() > 0 {
        lemma_run_inv(s, events.drop_last());
        assert(events.last() == events[events.len() - 1]);
        lemma_step_inv(s.spec_run(events.drop_last()), events.last());
    }
}

/// When a poll takes a sample, the handler that published it has already
/// halted the converter and acknowledged EOC, and the sample is the low 16
/// bits of a 12-bit data register.
pub proof fn lemma_happens_before(s: Firmware)
    requires
        s.inv(),
        s.spec_poll().1 is Some,
    ensures
        s.regs.field(Field::Adon) == 0,
        s.regs.field(Field::Eoc) == 0,
        s.spec_poll().1.unwrap() <= MAX_CODE,
{
}

/// Every sample printed from a state that keeps the invariant is in [0, 4095].
pub proof fn lemma_code_range(s: Firmware, events: Seq<Event>)
    requires
        s.inv(),
        forall|i: int| 0 <= i < events.len() ==> (#[trigger] events[i]).wf(),
    ensures
        forall|i: int| 0 <= i < s.spec_printed(events).len() ==> #[trigger] s.spec_printed(events)[i] <= MAX_CODE,
    decreases events.len(),
{
    if events.len() > 0 {
        let pre = events.drop_last();
        assert forall|i: int| 0 <= i < pre.len() implies (#[trigger] pre[i]).wf() by {
            assert(pre[i] == events[i]);
        }
        lemma_code_range(s, pre);
        lemma_run_inv(s, pre);
        let t = s.spec_run(pre);
        let last = events.last();
        if let Some(v) = t.spec_step(last).1 {
            assert(last == Event::Poll);
            assert(v <= MAX_CODE);
            assert(s.spec_printed(events) =~= s.spec_printed(pre).push(v));
        } else {
            assert(s.spec_printed(events) =~= s.spec_printed(pre));
        }
    }
}

/// After a poll has printed a sample the converter is off and the firmware
/// is quiescent; from then on, whatever conversions, interrupts and polls
/// follow, nothing more is printed.
pub proof fn lemma_one_shot(s: Firmware, events: Seq<Event>)
    requires
        s.inv(),
        s.spec_poll().1 is Some,
    ensures
        s.spec_poll().0.quiescent(),
        s.spec_poll().0.regs.field(Field::Adon) == 0,
        s.spec_poll().0.spec_printed(events) == Seq::<u16>::empty(),
{
    lemma_step_inv(s, Event::Poll);
    lemma_put_get(Field::Adon, s.regs.cr2, 0);
    lemma_quiet(s.spec_poll().0, events);
}

/// A quiescent firmware stays quiescent and prints nothing.
pub proof fn lemma_quiet(s: Firmware, events: Seq<Event>)
    requires
        s.quiescent(),
    ensures
        s.spec_run(events) == s,
        s.spec_printed(events) == Seq::<u16>::empty(),
    decreases events.len(),
{
    if events.len() > 0 {
        lemma_quiet(s, events.drop_last());
        assert(!s.interrupt_pending());
    }
}

} // verus!
