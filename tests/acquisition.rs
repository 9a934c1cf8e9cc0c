use adc_oneshot::adc::{bring_up_sequence, FieldWrite, RegisterFile, Step};
use adc_oneshot::firmware::{Event, Firmware, MAX_CODE};
use adc_oneshot::isr::{service_interrupt, Diagnostic};
use adc_oneshot::mailbox::Mailbox;
use adc_oneshot::regs::{read_field, write_field, Field, Register};

fn run(fw: &mut Firmware, events: &[Event]) -> (Vec<u16>, Vec<Diagnostic>) {
    let mut printed = Vec::new();
    let mut diags = Vec::new();
    for e in events {
        match e {
            Event::Conversion(code) => fw.complete_conversion(*code),
            Event::Interrupt => {
                let r = &fw.regs;
                let eoc = read_field(r.sr, Field::Eoc) == 1 && read_field(r.cr1, Field::Eocie) == 1;
                let ovr = read_field(r.sr, Field::Ovr) == 1 && read_field(r.cr1, Field::Ovrie) == 1;
                if r.adc_irq_unmasked && (eoc || ovr) {
                    diags.extend(fw.on_interrupt());
                }
            }
            Event::Poll => {
                if let Some(v) = fw.poll() {
                    printed.push(v);
                }
            }
        }
    }
    (printed, diags)
}

#[test]
fn write_field_sets_prescaler() {
    assert_eq!(write_field(0, Field::AdcPre, 3), 0x0003_0000);
    assert_eq!(write_field(0xffff_ffff, Field::AdcPre, 0), 0xfffc_ffff);
    assert_eq!(write_field(0x0001_0000, Field::AdcPre, 2), 0x0002_0000);
}

#[test]
fn write_field_keeps_other_bits() {
    assert_eq!(write_field(0xffff_ffff, Field::Adon, 0), 0xffff_fffe);
    assert_eq!(write_field(0x4000_0003, Field::Swstart, 0), 0x0000_0003);
    assert_eq!(write_field(0x1234_5678, Field::SeqLen, 0), 0x1204_5678);
    assert_eq!(write_field(0xabc0, Field::Sq1, 31), 0xabdf);
}

#[test]
fn read_field_extracts() {
    assert_eq!(read_field(0x0003_0000, Field::AdcPre), 3);
    assert_eq!(read_field(0x00f0_0000, Field::SeqLen), 15);
    assert_eq!(read_field(0x0000_0020, Field::Ovr), 1);
    assert_eq!(read_field(0x0000_0020, Field::Eoc), 0);
    assert_eq!(read_field(0x0001_0abc, Field::Data), 0x0abc);
}

#[test]
fn fields_know_their_registers() {
    assert_eq!(Field::Adc1En.register(), Register::RccApb2enr);
    assert_eq!(Field::AdcPre.register(), Register::AdcCommonCcr);
    assert_eq!(Field::Eocie.register(), Register::AdcCr1);
    assert_eq!(Field::Swstart.register(), Register::AdcCr2);
    assert_eq!(Field::Ovr.register(), Register::AdcSr);
    assert_eq!(Field::Swstart.mask(), 0x4000_0000);
    assert_eq!(Field::SeqLen.shift(), 20);
    assert_eq!(Field::Sq1.max(), 31);
}

#[test]
fn bring_up_order() {
    let w = |field, value| FieldWrite { field, value };
    let expected = vec![
        Step::Modify(w(Field::Adc1En, 1)),
        Step::Modify(w(Field::AdcPre, 3)),
        Step::ModifyPair(w(Field::Cont, 1), w(Field::Adon, 1)),
        Step::Modify(w(Field::SeqLen, 0)),
        Step::Modify(w(Field::Sq1, 0)),
        Step::Modify(w(Field::Eocie, 1)),
        Step::Modify(w(Field::Eocs, 0)),
        Step::Modify(w(Field::Swstart, 1)),
        Step::UnmaskAdcInterrupt,
    ];
    let steps = bring_up_sequence();
    assert_eq!(steps, expected);
    let targets: Vec<Option<Register>> = steps.iter().map(|s| s.target()).collect();
    assert_eq!(
        targets,
        vec![
            Some(Register::RccApb2enr),
            Some(Register::AdcCommonCcr),
            Some(Register::AdcCr2),
            Some(Register::AdcSqr1),
            Some(Register::AdcSqr3),
            Some(Register::AdcCr1),
            Some(Register::AdcCr2),
            Some(Register::AdcCr2),
            None,
        ]
    );
}

#[test]
fn bring_up_from_reset() {
    let mut regs = RegisterFile::reset();
    regs.bring_up();
    assert_eq!(regs.apb2enr, 0x0000_0100);
    assert_eq!(regs.ccr, 0x0003_0000);
    assert_eq!(regs.cr2, 0x4000_0003);
    assert_eq!(regs.cr1, 0x0000_0020);
    assert_eq!(regs.sqr1, 0);
    assert_eq!(regs.sqr3, 0);
    assert_eq!(regs.sr, 0);
    assert!(regs.adc_irq_unmasked);
}

#[test]
fn bring_up_keeps_unrelated_bits() {
    let mut regs = RegisterFile::reset();
    regs.apb2enr = 0x0000_4001;
    regs.cr2 = 0x0000_0400;
    regs.sqr1 = 0x00ff_ffff;
    regs.sqr3 = 0x3fff_ffff;
    regs.bring_up();
    assert_eq!(regs.apb2enr, 0x0000_4101);
    assert_eq!(regs.cr2, 0x4000_0003);
    assert_eq!(regs.sqr1, 0x000f_ffff);
    assert_eq!(regs.sqr3, 0x3fff_ffe0);
}

#[test]
fn step_new_bits_modifies() {
    let s = Step::ModifyPair(
        FieldWrite { field: Field::Cont, value: 1 },
        FieldWrite { field: Field::Adon, value: 1 },
    );
    assert_eq!(s.new_bits(0x0000_0400), 0x0000_0403);
    assert_eq!(Step::UnmaskAdcInterrupt.new_bits(7), 7);
}

#[test]
fn mailbox_take_empty() {
    let mut m = Mailbox::new();
    assert_eq!(m.take(), None);
    assert!(!m.is_full());
}

#[test]
fn mailbox_one_value_per_publish() {
    let mut m = Mailbox::new();
    m.publish(42);
    assert!(m.is_full());
    assert_eq!(m.take(), Some(42));
    assert_eq!(m.take(), None);
}

#[test]
fn mailbox_last_writer_wins() {
    let mut m = Mailbox::new();
    m.publish(1);
    m.publish(2);
    assert_eq!(m.take(), Some(2));
    assert_eq!(m.take(), None);
}

#[test]
fn interrupt_diagnostics_in_order() {
    // AWD, EOC, JEOC, OVR all set
    let out = service_interrupt(0x27, 0x4000_0003, 0x0abc);
    assert_eq!(
        out.diagnostics,
        vec![
            Diagnostic::Overrun,
            Diagnostic::EndOfConversion(0x0abc),
            Diagnostic::InjectedEndOfConversion,
            Diagnostic::AnalogWatchdog,
        ]
    );
    let labels: Vec<&str> = out.diagnostics.iter().map(|d| d.label()).collect();
    assert_eq!(labels, vec!["ADC OVR", "ADC EOC", "ADC JEOC", "ADC AWD"]);
}

#[test]
fn interrupt_acknowledges_and_halts() {
    let out = service_interrupt(0x12, 0x4000_0003, 0x0001_0fff);
    assert_eq!(out.diagnostics, vec![Diagnostic::EndOfConversion(0x0001_0fff)]);
    assert_eq!(out.sr_write, 0xffff_ffed);
    assert_eq!(out.cr2_off, 0x4000_0002);
    assert_eq!(out.cr2_idle, 0x0000_0002);
    assert_eq!(out.sample, 0x0fff);
}

#[test]
fn interrupt_without_flags() {
    let out = service_interrupt(0, 0, 7);
    assert!(out.diagnostics.is_empty());
    assert_eq!(out.sample, 7);
}

#[test]
fn floor_reading() {
    let mut fw = Firmware::boot();
    let (printed, _) = run(&mut fw, &[Event::Conversion(3), Event::Interrupt, Event::Poll]);
    assert_eq!(printed.len(), 1);
    assert!(printed[0] <= 16);
}

#[test]
fn ceiling_reading() {
    let mut fw = Firmware::boot();
    let (printed, _) = run(&mut fw, &[Event::Conversion(MAX_CODE), Event::Interrupt, Event::Poll]);
    assert_eq!(printed, vec![4095]);
    assert!(printed[0] >= 4079);
}

#[test]
fn mid_scale_reading() {
    let mut fw = Firmware::boot();
    let (printed, diags) = run(&mut fw, &[Event::Conversion(2050), Event::Interrupt, Event::Poll]);
    assert_eq!(printed.len(), 1);
    assert!(printed[0] >= 2048 - 64 && printed[0] <= 2048 + 64);
    assert_eq!(diags, vec![Diagnostic::EndOfConversion(2050)]);
}

#[test]
fn overrun_reported_before_sample() {
    let mut fw = Firmware::boot();
    // the foreground is stalled while two conversions finish
    fw.complete_conversion(100);
    fw.complete_conversion(200);
    assert_eq!(read_field(fw.regs.sr, Field::Ovr), 1);
    let diags = fw.on_interrupt();
    assert_eq!(diags[0], Diagnostic::Overrun);
    assert_eq!(diags[0].label(), "ADC OVR");
    assert_eq!(diags[1], Diagnostic::EndOfConversion(200));
    assert_eq!(fw.poll(), Some(200));
}

#[test]
fn second_reading_requires_reset() {
    let mut fw = Firmware::boot();
    let (first, _) = run(&mut fw, &[Event::Conversion(1234), Event::Interrupt, Event::Poll]);
    assert_eq!(first, vec![1234]);
    assert_eq!(read_field(fw.regs.cr2, Field::Adon), 0);
    let mut later = Vec::new();
    for i in 0..1000u16 {
        later.push(Event::Conversion(i));
        later.push(Event::Interrupt);
        later.push(Event::Poll);
    }
    let (printed, diags) = run(&mut fw, &later);
    assert!(printed.is_empty());
    assert!(diags.is_empty());
    assert!(fw.mailbox.slot.is_none());
}

#[test]
fn conversion_ignored_while_off() {
    let mut fw = Firmware::boot();
    fw.regs.cr2 = write_field(fw.regs.cr2, Field::Adon, 0);
    let before = fw;
    fw.complete_conversion(10);
    assert_eq!(fw, before);
}

#[test]
fn boot_state() {
    let fw = Firmware::boot();
    assert!(fw.mailbox.slot.is_none());
    assert_eq!(read_field(fw.regs.cr2, Field::Adon), 1);
    assert_eq!(read_field(fw.regs.cr2, Field::Cont), 1);
    assert_eq!(read_field(fw.regs.cr1, Field::Eocie), 1);
    assert_eq!(read_field(fw.regs.ccr, Field::AdcPre), 3);
}
