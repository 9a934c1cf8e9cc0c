//! Verified logic of a one-shot ADC sampler for an STM32F411: the bit
//! fields of the registers it programs, the bring-up sequence, the
//! interrupt handler's decisions, the single-slot mailbox that hands a
//! sample from the interrupt to the foreground, and the foreground loop.
pub mod regs;
pub mod adc;
pub mod mailbox;
pub mod isr;
pub mod firmware;
