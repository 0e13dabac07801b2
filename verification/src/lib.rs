use vstd::prelude::*;

pub mod boot;
pub mod dtables;
pub mod timer;
pub mod tss;

verus! {

/// Reason the boot halts. Every failure in the bring-up sequence is fatal:
/// there is no degraded mode for missing descriptor tables, missing trap
/// delivery or missing timekeeping.
#[derive(Clone, Copy, Debug, PartialEq, Eq, Structural)]
pub enum HaltReason {
    /// The GDT region's physical base could not be translated to a virtual address.
    GdtTranslationFailed,
    /// The IDT region's physical base could not be translated to a virtual address.
    IdtTranslationFailed,
    /// The trap/interrupt handler installation reported failure.
    TrapInitFailed,
    /// A discovered HPET could not be enabled as the clock source.
    HpetEnableFailed,
    /// The ACPI PM timer fallback could not be initialized.
    AcpiPmInitFailed,
    /// The TSC could not be calibrated.
    TscInitFailed,
}

impl HaltReason {
    /// Diagnostic named when the boot halts for this reason.
    pub fn message(&self) -> (r: &'static str)
        ensures
            self is GdtTranslationFailed ==> r@ == "gdt translation failed"@,
            self is IdtTranslationFailed ==> r@ == "idt translation failed"@,
            self is TrapInitFailed ==> r@ == "trap initialization failed"@,
            self is HpetEnableFailed ==> r@ == "hpet enable failed"@,
            self is AcpiPmInitFailed ==> r@ == "acpi_pm_timer init failed"@,
            self is TscInitFailed ==> r@ == "tsc init failed"@,
    {
        match self {
            HaltReason::GdtTranslationFailed => "gdt translation failed",
            HaltReason::IdtTranslationFailed => "idt translation failed",
            HaltReason::TrapInitFailed => "trap initialization failed",
            HaltReason::HpetEnableFailed => "hpet enable failed",
            HaltReason::AcpiPmInitFailed => "acpi_pm_timer init failed",
            HaltReason::TscInitFailed => "tsc init failed",
        }
    }
}

} // verus!
