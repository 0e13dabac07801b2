use vstd::prelude::*;
use crate::HaltReason;

verus! {

/// Outcomes of the timer collaborators, gathered by whoever drives the
/// idle-stage bring-up. A field only matters when the selector reaches the
/// step it belongs to: `hpet_enable_ok` is consulted only after discovery
/// succeeded, `acpi_pm_init_ok` only after it failed, and `tsc_init_ok` only
/// once a primary source is active.
#[derive(Clone, Copy, Debug, PartialEq, Eq, Structural)]
pub struct TimerEvents {
    /// HPET discovery-and-initialization succeeded. Failure here means the
    /// hardware is absent, which is expected on some platforms, not an error.
    pub hpet_init_ok: bool,
    /// Enabling the discovered HPET instance as the clock source succeeded.
    pub hpet_enable_ok: bool,
    /// ACPI Power-Management timer initialization succeeded.
    pub acpi_pm_init_ok: bool,
    /// TSC calibration succeeded.
    pub tsc_init_ok: bool,
}

/// The primary early clock source the selector activated.
#[derive(Clone, Copy, Debug, PartialEq, Eq, Structural)]
pub enum ClockSource {
    /// The High Precision Event Timer.
    Hpet,
    /// The ACPI Power-Management timer, the legacy fallback.
    AcpiPm,
}

/// Everything the Timer Source Selector did, as a function of the
/// collaborator outcomes: which primary source it activated, which steps it
/// reached, and the diagnostic of the fatal halt if one step failed.
#[derive(Clone, Copy, Debug, PartialEq, Eq)]
pub struct TimerStageReport {
    /// The primary clock source that was activated, if the selection got that
    /// far. Exactly one source is ever activated per boot.
    pub clock_source: Option<ClockSource>,
    /// Whether the ACPI PM fallback was attempted: exactly when HPET
    /// discovery failed.
    pub acpi_pm_attempted: bool,
    /// Whether TSC calibration was attempted: exactly when a primary source
    /// had been activated, and unconditionally then.
    pub tsc_attempted: bool,
    /// Whether the TSC was successfully calibrated.
    pub tsc_calibrated: bool,
    /// The diagnostic of the fatal halt, or `None` when the stage succeeded.
    pub halt: Option<HaltReason>,
}

/// The Timer Source Selector as a total function of collaborator
/// availability: HPET is preferred; when it is absent the ACPI PM timer is
/// the last fallback; once either is active the TSC is calibrated
/// unconditionally; every failure past discovery is a fatal halt.
pub open spec fn spec_timer_stage(e: TimerEvents) -> TimerStageReport {
    if e.hpet_init_ok {
        if e.hpet_enable_ok {
            TimerStageReport {
                clock_source: Some(ClockSource::Hpet),
                acpi_pm_attempted: false,
                tsc_attempted: true,
                tsc_calibrated: e.tsc_init_ok,
                halt: if e.tsc_init_ok {
                    None
                } else {
                    Some(HaltReason::TscInitFailed)
                },
            }
        } else {
            TimerStageReport {
                clock_source: None,
                acpi_pm_attempted: false,
                tsc_attempted: false,
                tsc_calibrated: false,
                halt: Some(HaltReason::HpetEnableFailed),
            }
        }
    } else {
        if e.acpi_pm_init_ok {
            TimerStageReport {
                clock_source: Some(ClockSource::AcpiPm),
                acpi_pm_attempted: true,
                tsc_attempted: true,
                tsc_calibrated: e.tsc_init_ok,
                halt: if e.tsc_init_ok {
                    None
                } else {
                    Some(HaltReason::TscInitFailed)
                },
            }
        } else {
            TimerStageReport {
                clock_source: None,
                acpi_pm_attempted: true,
                tsc_attempted: false,
                tsc_calibrated: false,
                halt: Some(HaltReason::AcpiPmInitFailed),
            }
        }
    }
}

/// Run the Timer Source Selector over the gathered collaborator outcomes.
/// The report is exactly `spec_timer_stage(events)`.
pub fn select_clock_source(events: TimerEvents) -> (r: TimerStageReport)
    ensures
        r == spec_timer_stage(events),
{
    if events.hpet_init_ok {
        if events.hpet_enable_ok {
            TimerStageReport {
                clock_source: Some(ClockSource::Hpet),
                acpi_pm_attempted: false,
                tsc_attempted: true,
                tsc_calibrated: events.tsc_init_ok,
                halt: if events.tsc_init_ok {
                    None
                } else {
                    Some(HaltReason::TscInitFailed)
                },
            }
        } else {
            TimerStageReport {
                clock_source: None,
                acpi_pm_attempted: false,
                tsc_attempted: false,
                tsc_calibrated: false,
                halt: Some(HaltReason::HpetEnableFailed),
            }
        }
    } else {
        if events.acpi_pm_init_ok {
            TimerStageReport {
                clock_source: Some(ClockSource::AcpiPm),
                acpi_pm_attempted: true,
                tsc_attempted: true,
                tsc_calibrated: events.tsc_init_ok,
                halt: if events.tsc_init_ok {
                    None
                } else {
                    Some(HaltReason::TscInitFailed)
                },
            }
        } else {
            TimerStageReport {
                clock_source: None,
                acpi_pm_attempted: true,
                tsc_attempted: false,
                tsc_calibrated: false,
                halt: Some(HaltReason::AcpiPmInitFailed),
            }
        }
    }
}

/// Timer selection is a total function of availability: HPET present and
/// enabled means the HPET is the clock source and TSC calibration is also
/// attempted; HPET absence means the ACPI PM timer is attempted and is the
/// only other source ever activated; the fallback failing after HPET absence
/// is a fatal halt and TSC calibration is never reached.
pub proof fn lemma_timer_selection_total(e: TimerEvents)
    ensures
        e.hpet_init_ok && e.hpet_enable_ok ==> spec_timer_stage(e).clock_source == Some(
            ClockSource::Hpet,
        ) && spec_timer_stage(e).tsc_attempted,
        !e.hpet_init_ok ==> spec_timer_stage(e).acpi_pm_attempted,
        spec_timer_stage(e).acpi_pm_attempted <==> !e.hpet_init_ok,
        !e.hpet_init_ok && !e.acpi_pm_init_ok ==> spec_timer_stage(e).halt == Some(
            HaltReason::AcpiPmInitFailed,
        ) && !spec_timer_stage(e).tsc_attempted,
        spec_timer_stage(e).clock_source == Some(ClockSource::Hpet) <==> e.hpet_init_ok
            && e.hpet_enable_ok,
        spec_timer_stage(e).clock_source == Some(ClockSource::AcpiPm) <==> !e.hpet_init_ok
            && e.acpi_pm_init_ok,
        spec_timer_stage(e).tsc_attempted <==> spec_timer_stage(e).clock_source is Some,
        spec_timer_stage(e).halt is None <==> spec_timer_stage(e).clock_source is Some
            && e.tsc_init_ok,
{
}

} // verus!
