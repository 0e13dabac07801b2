use x86_bringup::HaltReason;
use x86_bringup::boot::ArchBootParams;
use x86_bringup::boot::BootParameters;
use x86_bringup::boot::BootState;
use x86_bringup::boot::early_setup_arch;
use x86_bringup::boot::kernel_main;
use x86_bringup::boot::magic_low32;
use x86_bringup::boot::set_current_core_tss;
use x86_bringup::boot::setup_arch;
use x86_bringup::boot::setup_arch_post;
use x86_bringup::dtables::CpuTableState;
use x86_bringup::dtables::DescriptorTablePointer;
use x86_bringup::dtables::load_gdt_from_phys;
use x86_bringup::dtables::load_idt_from_phys;
use x86_bringup::dtables::make_table_pointer;
use x86_bringup::timer::ClockSource;
use x86_bringup::timer::TimerEvents;
use x86_bringup::timer::select_clock_source;
use x86_bringup::tss::TaskStateSegment;
use x86_bringup::tss::TssRegistry;

fn events(hpet_init: bool, hpet_enable: bool, acpi_pm: bool, tsc: bool) -> TimerEvents {
    TimerEvents {
        hpet_init_ok: hpet_init,
        hpet_enable_ok: hpet_enable,
        acpi_pm_init_ok: acpi_pm,
        tsc_init_ok: tsc,
    }
}

fn params(gdt_size: u64, idt_size: u64) -> BootParameters {
    BootParameters { boot_info: 0x1000, boot_magic: 0x36d7_6289, gdt_size, idt_size }
}

#[test]
fn table_pointer_limit_and_base() {
    let p = make_table_pointer(0xffff_8000_0010_0000, 128);
    assert_eq!(p.base, 0xffff_8000_0010_0000);
    assert_eq!(p.limit, 127);
}

#[test]
fn table_pointer_smallest_table() {
    let p = make_table_pointer(0x1000, 1);
    assert_eq!(p.limit, 0);
}

#[test]
fn table_pointer_largest_table() {
    let p = make_table_pointer(0x1000, 0x1_0000);
    assert_eq!(p.limit, 0xffff);
}

#[test]
fn loader_produces_translated_base() {
    let mut state = CpuTableState::startup();
    let r = load_gdt_from_phys(&mut state, Some(0xffff_8000_0020_0000), 256);
    let p = r.expect("translation succeeded");
    assert_eq!(p.base, 0xffff_8000_0020_0000);
    assert_eq!(p.limit, 255);
    assert_eq!(state.gdtr, Some(p));
    assert_eq!(state.idtr, None);
}

#[test]
fn gdt_loader_translation_failure_loads_nothing() {
    let mut state = CpuTableState::startup();
    let before = state;
    let r = load_gdt_from_phys(&mut state, None, 128);
    assert_eq!(r, Err(HaltReason::GdtTranslationFailed));
    assert_eq!(state, before);
    assert_eq!(HaltReason::GdtTranslationFailed.message(), "gdt translation failed");
}

#[test]
fn idt_loader_translation_failure_loads_nothing() {
    let mut state = CpuTableState::startup();
    let before = state;
    let r = load_idt_from_phys(&mut state, None, 128);
    assert_eq!(r, Err(HaltReason::IdtTranslationFailed));
    assert_eq!(state, before);
    assert_eq!(HaltReason::IdtTranslationFailed.message(), "idt translation failed");
}

#[test]
fn table_load_idempotent() {
    let mut once = CpuTableState::startup();
    load_gdt_from_phys(&mut once, Some(0x4000), 64).unwrap();
    load_idt_from_phys(&mut once, Some(0x5000), 4096).unwrap();
    let mut twice = once;
    load_gdt_from_phys(&mut twice, Some(0x4000), 64).unwrap();
    load_idt_from_phys(&mut twice, Some(0x5000), 4096).unwrap();
    assert_eq!(once, twice);
}

#[test]
fn tss_configure_reads_back() {
    let mut registry = TssRegistry::new(4);
    registry.configure(2, 0x1234, 3, 0x5678);
    let seg = registry.segment(2);
    assert_eq!(seg.ring0_stack, 0x1234);
    assert_eq!(seg.ist[3], 0x5678);
}

#[test]
fn tss_configure_other_cores_untouched() {
    let mut registry = TssRegistry::new(4);
    let blank = TaskStateSegment::blank();
    registry.configure(2, 0x1234, 3, 0x5678);
    assert_eq!(*registry.segment(0), blank);
    assert_eq!(*registry.segment(1), blank);
    assert_eq!(*registry.segment(3), blank);
}

#[test]
fn tss_configure_other_slots_untouched() {
    let mut registry = TssRegistry::new(1);
    registry.configure(0, 0x1234, 3, 0x5678);
    for slot in 0..7 {
        if slot != 3 {
            assert_eq!(registry.segment(0).ist[slot], 0);
        }
    }
}

#[test]
fn tss_set_current_core_uses_slot_zero() {
    let mut registry = TssRegistry::new(2);
    set_current_core_tss(&mut registry, 1, 0xdead_0000, 0);
    assert_eq!(registry.segment(1).ring0_stack, 0xdead_0000);
    assert_eq!(registry.segment(1).ist[0], 0);
    assert_eq!(*registry.segment(0), TaskStateSegment::blank());
}

#[test]
fn timer_scenario_hpet_active() {
    let report = select_clock_source(events(true, true, false, true));
    assert_eq!(report.clock_source, Some(ClockSource::Hpet));
    assert!(report.tsc_attempted);
    assert!(report.tsc_calibrated);
    assert!(!report.acpi_pm_attempted);
    assert_eq!(report.halt, None);
}

#[test]
fn timer_scenario_acpi_fallback() {
    let report = select_clock_source(events(false, false, true, true));
    assert_eq!(report.clock_source, Some(ClockSource::AcpiPm));
    assert!(report.acpi_pm_attempted);
    assert!(report.tsc_attempted);
    assert!(report.tsc_calibrated);
    assert_eq!(report.halt, None);
}

#[test]
fn timer_scenario_fallback_fails() {
    let report = select_clock_source(events(false, false, false, true));
    assert_eq!(report.clock_source, None);
    assert!(report.acpi_pm_attempted);
    assert!(!report.tsc_attempted);
    assert!(!report.tsc_calibrated);
    assert_eq!(report.halt, Some(HaltReason::AcpiPmInitFailed));
    assert_eq!(HaltReason::AcpiPmInitFailed.message(), "acpi_pm_timer init failed");
}

#[test]
fn timer_hpet_enable_failure_is_fatal() {
    let report = select_clock_source(events(true, false, true, true));
    assert_eq!(report.clock_source, None);
    assert!(!report.acpi_pm_attempted);
    assert!(!report.tsc_attempted);
    assert_eq!(report.halt, Some(HaltReason::HpetEnableFailed));
    assert_eq!(HaltReason::HpetEnableFailed.message(), "hpet enable failed");
}

#[test]
fn timer_tsc_failure_is_fatal() {
    let report = select_clock_source(events(true, true, false, false));
    assert_eq!(report.clock_source, Some(ClockSource::Hpet));
    assert!(report.tsc_attempted);
    assert!(!report.tsc_calibrated);
    assert_eq!(report.halt, Some(HaltReason::TscInitFailed));
    assert_eq!(HaltReason::TscInitFailed.message(), "tsc init failed");
}

#[test]
fn timer_tsc_failure_after_fallback_is_fatal() {
    let report = select_clock_source(events(false, true, true, false));
    assert_eq!(report.clock_source, Some(ClockSource::AcpiPm));
    assert_eq!(report.halt, Some(HaltReason::TscInitFailed));
}

#[test]
fn entry_scenario_gdt_translation_failure() {
    let mut state = BootState::startup(2, 0);
    let r = kernel_main(&mut state, params(128, 4096), None, Some(0x6000), true);
    assert_eq!(r, Err(HaltReason::GdtTranslationFailed));
    assert_eq!(state.halt, Some(HaltReason::GdtTranslationFailed));
    assert_eq!(state.tables.gdtr, None);
    assert_eq!(state.tables.idtr, None);
    assert!(!state.handed_off);
    assert!(!state.tr_loaded);
    assert!(!state.traps_installed);
    assert_eq!(*state.tss.segment(0), TaskStateSegment::blank());
    assert_eq!(*state.tss.segment(1), TaskStateSegment::blank());
}

#[test]
fn entry_scenario_idt_translation_failure() {
    let mut state = BootState::startup(1, 0);
    let r = kernel_main(&mut state, params(128, 4096), Some(0x5000), None, true);
    assert_eq!(r, Err(HaltReason::IdtTranslationFailed));
    assert_eq!(state.tables.gdtr, Some(DescriptorTablePointer { base: 0x5000, limit: 127 }));
    assert_eq!(state.tables.idtr, None);
    assert!(!state.handed_off);
}

#[test]
fn entry_hands_off_with_low_magic_bits() {
    assert_eq!(magic_low32(0xdead_beef_1234_5678), 0x1234_5678);
    let mut state = BootState::startup(1, 0);
    let p = BootParameters {
        boot_info: 0x9000,
        boot_magic: 0xdead_beef_1234_5678,
        gdt_size: 128,
        idt_size: 4096,
    };
    let r = kernel_main(&mut state, p, Some(0x5000), Some(0x6000), true);
    assert_eq!(r, Ok(()));
    assert!(state.handed_off);
    assert!(state.boot_info_parsed);
    assert_eq!(state.bridge_magic_low, Some(0x1234_5678));
    assert_eq!(state.tables.gdtr, Some(DescriptorTablePointer { base: 0x5000, limit: 127 }));
    assert_eq!(state.tables.idtr, Some(DescriptorTablePointer { base: 0x6000, limit: 4095 }));
}

#[test]
fn early_scenario_trap_failure_preserves_tss() {
    let mut state = BootState::startup(1, 0);
    kernel_main(&mut state, params(128, 4096), Some(0x5000), Some(0x6000), true).unwrap();
    let r = early_setup_arch(&mut state, 0xffff_8000_0004_0000, false);
    assert_eq!(r, Err(HaltReason::TrapInitFailed));
    assert_eq!(state.halt, Some(HaltReason::TrapInitFailed));
    assert_eq!(HaltReason::TrapInitFailed.message(), "trap initialization failed");
    assert!(!state.traps_installed);
    assert!(state.tr_loaded);
    assert_eq!(state.tss.segment(0).ring0_stack, 0xffff_8000_0004_0000);
    assert_eq!(state.tss.segment(0).ist[0], 0);
}

#[test]
fn full_boot_sequence_succeeds() {
    let mut state = BootState::startup(1, 0);
    let r = kernel_main(&mut state, params(128, 4096), Some(0x5000), Some(0x6000), true);
    assert_eq!(r, Ok(()));
    let r = early_setup_arch(&mut state, 0xffff_8000_0004_0000, true);
    assert_eq!(r, Ok(()));
    assert!(state.traps_installed);
    let r = setup_arch();
    assert_eq!(r, Ok(()));
    let r = setup_arch_post(&mut state, events(true, true, false, true));
    assert_eq!(r, Ok(()));
    assert_eq!(state.clock_source, Some(ClockSource::Hpet));
    assert!(state.tsc_calibrated);
    assert_eq!(state.halt, None);
}

#[test]
fn idle_stage_records_fallback_halt() {
    let mut state = BootState::startup(1, 0);
    kernel_main(&mut state, params(128, 4096), Some(0x5000), Some(0x6000), true).unwrap();
    early_setup_arch(&mut state, 0x4000, true).unwrap();
    let r = setup_arch_post(&mut state, events(false, false, false, true));
    assert_eq!(r, Err(HaltReason::AcpiPmInitFailed));
    assert_eq!(state.halt, Some(HaltReason::AcpiPmInitFailed));
    assert_eq!(state.clock_source, None);
    assert!(!state.tsc_calibrated);
}

#[test]
fn arch_boot_params_is_a_unit() {
    let a = ArchBootParams::default();
    let b = ArchBootParams {};
    assert_eq!(a, b);
}
