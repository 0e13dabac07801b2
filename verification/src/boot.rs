use vstd::prelude::*;
use crate::HaltReason;
use crate::dtables::CpuTableState;
use crate::dtables::MAX_TABLE_BYTES;
use crate::dtables::load_gdt_from_phys;
use crate::dtables::load_idt_from_phys;
use crate::dtables::spec_table_pointer;
use crate::timer::ClockSource;
use crate::timer::TimerEvents;
use crate::timer::select_clock_source;
use crate::timer::spec_timer_stage;
use crate::tss::TssRegistry;
use crate::tss::spec_blank_segment;

verus! {

/// Architecture-specific boot options: an extensible marker that currently
/// carries no fields.
#[derive(Clone, Copy, Debug, PartialEq, Eq, Structural)]
pub struct ArchBootParams {}

impl Default for ArchBootParams {
    /// The one value of the marker.
    fn default() -> (r: ArchBootParams)
        ensures
            r == (ArchBootParams {  }),
    {
        ArchBootParams {  }
    }
}

/// The four raw values the assembly bootstrap hands the entry trampoline:
/// the boot-info pointer and magic, and the byte sizes of the GDT and IDT
/// storage regions. Consumed once at entry, never retained.
#[derive(Clone, Copy, Debug, PartialEq, Eq, Structural)]
pub struct BootParameters {
    /// Pointer to the bootloader-supplied platform metadata.
    pub boot_info: u64,
    /// Magic value accompanying it; only the low 32 bits are used.
    pub boot_magic: u64,
    /// Byte size of the GDT storage region.
    pub gdt_size: u64,
    /// Byte size of the IDT storage region.
    pub idt_size: u64,
}

/// The low 32 bits of the boot magic: all that the Boot-Info Bridge consumes
/// of it.
pub fn magic_low32(magic: u64) -> (r: u32)
    ensures
        r == magic & 0xFFFF_FFFF,
        r == magic % 0x1_0000_0000,
{
    proof {
        assert(magic & 0xFFFF_FFFF <= 0xFFFF_FFFF) by (bit_vector);
        assert(magic & 0xFFFF_FFFF == magic % 0x1_0000_0000) by (bit_vector);
    }
    (magic & 0xFFFF_FFFF) as u32
}

/// Everything the bring-up sequence of one executing core establishes, as the
/// stages thread it along: the core's descriptor-table registers, the shared
/// per-core Task-Segment registry, and which steps have completed. A halt is
/// modeled as data — once `halt` is set no further stage runs.
#[derive(Debug)]
pub struct BootState {
    /// Descriptor-table registers of the executing core.
    pub tables: CpuTableState,
    /// The per-core Task-Segment registry.
    pub tss: TssRegistry,
    /// Identifier of the executing core.
    pub core: usize,
    /// The task register holds the executing core's segment.
    pub tr_loaded: bool,
    /// Outcome the Boot-Info Bridge reported.
    pub boot_info_parsed: bool,
    /// The magic value the bridge was invoked with, once it was.
    pub bridge_magic_low: Option<u32>,
    /// Trap/exception handlers are installed.
    pub traps_installed: bool,
    /// Control was handed off to generic kernel startup.
    pub handed_off: bool,
    /// The primary early clock source, once the selector activated one.
    pub clock_source: Option<ClockSource>,
    /// The TSC was calibrated against the primary source.
    pub tsc_calibrated: bool,
    /// The diagnostic of the fatal halt, if the boot halted.
    pub halt: Option<HaltReason>,
}

impl BootState {
    /// Ordering facts every stage preserves: handoff only happens with both
    /// descriptor tables loaded, the task register is loaded only after
    /// handoff, traps are enabled only after the task register (trap delivery
    /// needs the interrupt-stack mechanism it installs), a clock source is
    /// selected only with working trap delivery, and the TSC is calibrated
    /// only against a selected primary source.
    pub open spec fn wf(self) -> bool {
        &&& self.core < self.tss.core_count()
        &&& (self.traps_installed ==> self.tr_loaded)
        &&& (self.tr_loaded ==> self.handed_off)
        &&& (self.handed_off ==> self.tables.gdtr is Some && self.tables.idtr is Some)
        &&& (self.clock_source is Some ==> self.traps_installed)
        &&& (self.tsc_calibrated ==> self.clock_source is Some)
    }

    /// The state a core is in when the assembly bootstrap jumps to the entry
    /// trampoline: nothing loaded, nothing configured, nothing parsed.
    pub open spec fn pristine(self) -> bool {
        &&& self.tables.gdtr is None
        &&& self.tables.idtr is None
        &&& !self.tr_loaded
        &&& !self.boot_info_parsed
        &&& self.bridge_magic_low is None
        &&& !self.traps_installed
        &&& !self.handed_off
        &&& self.clock_source is None
        &&& !self.tsc_calibrated
        &&& self.halt is None
    }

    /// Bring-up state of core `core` on a machine with `cores` cores, as the
    /// bootstrap leaves it: pristine, with blank registry entries.
    pub fn startup(cores: usize, core: usize) -> (r: BootState)
        requires
            core < cores,
        ensures
            r.wf(),
            r.pristine(),
            r.core == core,
            r.tss.core_count() == cores,
            forall|c: int| 0 <= c < cores ==> r.tss.segments@[c] == spec_blank_segment(),
    {
        BootState {
            tables: CpuTableState::startup(),
            tss: TssRegistry::new(cores),
            core,
            tr_loaded: false,
            boot_info_parsed: false,
            bridge_magic_low: None,
            traps_installed: false,
            handed_off: false,
            clock_source: None,
            tsc_calibrated: false,
            halt: None,
        }
    }
}

/// The Entry Trampoline: the once-per-core entry operation the bootstrap
/// invokes with the four raw boot parameters. In strict order it translates
/// and loads the GDT, translates and loads the IDT, invokes the Boot-Info
/// Bridge with the low 32 bits of the magic, and hands control to generic
/// kernel startup. The real operation never returns; here the handoff and the
/// halt are recorded in the state, and the result names the halt if one
/// occurred. Translation failure halts before any Task-Segment or trap
/// operation: on failure the registry, the task register and the trap state
/// are exactly as the bootstrap left them.
///
/// `gdt_translation` and `idt_translation` are the memory-management
/// collaborator's answers for the two regions' physical bases; `boot_info_ok`
/// is the bridge's outcome (recorded, not acted on, as the trampoline has no
/// error path for it).
pub fn kernel_main(
    state: &mut BootState,
    params: BootParameters,
    gdt_translation: Option<u64>,
    idt_translation: Option<u64>,
    boot_info_ok: bool,
) -> (r: Result<(), HaltReason>)
    requires
        old(state).wf(),
        old(state).pristine(),
        1 <= params.gdt_size <= MAX_TABLE_BYTES,
        1 <= params.idt_size <= MAX_TABLE_BYTES,
    ensures
        final(state).wf(),
        final(state).core == old(state).core,
        final(state).tss.segments@ == old(state).tss.segments@,
        !final(state).tr_loaded,
        !final(state).traps_installed,
        final(state).clock_source is None,
        !final(state).tsc_calibrated,
        gdt_translation is None ==> {
            &&& r == Err::<(), HaltReason>(HaltReason::GdtTranslationFailed)
            &&& final(state).halt == Some(HaltReason::GdtTranslationFailed)
            &&& final(state).tables == old(state).tables
            &&& !final(state).handed_off
            &&& !final(state).boot_info_parsed
            &&& final(state).bridge_magic_low is None
        },
        gdt_translation is Some && idt_translation is None ==> {
            &&& r == Err::<(), HaltReason>(HaltReason::IdtTranslationFailed)
            &&& final(state).halt == Some(HaltReason::IdtTranslationFailed)
            &&& final(state).tables.gdtr == Some(
                spec_table_pointer(gdt_translation.unwrap(), params.gdt_size),
            )
            &&& final(state).tables.idtr is None
            &&& !final(state).handed_off
            &&& !final(state).boot_info_parsed
            &&& final(state).bridge_magic_low is None
        },
        gdt_translation is Some && idt_translation is Some ==> {
            &&& r == Ok::<(), HaltReason>(())
            &&& final(state).halt is None
            &&& final(state).tables.gdtr == Some(
                spec_table_pointer(gdt_translation.unwrap(), params.gdt_size),
            )
            &&& final(state).tables.idtr == Some(
                spec_table_pointer(idt_translation.unwrap(), params.idt_size),
            )
            &&& final(state).boot_info_parsed == boot_info_ok
            &&& final(state).bridge_magic_low == Some((params.boot_magic & 0xFFFF_FFFF) as u32)
            &&& final(state).handed_off
        },
{
    match load_gdt_from_phys(&mut state.tables, gdt_translation, params.gdt_size) {
        Err(reason) => {
            state.halt = Some(reason);
            return Err(reason);
        },
        Ok(_) => {},
    }
    match load_idt_from_phys(&mut state.tables, idt_translation, params.idt_size) {
        Err(reason) => {
            state.halt = Some(reason);
            return Err(reason);
        },
        Ok(_) => {},
    }
    let magic = magic_low32(params.boot_magic);
    state.bridge_magic_low = Some(magic);
    state.boot_info_parsed = boot_info_ok;
    state.handed_off = true;
    Ok(())
}

/// Program the executing core's Task-Segment: its ring-0 stack pointer and
/// Interrupt Stack Table slot 0. Operates only on `core`'s own registry
/// entry; every other core's segment is untouched.
pub fn set_current_core_tss(registry: &mut TssRegistry, core: usize, stack_start: u64, ist0: u64)
    requires
        core < old(registry).core_count(),
    ensures
        final(registry).core_count() == old(registry).core_count(),
        final(registry).segments@[core as int].ring0_stack == stack_start,
        final(registry).segments@[core as int].ist@ == old(registry).segments@[core as int].ist@
            .update(0, ist0),
        forall|c: int|
            0 <= c < old(registry).core_count() && c != core ==> final(registry).segments@[c]
                == old(registry).segments@[c],
{
    registry.configure(core, stack_start, 0, ist0);
}

/// Early architecture setup, which generic kernel startup runs right after
/// the trampoline's handoff: program the executing core's Task-Segment
/// (ring-0 stack from the boot image, IST slot 0), load the task register so
/// the CPU consults that segment, then invoke the trap installer. A trap
/// installation failure halts the boot — but only after the Task-Segment is
/// already correctly configured and active, so the ordering is preserved even
/// when the sequence ultimately fails.
pub fn early_setup_arch(state: &mut BootState, stack_start: u64, trap_init_ok: bool) -> (r: Result<
    (),
    HaltReason,
>)
    requires
        old(state).wf(),
        old(state).halt is None,
        old(state).handed_off,
        !old(state).tr_loaded,
        !old(state).traps_installed,
        old(state).clock_source is None,
    ensures
        final(state).wf(),
        final(state).core == old(state).core,
        final(state).tables == old(state).tables,
        final(state).boot_info_parsed == old(state).boot_info_parsed,
        final(state).bridge_magic_low == old(state).bridge_magic_low,
        final(state).handed_off,
        final(state).clock_source is None,
        final(state).tsc_calibrated == old(state).tsc_calibrated,
        final(state).tss.core_count() == old(state).tss.core_count(),
        final(state).tss.segments@[old(state).core as int].ring0_stack == stack_start,
        final(state).tss.segments@[old(state).core as int].ist@
            == old(state).tss.segments@[old(state).core as int].ist@.update(0, 0),
        forall|c: int|
            0 <= c < old(state).tss.core_count() && c != old(state).core
                ==> final(state).tss.segments@[c] == old(state).tss.segments@[c],
        final(state).tr_loaded,
        trap_init_ok ==> {
            &&& r == Ok::<(), HaltReason>(())
            &&& final(state).traps_installed
            &&& final(state).halt is None
        },
        !trap_init_ok ==> {
            &&& r == Err::<(), HaltReason>(HaltReason::TrapInitFailed)
            &&& !final(state).traps_installed
            &&& final(state).halt == Some(HaltReason::TrapInitFailed)
        },
{
    let core = state.core;
    set_current_core_tss(&mut state.tss, core, stack_start, 0);
    state.tr_loaded = true;
    if trap_init_ok {
        state.traps_installed = true;
        Ok(())
    } else {
        state.halt = Some(HaltReason::TrapInitFailed);
        Err(HaltReason::TrapInitFailed)
    }
}

/// Architecture setup between the early stage and memory-management
/// initialization. Deliberately empty on this architecture: an explicit
/// extension point that always succeeds.
pub fn setup_arch() -> (r: Result<(), HaltReason>)
    ensures
        r == Ok::<(), HaltReason>(()),
{
    Ok(())
}

/// Idle-stage architecture setup: run the Timer Source Selector over the
/// collaborator outcomes and record what it did. Succeeds exactly when a
/// primary clock source was activated and the TSC calibrated; otherwise the
/// state and the result carry the halt diagnostic of the step that failed.
pub fn setup_arch_post(state: &mut BootState, events: TimerEvents) -> (r: Result<(), HaltReason>)
    requires
        old(state).wf(),
        old(state).halt is None,
        old(state).traps_installed,
        old(state).clock_source is None,
        !old(state).tsc_calibrated,
    ensures
        final(state).wf(),
        final(state).core == old(state).core,
        final(state).tables == old(state).tables,
        final(state).tss.segments@ == old(state).tss.segments@,
        final(state).tr_loaded == old(state).tr_loaded,
        final(state).boot_info_parsed == old(state).boot_info_parsed,
        final(state).bridge_magic_low == old(state).bridge_magic_low,
        final(state).traps_installed,
        final(state).handed_off == old(state).handed_off,
        final(state).clock_source == spec_timer_stage(events).clock_source,
        final(state).tsc_calibrated == spec_timer_stage(events).tsc_calibrated,
        final(state).halt == spec_timer_stage(events).halt,
        r == Ok::<(), HaltReason>(()) <==> spec_timer_stage(events).halt is None,
        spec_timer_stage(events).halt matches Some(h) ==> r == Err::<(), HaltReason>(h),
{
    let report = select_clock_source(events);
    state.clock_source = report.clock_source;
    state.tsc_calibrated = report.tsc_calibrated;
    match report.halt {
        None => Ok(()),
        Some(reason) => {
            state.halt = Some(reason);
            Err(reason)
        },
    }
}

} // verus!
