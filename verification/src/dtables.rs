use vstd::prelude::*;
use crate::HaltReason;

verus! {

/// A descriptor-table pointer in the form the CPU's table-load instruction
/// reads: the table's virtual base address and its limit, which is always one
/// less than the table's byte size. Hardware reads it only at load time.
#[derive(Clone, Copy, Debug, PartialEq, Eq, Structural)]
pub struct DescriptorTablePointer {
    /// Virtual base address of the table.
    pub base: u64,
    /// One less than the table's byte size.
    pub limit: u16,
}

/// The CPU-visible descriptor-table registers of one core. `None` models a
/// register this bring-up has not loaded yet (whatever the bootloader left
/// there is unknown and never relied on).
#[derive(Clone, Copy, Debug, PartialEq, Eq)]
pub struct CpuTableState {
    /// The global-descriptor-table register.
    pub gdtr: Option<DescriptorTablePointer>,
    /// The interrupt-descriptor-table register.
    pub idtr: Option<DescriptorTablePointer>,
}

/// Largest byte size whose limit still fits the 16-bit limit field.
pub const MAX_TABLE_BYTES: u64 = 0x1_0000;

/// The pointer the loader constructs for a table whose physical base
/// translated to `virt_base` and whose storage is `byte_size` bytes long.
pub open spec fn spec_table_pointer(virt_base: u64, byte_size: u64) -> DescriptorTablePointer {
    DescriptorTablePointer { base: virt_base, limit: (byte_size - 1) as u16 }
}

/// Effect of a GDT load on the core's table registers: only the GDTR changes.
pub open spec fn spec_load_gdt(s: CpuTableState, p: DescriptorTablePointer) -> CpuTableState {
    CpuTableState { gdtr: Some(p), idtr: s.idtr }
}

/// Effect of an IDT load on the core's table registers: only the IDTR changes.
pub open spec fn spec_load_idt(s: CpuTableState, p: DescriptorTablePointer) -> CpuTableState {
    CpuTableState { gdtr: s.gdtr, idtr: Some(p) }
}

impl CpuTableState {
    /// The registers as this bring-up finds them: neither table loaded by us.
    pub fn startup() -> (r: CpuTableState)
        ensures
            r.gdtr is None,
            r.idtr is None,
    {
        CpuTableState { gdtr: None, idtr: None }
    }
}

/// Construct the pointer for a table at virtual base `virt_base` with
/// `byte_size` bytes of storage. The limit is exactly `byte_size - 1`.
pub fn make_table_pointer(virt_base: u64, byte_size: u64) -> (r: DescriptorTablePointer)
    requires
        1 <= byte_size <= MAX_TABLE_BYTES,
    ensures
        r == spec_table_pointer(virt_base, byte_size),
        r.base == virt_base,
        r.limit == byte_size - 1,
{
    DescriptorTablePointer { base: virt_base, limit: (byte_size - 1) as u16 }
}

/// Load the GDT register. The only effect is that the GDTR now holds `ptr`.
pub fn load_gdt(state: &mut CpuTableState, ptr: DescriptorTablePointer)
    ensures
        *final(state) == spec_load_gdt(*old(state), ptr),
        final(state).gdtr == Some(ptr),
        final(state).idtr == old(state).idtr,
{
    state.gdtr = Some(ptr);
}

/// Load the IDT register. The only effect is that the IDTR now holds `ptr`.
pub fn load_idt(state: &mut CpuTableState, ptr: DescriptorTablePointer)
    ensures
        *final(state) == spec_load_idt(*old(state), ptr),
        final(state).idtr == Some(ptr),
        final(state).gdtr == old(state).gdtr,
{
    state.idtr = Some(ptr);
}

/// Descriptor Table Loader for the GDT: given the outcome of translating the
/// table region's physical base and the region's byte size, construct the
/// pointer and load it. Exactly when translation yielded no address, nothing
/// is loaded and the fatal reason is returned; otherwise the produced pointer
/// has base == the translated address and limit == byte_size - 1.
pub fn load_gdt_from_phys(
    state: &mut CpuTableState,
    translated: Option<u64>,
    byte_size: u64,
) -> (r: Result<DescriptorTablePointer, HaltReason>)
    requires
        1 <= byte_size <= MAX_TABLE_BYTES,
    ensures
        translated is None ==> r == Err::<DescriptorTablePointer, HaltReason>(
            HaltReason::GdtTranslationFailed,
        ) && *final(state) == *old(state),
        translated matches Some(v) ==> r == Ok::<DescriptorTablePointer, HaltReason>(
            spec_table_pointer(v, byte_size),
        ) && *final(state) == spec_load_gdt(*old(state), spec_table_pointer(v, byte_size)),
{
    match translated {
        None => Err(HaltReason::GdtTranslationFailed),
        Some(virt_base) => {
            let ptr = make_table_pointer(virt_base, byte_size);
            load_gdt(state, ptr);
            Ok(ptr)
        },
    }
}

/// Descriptor Table Loader for the IDT; the IDT counterpart of
/// `load_gdt_from_phys`, with the same translation-failure contract.
pub fn load_idt_from_phys(
    state: &mut CpuTableState,
    translated: Option<u64>,
    byte_size: u64,
) -> (r: Result<DescriptorTablePointer, HaltReason>)
    requires
        1 <= byte_size <= MAX_TABLE_BYTES,
    ensures
        translated is None ==> r == Err::<DescriptorTablePointer, HaltReason>(
            HaltReason::IdtTranslationFailed,
        ) && *final(state) == *old(state),
        translated matches Some(v) ==> r == Ok::<DescriptorTablePointer, HaltReason>(
            spec_table_pointer(v, byte_size),
        ) && *final(state) == spec_load_idt(*old(state), spec_table_pointer(v, byte_size)),
{
    match translated {
        None => Err(HaltReason::IdtTranslationFailed),
        Some(virt_base) => {
            let ptr = make_table_pointer(virt_base, byte_size);
            load_idt(state, ptr);
            Ok(ptr)
        },
    }
}

/// Loading a table is idempotent: repeating a load with identical inputs
/// leaves the CPU-visible table state exactly as the first load left it.
pub proof fn lemma_table_load_idempotent(s: CpuTableState, p: DescriptorTablePointer)
    ensures
        spec_load_gdt(spec_load_gdt(s, p), p) == spec_load_gdt(s, p),
        spec_load_idt(spec_load_idt(s, p), p) == spec_load_idt(s, p),
{
}

} // verus!
