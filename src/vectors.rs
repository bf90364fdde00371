//! Installation of this runtime's exception vectors: directly, or merged
//! into a vector table that the host already owns, plus the decisions the
//! shared trap handler and the restore step take.

use vstd::prelude::*;
use crate::bytes::{put_u64, u64_at, write_u64};
use crate::paging::DESCRIPTOR_READ_ONLY;

verus! {

/// Distance between two architectural entry slots of a vector table.
pub const VECTOR_SLOT_STRIDE: usize = 0x200;
/// Bytes of each entry slot that hold the trampoline fragment.
pub const VECTOR_SLOT_SIZE: usize = 0x80;
/// Offset of the shared handler body in each of this runtime's tables.
pub const HANDLER_BODY_OFFSET: usize = 0x800;
/// Offset, in the first entry slot, of the relocation-delta cell that the
/// trampolines add to their own address to reach the shared handler body.
pub const RELOC_DELTA_CELL: usize = 0x28;
/// Vector-base values that some hosts leave to say that no table is live.
pub const NO_TABLE_MARKER_A: u64 = 0xF000_0000;
pub const NO_TABLE_MARKER_B: u64 = 0xF100_0000;
/// Width of one instruction, by which a benign trap's return address moves.
pub const INSTRUCTION_SIZE: u64 = 4;

/// How this runtime's vectors are put in force.
#[derive(PartialEq, Eq, Structural, Clone, Copy, Debug)]
pub enum InstallMode {
    /// No live table: point the vector base at this runtime's table.
    Direct,
    /// A host owns a live table: copy the trampolines into it.
    MergePatch,
}

/// No live table is installed at `previous_base`.
pub open spec fn no_live_table(previous_base: u64) -> bool {
    previous_base == 0 || previous_base == NO_TABLE_MARKER_A || previous_base == NO_TABLE_MARKER_B
}

pub open spec fn install_mode_spec(previous_base: u64) -> InstallMode {
    if no_live_table(previous_base) {
        InstallMode::Direct
    } else {
        InstallMode::MergePatch
    }
}

/// Chooses between direct installation and merging from the vector-base
/// value found at start.
pub fn install_mode(previous_base: u64) -> (r: InstallMode)
    ensures
        r == install_mode_spec(previous_base),
{
    if previous_base == 0 || previous_base == NO_TABLE_MARKER_A || previous_base == NO_TABLE_MARKER_B {
        InstallMode::Direct
    } else {
        InstallMode::MergePatch
    }
}

/// Entry slots that apply at exception level `el`: the two current-level
/// slots at EL1, also the two lower-level slots at EL2 and EL3.
pub open spec fn slots_at(el: u8) -> nat {
    if el == 1 {
        2
    } else {
        4
    }
}

pub fn slot_count(el: u8) -> (r: usize)
    requires
        1 <= el <= 3,
    ensures
        r == slots_at(el),
{
    if el == 1 {
        2
    } else {
        4
    }
}

/// Byte `k` of a table lies in the trampoline part of an applicable slot.
pub open spec fn in_copied_slot(k: int, el: u8) -> bool {
    0 <= k && k / (VECTOR_SLOT_STRIDE as int) < slots_at(el) && k % (VECTOR_SLOT_STRIDE as int)
        < VECTOR_SLOT_SIZE
}

/// Bytes of a table that merging reads and writes at level `el`.
pub open spec fn patched_span(el: u8) -> int {
    (slots_at(el) - 1) * VECTOR_SLOT_STRIDE + VECTOR_SLOT_SIZE
}

/// The host table after merging: the trampoline part of each applicable
/// slot copied from this runtime's table, then the delta cell set to
/// `delta`.
pub open spec fn merged(host: Seq<u8>, own: Seq<u8>, el: u8, delta: u64) -> Seq<u8> {
    put_u64(
        Seq::new(host.len(), |k: int| if in_copied_slot(k, el) { own[k] } else { host[k] }),
        RELOC_DELTA_CELL as int,
        delta,
    )
}

/// The value of the delta cell in the host's copy: the distance from this
/// runtime's table to the host's, wrapping.
pub open spec fn delta_for(previous_base: u64, own_base: u64) -> u64 {
    vstd::wrapping::u64_specs::wrapping_sub(previous_base, own_base)
}

/// Merges this runtime's trampolines into the host's table `host`, which
/// lies at `previous_base`; `own` is this runtime's table for level `el`,
/// at `own_base`. Each applicable slot's first 0x80 bytes are copied and the
/// copied delta cell is set so that the trampolines reach the handler body
/// that stays at `own_base`.
pub fn merge_patch(host: &mut Vec<u8>, own: &Vec<u8>, el: u8, previous_base: u64, own_base: u64)
    requires
        1 <= el <= 3,
        old(host).len() >= patched_span(el),
        own.len() >= patched_span(el),
    ensures
        final(host)@ == merged(old(host)@, own@, el, delta_for(previous_base, own_base)),
{
    let ghost h0 = host@;
    let count = slot_count(el);
    let mut slot: usize = 0;
    while slot < count
        invariant
            count == slots_at(el),
            slot <= count,
            host.len() == h0.len(),
            h0.len() >= patched_span(el),
            own.len() >= patched_span(el),
            host@ == Seq::new(
                h0.len(),
                |k: int|
                    if in_copied_slot(k, el) && k / (VECTOR_SLOT_STRIDE as int) < slot {
                        own@[k]
                    } else {
                        h0[k]
                    },
            ),
        decreases count - slot,
    {
        let base = slot * VECTOR_SLOT_STRIDE;
        let mut i: usize = 0;
        while i < VECTOR_SLOT_SIZE
            invariant
                count == slots_at(el),
                slot < count,
                base == slot * VECTOR_SLOT_STRIDE,
                i <= VECTOR_SLOT_SIZE,
                host.len() == h0.len(),
                h0.len() >= patched_span(el),
                own.len() >= patched_span(el),
                host@ == Seq::new(
                    h0.len(),
                    |k: int|
                        if in_copied_slot(k, el) && (k / (VECTOR_SLOT_STRIDE as int) < slot || (k / (
                        VECTOR_SLOT_STRIDE as int) == slot && k % (VECTOR_SLOT_STRIDE as int) < i)) {
                            own@[k]
                        } else {
                            h0[k]
                        },
                ),
            decreases VECTOR_SLOT_SIZE - i,
        {
            assert(base + i < patched_span(el)) by (nonlinear_arith)
                requires
                    base == slot * 0x200,
                    slot < count,
                    count == slots_at(el),
                    i < 0x80,
                    patched_span(el) == (slots_at(el) - 1) * 0x200 + 0x80,
            ;
            host.set(base + i, own[base + i]);
            i += 1;
            assert(host@ =~= Seq::new(
                h0.len(),
                |k: int|
                    if in_copied_slot(k, el) && (k / (VECTOR_SLOT_STRIDE as int) < slot || (k / (
                    VECTOR_SLOT_STRIDE as int) == slot && k % (VECTOR_SLOT_STRIDE as int) < i)) {
                        own@[k]
                    } else {
                        h0[k]
                    },
            ));
        }
        slot += 1;
        assert(host@ =~= Seq::new(
            h0.len(),
            |k: int|
                if in_copied_slot(k, el) && k / (VECTOR_SLOT_STRIDE as int) < slot {
                    own@[k]
                } else {
                    h0[k]
                },
        ));
    }
    assert(host@ =~= Seq::new(h0.len(), |k: int| if in_copied_slot(k, el) { own@[k] } else { h0[k] }));
    write_u64(host, RELOC_DELTA_CELL, previous_base.wrapping_sub(own_base));
}

/// Addresses of the 0x200-byte blocks that merging writes, each of which
/// needs its instruction-cache lines cleaned and invalidated.
pub fn patched_blocks(el: u8, previous_base: u64) -> (r: Vec<u64>)
    requires
        1 <= el <= 3,
    ensures
        r.len() == slots_at(el),
        forall|s: int|
            0 <= s < r.len() ==> r[s] == vstd::wrapping::u64_specs::wrapping_add(
                previous_base,
                (s * 0x200) as u64,
            ),
{
    let count = slot_count(el);
    let mut r: Vec<u64> = Vec::new();
    let mut s: usize = 0;
    while s < count
        invariant
            count == slots_at(el),
            s <= count,
            r.len() == s,
            forall|j: int|
                0 <= j < s ==> r[j] == vstd::wrapping::u64_specs::wrapping_add(
                    previous_base,
                    (j * 0x200) as u64,
                ),
        decreases count - s,
    {
        r.push(previous_base.wrapping_add((s as u64) * 0x200));
        s += 1;
    }
    r
}

/// A descriptor with its write-protect bit cleared.
pub fn descriptor_make_writable(descriptor: u64) -> (r: u64)
    ensures
        r == descriptor & !DESCRIPTOR_READ_ONLY,
        r & DESCRIPTOR_READ_ONLY == 0,
{
    let r = descriptor & !DESCRIPTOR_READ_ONLY;
    assert(r & 0x80u64 == 0) by (bit_vector)
        requires
            r == descriptor & !0x80u64,
    ;
    r
}

/// The exception class field, bits [31:26] of a syndrome value.
pub open spec fn exception_class_of(esr: u64) -> u64 {
    (esr >> 26u64) & 0x3fu64
}

pub fn exception_class(esr: u64) -> (r: u64)
    ensures
        r == exception_class_of(esr),
        r < 64,
{
    assert((esr >> 26u64) & 0x3fu64 < 64u64) by (bit_vector);
    (esr >> 26u64) & 0x3f
}

/// What the shared trap handler does.
#[derive(PartialEq, Eq, Structural, Clone, Copy, Debug)]
pub enum TrapAction {
    /// Resume at this return address.
    Resume(u64),
    /// Report the exception class and faulting address, then halt.
    Fatal { class: u64, address: u64 },
}

/// The shared handler's decision: class 0 (a register access that is not
/// implemented or not permitted at this level) resumes one instruction
/// further on; every other class is fatal.
pub fn handle_trap(esr: u64, elr: u64) -> (r: TrapAction)
    ensures
        exception_class_of(esr) == 0 ==> r == TrapAction::Resume(
            vstd::wrapping::u64_specs::wrapping_add(elr, INSTRUCTION_SIZE),
        ),
        exception_class_of(esr) != 0 ==> r == (TrapAction::Fatal {
            class: exception_class_of(esr),
            address: elr,
        }),
{
    let class = exception_class(esr);
    if class == 0 {
        TrapAction::Resume(elr.wrapping_add(INSTRUCTION_SIZE))
    } else {
        TrapAction::Fatal { class, address: elr }
    }
}

/// General-purpose registers saved on trap entry.
pub struct GPRegisters {
    pub x: [u64; 31],
    pub sp: u64,
}

/// Frame record that links the trap frame into the frame-pointer chain.
pub struct StackFrame {
    pub old_fp: u64,
    pub return_address: u64,
}

/// What the trampolines save before calling the shared handler.
pub struct ExceptionFrame {
    pub gp_regs: GPRegisters,
    pub elr: u64,
    pub spsr: u64,
    pub esr: u64,
    pub padding: u64,
    pub stack_frame: StackFrame,
}

/// The shared handler applied to a saved frame: for class 0 the saved return
/// address moves past the trapping instruction; any other class leaves the
/// frame alone and is reported as fatal.
pub fn handle_exception(ef: &mut ExceptionFrame) -> (r: TrapAction)
    ensures
        exception_class_of(old(ef).esr) == 0 ==> r == TrapAction::Resume(final(ef).elr)
            && final(ef).elr == vstd::wrapping::u64_specs::wrapping_add(old(ef).elr, INSTRUCTION_SIZE),
        exception_class_of(old(ef).esr) != 0 ==> r == (TrapAction::Fatal {
            class: exception_class_of(old(ef).esr),
            address: old(ef).elr,
        }) && final(ef).elr == old(ef).elr,
        final(ef).esr == old(ef).esr,
        final(ef).spsr == old(ef).spsr,
{
    let action = handle_trap(ef.esr, ef.elr);
    if let TrapAction::Resume(next) = action {
        ef.elr = next;
    }
    action
}

/// A register read is trustworthy unless a trap was absorbed during it: the
/// absorbed trap leaves the return address at the instruction after the
/// read, which the probe captured as `marker`.
pub fn probe_register_available(return_address: u64, marker: u64) -> (r: bool)
    ensures
        r == (return_address != marker),
{
    return_address != marker
}

/// The vector-base register through one bootstrap: the value found at start,
/// this runtime's table address, how it was installed, and the register's
/// current value.
pub struct VectorBootstrap {
    pub previous_base: u64,
    pub own_base: u64,
    pub mode: InstallMode,
    pub vbar: u64,
}

/// Register value once the vectors are installed.
pub open spec fn installed_vbar(previous_base: u64, own_base: u64) -> u64 {
    if no_live_table(previous_base) {
        own_base
    } else {
        previous_base
    }
}

/// Register value after the restore step, from the value before it.
pub open spec fn restored_vbar(previous_base: u64, current: u64) -> u64 {
    if previous_base != 0 {
        previous_base
    } else {
        current
    }
}

impl VectorBootstrap {
    /// Inspecting: records the vector base found at start and this runtime's
    /// table for the current level.
    pub fn inspect(vbar: u64, own_base: u64) -> (r: VectorBootstrap)
        ensures
            r.previous_base == vbar,
            r.own_base == own_base,
            r.mode == install_mode_spec(vbar),
            r.vbar == vbar,
    {
        VectorBootstrap { previous_base: vbar, own_base, mode: install_mode(vbar), vbar }
    }

    /// Installs the vectors: a direct install points the register at this
    /// runtime's table, a merge leaves it at the host's patched table.
    /// Returns the value the register must now hold.
    pub fn install(&mut self) -> (r: u64)
        ensures
            final(self).previous_base == old(self).previous_base,
            final(self).own_base == old(self).own_base,
            final(self).mode == old(self).mode,
            old(self).mode == InstallMode::Direct ==> final(self).vbar == old(self).own_base,
            old(self).mode == InstallMode::MergePatch ==> final(self).vbar == old(self).vbar,
            r == final(self).vbar,
    {
        if self.mode == InstallMode::Direct {
            self.vbar = self.own_base;
        }
        self.vbar
    }

    /// Restores the vector base found at start when it was not zero, so that
    /// a caller that expects its own exception environment gets it back.
    /// Returns the value the register must now hold.
    pub fn restore(&mut self) -> (r: u64)
        ensures
            final(self).previous_base == old(self).previous_base,
            final(self).own_base == old(self).own_base,
            final(self).mode == old(self).mode,
            final(self).vbar == restored_vbar(old(self).previous_base, old(self).vbar),
            r == final(self).vbar,
    {
        if self.previous_base != 0 {
            self.vbar = self.previous_base;
        }
        self.vbar
    }
}

/// After merging, the copied delta cell holds the distance from this
/// runtime's table to the host's, and every other byte of the applicable
/// slots' trampoline parts equals this runtime's table.
pub proof fn lemma_merge_patch_copies(host: Seq<u8>, own: Seq<u8>, el: u8, previous_base: u64, own_base: u64)
    requires
        1 <= el <= 3,
        host.len() >= patched_span(el),
        own.len() >= patched_span(el),
    ensures
        u64_at(merged(host, own, el, delta_for(previous_base, own_base)), RELOC_DELTA_CELL as int)
            == vstd::wrapping::u64_specs::wrapping_sub(previous_base, own_base),
        forall|k: int|
            in_copied_slot(k, el) && !(RELOC_DELTA_CELL <= k < RELOC_DELTA_CELL + 8) ==> #[trigger] merged(
                host,
                own,
                el,
                delta_for(previous_base, own_base),
            )[k] == own[k],
        forall|k: int|
            0 <= k < host.len() && !in_copied_slot(k, el) ==> #[trigger] merged(
                host,
                own,
                el,
                delta_for(previous_base, own_base),
            )[k] == host[k],
{
    let copied = Seq::new(host.len(), |k: int| if in_copied_slot(k, el) { own[k] } else { host[k] });
    crate::bytes::lemma_u64_round_trip(copied, RELOC_DELTA_CELL as int, delta_for(previous_base, own_base));
}

/// After a whole bootstrap, installation then restore, the vector base holds
/// the value found at start whenever that value was not zero.
pub proof fn lemma_restore_returns_previous(previous_base: u64, own_base: u64)
    requires
        previous_base != 0,
    ensures
        restored_vbar(previous_base, installed_vbar(previous_base, own_base)) == previous_base,
{
}

} // verus!
