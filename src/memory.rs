//! Storage cells, the central registers, erasable and fixed memory, and the
//! address map that joins them.
//!
//! Addresses are twelve bits wide. 0..=7 are the central registers, 8..=47
//! the special locations (not implemented), 48..=1023 erasable memory and
//! 1024..=4095 fixed memory. Of erasable memory the cells 48..=511 exist; of
//! fixed memory the bank 2048..=3071, which the program image fills.
use vstd::prelude::*;
use crate::arith::{extended, sign_extend};

verus! {

/// A machine word (fifteen bits, or sixteen in accumulator form).
pub type Word = u16;

/// A twelve-bit address anywhere in the map.
pub type Address = u16;

/// An address in fixed memory.
pub type FixedAddress = u16;

/// A ten-bit address in erasable memory.
pub type ErasableAddress = u16;

/// The accumulator.
pub const ACC: Address = 0;

/// The lower product register.
pub const L: Address = 1;

/// The return address register.
pub const Q: Address = 2;

/// The erasable bank register.
pub const EB: Address = 3;

/// The fixed bank register.
pub const FB: Address = 4;

/// The program counter.
pub const Z: Address = 5;

/// Both bank registers in one word.
pub const BB: Address = 6;

/// The register wired to zero.
pub const ZERO: Address = 7;

/// First address of erasable memory.
pub const ERASABLE_START: Address = 48;

/// First erasable address past the cells that exist.
pub const ERASABLE_END: Address = 512;

/// Number of erasable cells that exist.
pub const ERASABLE_CELLS: usize = 464;

/// First address of fixed memory.
pub const FIXED_BASE: Address = 1024;

/// First address of the fixed bank that exists.
pub const FIXED_START: Address = 2048;

/// First fixed address past that bank.
pub const FIXED_END: Address = 3072;

/// Number of cells in the fixed bank.
pub const FIXED_CELLS: usize = 1024;

/// Why a memory access or an instruction could not be carried out.
#[derive(Debug, Clone, Copy, PartialEq, Eq, Structural)]
pub enum AgcError {
    /// A special location 8..=47, which this machine does not implement.
    ReservedAddress(Address),
    /// An address in a memory bank that this machine does not implement.
    UnimplementedBank(Address),
    /// A write to fixed memory.
    WriteToFixed(Address),
    /// A write to the register wired to zero.
    WriteToZero,
    /// An instruction of the machine that this emulator does not implement.
    UnimplementedInstruction(Word),
    /// A bit pattern that encodes no instruction.
    UndefinedInstruction(Word),
}

/// The values held by the central registers. `bb` holds the fixed bank in
/// bits 10..=14 and the erasable bank in bits 0..=2.
pub struct RegView {
    pub acc: u16,
    pub l: u16,
    pub q: u16,
    pub bb: u16,
    pub z: u16,
}

impl RegView {
    /// What reading register `k` gives.
    pub open spec fn read(self, k: u16) -> u16 {
        if k == ACC {
            self.acc
        } else if k == L {
            self.l
        } else if k == Q {
            self.q
        } else if k == EB {
            ((self.bb & 0x0007) << 8u16) as u16
        } else if k == FB {
            self.bb & 0x7C00
        } else if k == Z {
            self.z
        } else if k == BB {
            self.bb
        } else {
            0
        }
    }

    /// The registers after writing `v` to register `k`, cut to its width.
    pub open spec fn write(self, k: u16, v: u16) -> RegView {
        if k == ACC {
            RegView { acc: v, ..self }
        } else if k == L {
            RegView { l: v & 0x7FFF, ..self }
        } else if k == Q {
            RegView { q: v, ..self }
        } else if k == EB {
            RegView { bb: (self.bb & 0x7C00) | ((v & 0x0700) >> 8u16), ..self }
        } else if k == FB {
            RegView { bb: (self.bb & 0x0007) | (v & 0x7C00), ..self }
        } else if k == Z {
            RegView { z: v & 0x0FFF, ..self }
        } else if k == BB {
            RegView { bb: v & 0x7FFF, ..self }
        } else {
            self
        }
    }
}

/// The whole state of the machine: registers, memory and control flags.
pub struct MemView {
    pub regs: RegView,
    /// Erasable cells 48..=511, in order.
    pub erasable: Seq<u16>,
    /// Fixed cells 2048..=3071, in order.
    pub fixed: Seq<u16>,
    /// The extended-instruction flag.
    pub extended: bool,
    /// The interrupt-enable flag.
    pub interrupts: bool,
    /// The bias added to the next instruction word.
    pub index: u16,
}

impl MemView {
    /// The memories have their sizes, the program counter twelve bits, and
    /// every fifteen-bit location (L, BB, the memory cells) at most 0x7FFF.
    pub open spec fn wf(self) -> bool {
        &&& self.erasable.len() == ERASABLE_CELLS
        &&& self.fixed.len() == FIXED_CELLS
        &&& self.regs.z <= 0x0FFF
        &&& self.regs.l <= 0x7FFF
        &&& self.regs.bb <= 0x7FFF
        &&& forall|i: int| 0 <= i < ERASABLE_CELLS ==> #[trigger] self.erasable[i] <= 0x7FFF
        &&& forall|i: int| 0 <= i < FIXED_CELLS ==> #[trigger] self.fixed[i] <= 0x7FFF
    }

    /// The state at power-on: everything zero, the program counter at the
    /// start of fixed memory, fixed memory as given.
    pub open spec fn initial(fixed: Seq<u16>) -> MemView {
        MemView {
            regs: RegView { acc: 0, l: 0, q: 0, bb: 0, z: FIXED_START },
            erasable: Seq::new(ERASABLE_CELLS as nat, |i: int| 0u16),
            fixed,
            extended: false,
            interrupts: false,
            index: 0,
        }
    }

    /// The state after writing `v` to register `k`.
    pub open spec fn with_reg(self, k: u16, v: u16) -> MemView {
        MemView { regs: self.regs.write(k, v), ..self }
    }

    /// What reading address `k` (cut to twelve bits) gives.
    pub open spec fn read(self, k: u16) -> Result<u16, AgcError> {
        let a = k & 0x0FFF;
        if a < 8 {
            Ok(self.regs.read(a))
        } else if a < ERASABLE_START {
            Err(AgcError::ReservedAddress(a))
        } else if a < ERASABLE_END {
            Ok(self.erasable[a - ERASABLE_START])
        } else if FIXED_START <= a < FIXED_END {
            Ok(self.fixed[a - FIXED_START])
        } else {
            Err(AgcError::UnimplementedBank(a))
        }
    }

    /// The state after writing `v` to address `k` (cut to twelve bits).
    /// Erasable memory keeps fifteen bits; registers keep their width.
    pub open spec fn write(self, k: u16, v: u16) -> Result<MemView, AgcError> {
        let a = k & 0x0FFF;
        if a < 8 {
            if a == ZERO {
                Err(AgcError::WriteToZero)
            } else {
                Ok(MemView { regs: self.regs.write(a, v), ..self })
            }
        } else if a < ERASABLE_START {
            Err(AgcError::ReservedAddress(a))
        } else if a < ERASABLE_END {
            Ok(MemView { erasable: self.erasable.update(a - ERASABLE_START, v & 0x7FFF), ..self })
        } else if a < FIXED_BASE {
            Err(AgcError::UnimplementedBank(a))
        } else {
            Err(AgcError::WriteToFixed(a))
        }
    }
}

/// A register write keeps every register within its width.
pub proof fn lemma_register_write_bounds(r: RegView, k: u16, v: u16)
    requires
        r.z <= 0x0FFF,
        r.l <= 0x7FFF,
        r.bb <= 0x7FFF,
    ensures
        r.write(k, v).z <= 0x0FFF,
        r.write(k, v).l <= 0x7FFF,
        r.write(k, v).bb <= 0x7FFF,
{
    let bb = r.bb;
    assert((v & 0x0FFF) <= 0x0FFF && (v & 0x7FFF) <= 0x7FFF) by (bit_vector);
    assert(((bb & 0x7C00) | ((v & 0x0700) >> 8u16)) <= 0x7FFF && ((bb & 0x0007) | (v & 0x7C00))
        <= 0x7FFF) by (bit_vector);
}

/// A write that succeeds keeps the state well formed.
pub proof fn lemma_write_keeps_wf(m: MemView, k: u16, v: u16)
    requires
        m.wf(),
    ensures
        match m.write(k, v) {
            Ok(m2) => m2.wf(),
            Err(_) => true,
        },
{
    lemma_register_write_bounds(m.regs, k & 0x0FFF, v);
    assert((v & 0x7FFF) <= 0x7FFF) by (bit_vector);
    match m.write(k, v) {
        Ok(m2) => {
            assert forall|i: int| 0 <= i < ERASABLE_CELLS implies #[trigger] m2.erasable[i] <= 0x7FFF by {
                if (k & 0x0FFF) >= ERASABLE_START {
                    assert(m2.erasable == m.erasable.update((k & 0x0FFF) - ERASABLE_START, v & 0x7FFF));
                }
            }
        },
        Err(_) => {},
    }
}

/// `r` reports what `expected` says, and on success the state is `after`.
pub open spec fn applied(r: Result<(), AgcError>, after: MemView, expected: Result<MemView, AgcError>) -> bool {
    match expected {
        Ok(m) => r is Ok && after == m,
        Err(e) => r == Err::<(), AgcError>(e),
    }
}

/// Whether address `k` holds a sixteen-bit accumulator-form value.
pub open spec fn wide(k: u16) -> bool {
    k == ACC || k == Q
}

/// True for the accumulator and the return register, the two locations that
/// keep the sixteen-bit accumulator form.
pub fn is_16bit(k: Address) -> (r: bool)
    ensures
        r == wide(k),
{
    k == ACC || k == Q
}

/// A single sixteen-bit storage cell.
#[derive(Debug, Clone, Copy)]
pub struct Memloc {
    val: u16,
}

impl View for Memloc {
    type V = u16;

    closed spec fn view(&self) -> u16 {
        self.val
    }
}

impl Memloc {
    pub fn new(n: u16) -> (r: Memloc)
        ensures
            r@ == n,
    {
        Memloc { val: n }
    }

    pub fn read(&self) -> (r: Word)
        ensures
            r == self@,
    {
        self.val
    }

    pub fn write(&mut self, val: Word)
        ensures
            final(self)@ == val,
    {
        self.val = val;
    }
}

/// The central registers 0..=6; register 7 reads as zero and holds nothing.
#[derive(Debug)]
pub struct CentralRegisters {
    acc: Memloc,
    l: Memloc,
    q: Memloc,
    bb: Memloc,
    z: Memloc,
}

impl View for CentralRegisters {
    type V = RegView;

    closed spec fn view(&self) -> RegView {
        RegView {
            acc: self.acc@,
            l: self.l@,
            q: self.q@,
            bb: self.bb@,
            z: self.z@,
        }
    }
}

impl CentralRegisters {
    pub fn new() -> (r: CentralRegisters)
        ensures
            r@ == (RegView { acc: 0, l: 0, q: 0, bb: 0, z: FIXED_START }),
    {
        CentralRegisters {
            acc: Memloc::new(0),
            l: Memloc::new(0),
            q: Memloc::new(0),
            bb: Memloc::new(0),
            z: Memloc::new(FIXED_START),
        }
    }

    pub fn read(&self, k: ErasableAddress) -> (r: u16)
        requires
            k < 8,
        ensures
            r == self@.read(k),
    {
        if k == ACC {
            self.acc.read()
        } else if k == L {
            self.l.read()
        } else if k == Q {
            self.q.read()
        } else if k == EB {
            (self.bb.read() & 0x0007) << 8u16
        } else if k == FB {
            self.bb.read() & 0x7C00
        } else if k == Z {
            self.z.read()
        } else if k == BB {
            self.bb.read()
        } else {
            0
        }
    }

    /// Writes register `k`, cut to its width. Register 7 cannot be written.
    pub fn write(&mut self, k: ErasableAddress, val: u16) -> (r: Result<(), AgcError>)
        requires
            k < 8,
        ensures
            k == ZERO ==> r == Err::<(), AgcError>(AgcError::WriteToZero) && final(self)@ == old(self)@,
            k != ZERO ==> r is Ok && final(self)@ == old(self)@.write(k, val),
    {
        if k == ACC {
            self.acc.write(val);
        } else if k == L {
            self.l.write(val & 0x7FFF);
        } else if k == Q {
            self.q.write(val);
        } else if k == EB {
            let bb = self.bb.read();
            self.bb.write((bb & 0x7C00) | ((val & 0x0700) >> 8u16));
        } else if k == FB {
            let bb = self.bb.read();
            self.bb.write((bb & 0x0007) | (val & 0x7C00));
        } else if k == Z {
            self.z.write(val & 0x0FFF);
        } else if k == BB {
            self.bb.write(val & 0x7FFF);
        } else {
            return Err(AgcError::WriteToZero);
        }
        Ok(())
    }
}

/// The erasable cells 48..=511.
#[derive(Debug)]
pub struct ErasableMemory {
    cells: Vec<Memloc>,
}

impl View for ErasableMemory {
    type V = Seq<u16>;

    closed spec fn view(&self) -> Seq<u16> {
        self.cells@.map_values(|c: Memloc| c@)
    }
}

impl ErasableMemory {
    pub fn new() -> (r: ErasableMemory)
        ensures
            r@ == Seq::new(ERASABLE_CELLS as nat, |i: int| 0u16),
    {
        let mut cells: Vec<Memloc> = Vec::new();
        let mut i: usize = 0;
        while i < ERASABLE_CELLS
            invariant
                i <= ERASABLE_CELLS,
                cells@.len() == i,
                forall|j: int| 0 <= j < i ==> cells@[j]@ == 0,
            decreases ERASABLE_CELLS - i,
        {
            cells.push(Memloc::new(0));
            i = i + 1;
        }
        let r = ErasableMemory { cells };
        assert(r@ =~= Seq::new(ERASABLE_CELLS as nat, |i: int| 0u16));
        r
    }

    /// The cell at address `k`; only the implemented bank can be read.
    pub fn read(&self, k: ErasableAddress) -> (r: Result<Word, AgcError>)
        requires
            self@.len() == ERASABLE_CELLS,
        ensures
            r == if ERASABLE_START <= k < ERASABLE_END {
                Ok::<Word, AgcError>(self@[k - ERASABLE_START])
            } else {
                Err::<Word, AgcError>(AgcError::UnimplementedBank(k))
            },
    {
        if k < ERASABLE_START || k >= ERASABLE_END {
            return Err(AgcError::UnimplementedBank(k));
        }
        Ok(self.cells[(k - ERASABLE_START) as usize].read())
    }

    /// Stores the low fifteen bits of `val` at address `k`; only the
    /// implemented bank can be written.
    pub fn write(&mut self, k: ErasableAddress, val: Word) -> (r: Result<(), AgcError>)
        requires
            old(self)@.len() == ERASABLE_CELLS,
        ensures
            ERASABLE_START <= k < ERASABLE_END ==> r is Ok && final(self)@ == old(self)@.update(
                k - ERASABLE_START,
                val & 0x7FFF,
            ),
            !(ERASABLE_START <= k < ERASABLE_END) ==> r == Err::<(), AgcError>(
                AgcError::UnimplementedBank(k),
            ) && final(self)@ == old(self)@,
    {
        if k < ERASABLE_START || k >= ERASABLE_END {
            return Err(AgcError::UnimplementedBank(k));
        }
        let i = (k - ERASABLE_START) as usize;
        self.cells.set(i, Memloc::new(val & 0x7FFF));
        assert(self@ =~= old(self)@.update(i as int, val & 0x7FFF));
        Ok(())
    }
}

/// The fixed bank 2048..=3071, read-only to programs.
#[derive(Debug)]
pub struct FixedMemory {
    cells: Vec<Memloc>,
}

impl View for FixedMemory {
    type V = Seq<u16>;

    closed spec fn view(&self) -> Seq<u16> {
        self.cells@.map_values(|c: Memloc| c@)
    }
}

impl FixedMemory {
    pub fn new() -> (r: FixedMemory)
        ensures
            r@ == Seq::new(FIXED_CELLS as nat, |i: int| 0u16),
    {
        let mut cells: Vec<Memloc> = Vec::new();
        let mut i: usize = 0;
        while i < FIXED_CELLS
            invariant
                i <= FIXED_CELLS,
                cells@.len() == i,
                forall|j: int| 0 <= j < i ==> cells@[j]@ == 0,
            decreases FIXED_CELLS - i,
        {
            cells.push(Memloc::new(0));
            i = i + 1;
        }
        let r = FixedMemory { cells };
        assert(r@ =~= Seq::new(FIXED_CELLS as nat, |i: int| 0u16));
        r
    }

    /// The cell at address `k`; only the implemented bank can be read.
    pub fn read(&self, k: FixedAddress) -> (r: Result<Word, AgcError>)
        requires
            self@.len() == FIXED_CELLS,
        ensures
            r == if FIXED_START <= k < FIXED_END {
                Ok::<Word, AgcError>(self@[k - FIXED_START])
            } else {
                Err::<Word, AgcError>(AgcError::UnimplementedBank(k))
            },
    {
        if k < FIXED_START || k >= FIXED_END {
            return Err(AgcError::UnimplementedBank(k));
        }
        Ok(self.cells[(k - FIXED_START) as usize].read())
    }

    /// Stores the low fifteen bits of `val` at address `k`. This is the
    /// loader's way in; programs cannot write fixed memory.
    pub fn write(&mut self, k: FixedAddress, val: Word) -> (r: Result<(), AgcError>)
        requires
            old(self)@.len() == FIXED_CELLS,
        ensures
            FIXED_START <= k < FIXED_END ==> r is Ok && final(self)@ == old(self)@.update(
                k - FIXED_START,
                val & 0x7FFF,
            ),
            !(FIXED_START <= k < FIXED_END) ==> r == Err::<(), AgcError>(
                AgcError::UnimplementedBank(k),
            ) && final(self)@ == old(self)@,
    {
        if k < FIXED_START || k >= FIXED_END {
            return Err(AgcError::UnimplementedBank(k));
        }
        let i = (k - FIXED_START) as usize;
        self.cells.set(i, Memloc::new(val & 0x7FFF));
        assert(self@ =~= old(self)@.update(i as int, val & 0x7FFF));
        Ok(())
    }
}

/// The register and memory map with the control flags: the whole machine
/// state, with one owner.
#[derive(Debug)]
pub struct Memory {
    central_registers: CentralRegisters,
    erasable: ErasableMemory,
    fixed: FixedMemory,
    /// The extended-instruction flag.
    extended: bool,
    /// The interrupt-enable flag.
    interrupts: bool,
    /// The bias added to the next instruction word.
    index: Memloc,
}

impl View for Memory {
    type V = MemView;

    closed spec fn view(&self) -> MemView {
        MemView {
            regs: self.central_registers@,
            erasable: self.erasable@,
            fixed: self.fixed@,
            extended: self.extended,
            interrupts: self.interrupts,
            index: self.index@,
        }
    }
}

impl Memory {
    pub open spec fn wf(&self) -> bool {
        self@.wf()
    }

    /// A machine at power-on with empty fixed memory.
    pub fn new() -> (r: Memory)
        ensures
            r.wf(),
            r@ == MemView::initial(Seq::new(FIXED_CELLS as nat, |i: int| 0u16)),
    {
        Memory {
            central_registers: CentralRegisters::new(),
            erasable: ErasableMemory::new(),
            fixed: FixedMemory::new(),
            extended: false,
            interrupts: false,
            index: Memloc::new(0),
        }
    }

    /// Writes `val` to address `k` (cut to twelve bits). Erasable memory
    /// keeps the low fifteen bits; a register keeps its own width. Fixed
    /// memory, register 7, the special locations and the missing banks
    /// refuse the write and nothing changes.
    pub fn write(&mut self, k: Address, val: u16) -> (r: Result<(), AgcError>)
        requires
            old(self).wf(),
        ensures
            final(self).wf(),
            match old(self)@.write(k, val) {
                Ok(m) => r is Ok && final(self)@ == m,
                Err(e) => r == Err::<(), AgcError>(e) && final(self)@ == old(self)@,
            },
            r is Err <==> (k & 0x0FFF) == ZERO || (8 <= (k & 0x0FFF) < ERASABLE_START) || (k
                & 0x0FFF) >= ERASABLE_END,
    {
        proof {
            lemma_write_keeps_wf(old(self)@, k, val);
        }
        let k: Address = k & 0x0FFF;
        if k < 8 {
            self.central_registers.write(k, val)
        } else if k < ERASABLE_START {
            Err(AgcError::ReservedAddress(k))
        } else if k < FIXED_BASE {
            self.erasable.write(k, val)
        } else {
            Err(AgcError::WriteToFixed(k))
        }
    }

    /// Reads address `k` (cut to twelve bits).
    pub fn read(&self, k: Address) -> (r: Result<Word, AgcError>)
        requires
            self.wf(),
        ensures
            r == self@.read(k),
    {
        let k: Address = k & 0x0FFF;
        if k < 8 {
            Ok(self.central_registers.read(k))
        } else if k < ERASABLE_START {
            Err(AgcError::ReservedAddress(k))
        } else if k < FIXED_BASE {
            self.erasable.read(k)
        } else {
            self.fixed.read(k)
        }
    }

    /// Stores a fifteen-bit value in the accumulator in accumulator form.
    pub fn write_acc_signed(&mut self, val: Word)
        requires
            old(self).wf(),
        ensures
            final(self)@ == (MemView { regs: old(self)@.regs.write(ACC, extended(val)), ..old(self)@ }),
    {
        let v = sign_extend(val);
        self.central_registers.acc.write(v);
    }

    /// The value of register `k`.
    pub fn register(&self, k: Address) -> (r: u16)
        requires
            k < 8,
        ensures
            r == self@.regs.read(k),
    {
        self.central_registers.read(k)
    }

    /// Writes register `k`, cut to its width; register 7 is not writable.
    pub(crate) fn set_register(&mut self, k: Address, v: u16)
        requires
            old(self).wf(),
            k < ZERO,
        ensures
            final(self).wf(),
            final(self)@ == old(self)@.with_reg(k, v),
    {
        // Registers below ZERO accept every write.
        let _ = self.central_registers.write(k, v);
        proof {
            lemma_register_write_bounds(old(self)@.regs, k, v);
        }
    }

    /// Places `val` at fixed address `k`: the loader's way to fill fixed
    /// memory before a program runs.
    pub fn load_fixed(&mut self, k: FixedAddress, val: Word) -> (r: Result<(), AgcError>)
        requires
            old(self).wf(),
        ensures
            final(self).wf(),
            FIXED_START <= k < FIXED_END ==> r is Ok && final(self)@ == (MemView {
                fixed: old(self)@.fixed.update(k - FIXED_START, val & 0x7FFF),
                ..old(self)@
            }),
            !(FIXED_START <= k < FIXED_END) ==> r == Err::<(), AgcError>(
                AgcError::UnimplementedBank(k),
            ) && final(self)@ == old(self)@,
    {
        let r = self.fixed.write(k, val);
        proof {
            assert((val & 0x7FFF) <= 0x7FFF) by (bit_vector);
            assert forall|i: int| 0 <= i < FIXED_CELLS implies #[trigger] self@.fixed[i] <= 0x7FFF by {
                if FIXED_START <= k < FIXED_END && i == k - FIXED_START {
                } else {
                    assert(self@.fixed[i] == old(self)@.fixed[i]);
                }
            }
        }
        r
    }

    /// Fills fixed memory from the start of the bank with a program image.
    pub fn load_program(&mut self, image: &Vec<u16>)
        requires
            old(self).wf(),
            image@.len() <= FIXED_CELLS,
        ensures
            final(self).wf(),
            final(self)@ == (MemView {
                fixed: Seq::new(
                    FIXED_CELLS as nat,
                    |i: int|
                        if i < image@.len() {
                            image@[i] & 0x7FFF
                        } else {
                            old(self)@.fixed[i]
                        },
                ),
                ..old(self)@
            }),
    {
        let mut i: usize = 0;
        while i < image.len()
            invariant
                i <= image@.len() <= FIXED_CELLS,
                self.wf(),
                self@ == (MemView { fixed: self@.fixed, ..old(self)@ }),
                forall|j: int| 0 <= j < i ==> self@.fixed[j] == image@[j] & 0x7FFF,
                forall|j: int| i <= j < FIXED_CELLS ==> self@.fixed[j] == old(self)@.fixed[j],
            decreases image@.len() - i,
        {
            // Every address of the bank accepts the word.
            let _ = self.load_fixed(FIXED_START + i as u16, image[i]);
            i = i + 1;
        }
        assert(self@.fixed =~= Seq::new(
            FIXED_CELLS as nat,
            |i: int|
                if i < image@.len() {
                    image@[i] & 0x7FFF
                } else {
                    old(self)@.fixed[i]
                },
        ));
    }

    /// Turns the extended-instruction flag on.
    pub fn set_extracode(&mut self)
        ensures
            final(self)@ == (MemView { extended: true, ..old(self)@ }),
    {
        self.extended = true;
    }

    /// Turns the extended-instruction flag off.
    pub fn clear_extracode(&mut self)
        ensures
            final(self)@ == (MemView { extended: false, ..old(self)@ }),
    {
        self.extended = false;
    }

    /// Whether the next instruction is read from the extended set.
    pub fn extracode(&self) -> (r: bool)
        ensures
            r == self@.extended,
    {
        self.extended
    }

    /// Enables interrupts.
    pub fn relint(&mut self)
        ensures
            final(self)@ == (MemView { interrupts: true, ..old(self)@ }),
    {
        self.interrupts = true;
    }

    /// Inhibits interrupts.
    pub fn inhint(&mut self)
        ensures
            final(self)@ == (MemView { interrupts: false, ..old(self)@ }),
    {
        self.interrupts = false;
    }

    /// Whether interrupts are enabled.
    pub fn interrupts_enabled(&self) -> (r: bool)
        ensures
            r == self@.interrupts,
    {
        self.interrupts
    }

    /// Arms the bias for the next instruction word.
    pub fn set_index(&mut self, val: Word)
        ensures
            final(self)@ == (MemView { index: val, ..old(self)@ }),
    {
        self.index.write(val);
    }

    /// Clears the bias.
    pub fn clear_index(&mut self)
        ensures
            final(self)@ == (MemView { index: 0, ..old(self)@ }),
    {
        self.index.write(0);
    }

    /// The bias for the next instruction word.
    pub fn get_index(&self) -> (r: Word)
        ensures
            r == self@.index,
    {
        self.index.read()
    }
}

} // verus!
