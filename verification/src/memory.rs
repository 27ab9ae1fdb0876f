//! PIC12F629/675 memory system: 1024 x 14-bit program flash, 128 bytes of
//! banked data RAM inside a 256-byte flat store, the 8-level hardware
//! return stack, and 128 bytes of data EEPROM.

use vstd::prelude::*;
use crate::bits::{lemma_mask_10bit, lemma_mask_14bit, lemma_mask_7bit, lemma_bank_fold};

verus! {

/// Program memory size: 1024 words of 14-bit instructions.
pub const PROGRAM_MEMORY_SIZE: usize = 1024;

/// Data memory backing-store size in bytes.
pub const DATA_MEMORY_SIZE: usize = 256;

/// Stack depth: 8 levels.
pub const STACK_DEPTH: usize = 8;

/// EEPROM size: 128 bytes.
pub const EEPROM_SIZE: usize = 128;

/// Mathematical model of the memory system.
#[verifier::ext_equal]
pub ghost struct MemView {
    pub program: Seq<u16>,
    pub data: Seq<u8>,
    pub stack: Seq<u16>,
    pub sp: int,
    pub eeprom: Seq<u8>,
}

impl MemView {
    /// The sizes are those of the device, the stack pointer stays in
    /// range, and program words keep their upper two bits clear.
    pub open spec fn wf(self) -> bool {
        &&& self.program.len() == PROGRAM_MEMORY_SIZE
        &&& self.data.len() == DATA_MEMORY_SIZE
        &&& self.stack.len() == STACK_DEPTH
        &&& self.eeprom.len() == EEPROM_SIZE
        &&& 0 <= self.sp <= STACK_DEPTH
        &&& forall|i: int| 0 <= i < PROGRAM_MEMORY_SIZE ==> #[trigger] self.program[i] < 0x4000
    }
}

/// The memory model after a stack push: a full stack discards its
/// oldest entry and shifts, otherwise the address lands at the stack
/// pointer, which advances. The pushed address is masked to 13 bits.
pub open spec fn spec_push_stack(m: MemView, address: u16) -> MemView {
    let a = address & 0x1FFF;
    if m.sp >= STACK_DEPTH {
        MemView { stack: m.stack.subrange(1, STACK_DEPTH as int).push(a), ..m }
    } else {
        MemView { stack: m.stack.update(m.sp, a), sp: m.sp + 1, ..m }
    }
}

/// The memory model after a stack pop, with the popped address: an
/// empty stack yields 0 and stays put.
pub open spec fn spec_pop_stack(m: MemView) -> (MemView, u16) {
    if m.sp == 0 {
        (m, 0)
    } else {
        (MemView { sp: m.sp - 1, ..m }, m.stack[m.sp - 1])
    }
}

/// Memory system for the PIC12F629/675.
pub struct Memory {
    /// Program memory (flash): 1024 x 14-bit instructions.
    pub program_memory: [u16; PROGRAM_MEMORY_SIZE],
    /// Data memory (RAM), banked; Bank 1 folds into the same flat store.
    pub data_memory: [u8; DATA_MEMORY_SIZE],
    /// Hardware stack: 8 levels of 13-bit return addresses.
    pub stack: [u16; STACK_DEPTH],
    /// Stack pointer (0-8; 8 means full).
    pub stack_pointer: usize,
    /// EEPROM data memory: 128 bytes, not cleared on reset.
    pub eeprom: [u8; EEPROM_SIZE],
}

impl View for Memory {
    type V = MemView;

    open spec fn view(&self) -> MemView {
        MemView {
            program: self.program_memory@,
            data: self.data_memory@,
            stack: self.stack@,
            sp: self.stack_pointer as int,
            eeprom: self.eeprom@,
        }
    }
}

impl Memory {
    /// The stack pointer stays in range and program words keep their
    /// upper two bits clear.
    pub open spec fn wf(self) -> bool {
        self@.wf()
    }

    /// Create a new memory system with all memory initialized to zero.
    pub fn new() -> (r: Memory)
        ensures
            r.wf(),
            r@.program == Seq::new(PROGRAM_MEMORY_SIZE as nat, |i: int| 0u16),
            r@.data == Seq::new(DATA_MEMORY_SIZE as nat, |i: int| 0u8),
            r@.stack == Seq::new(STACK_DEPTH as nat, |i: int| 0u16),
            r@.sp == 0,
            r@.eeprom == Seq::new(EEPROM_SIZE as nat, |i: int| 0u8),
    {
        let m = Memory {
            program_memory: [0; PROGRAM_MEMORY_SIZE],
            data_memory: [0; DATA_MEMORY_SIZE],
            stack: [0; STACK_DEPTH],
            stack_pointer: 0,
            eeprom: [0; EEPROM_SIZE],
        };
        proof {
            assert(m@.program =~= Seq::new(PROGRAM_MEMORY_SIZE as nat, |i: int| 0u16));
            assert(m@.data =~= Seq::new(DATA_MEMORY_SIZE as nat, |i: int| 0u8));
            assert(m@.stack =~= Seq::new(STACK_DEPTH as nat, |i: int| 0u16));
            assert(m@.eeprom =~= Seq::new(EEPROM_SIZE as nat, |i: int| 0u8));
        }
        m
    }

    /// Read a 14-bit instruction from program memory; the address is
    /// masked to 10 bits for the 1K word space.
    pub fn read_program(&self, address: u16) -> (r: u16)
        ensures
            r == self@.program[(address as usize & 0x3FF) as int],
    {
        proof { lemma_mask_10bit(address as usize); }
        let addr = (address as usize) & 0x3FF;
        self.program_memory[addr]
    }

    /// Write a 14-bit instruction to program memory (used when loading a
    /// program, not during normal execution); the value is masked to 14 bits.
    pub fn write_program(&mut self, address: u16, value: u16)
        ensures
            final(self)@ == (MemView {
                program: old(self)@.program.update(
                    (address as usize & 0x3FF) as int,
                    value & 0x3FFF,
                ),
                ..old(self)@
            }),
            old(self).wf() ==> final(self).wf(),
    {
        proof {
            lemma_mask_10bit(address as usize);
            lemma_mask_14bit(value);
        }
        let addr = (address as usize) & 0x3FF;
        self.program_memory[addr] = value & 0x3FFF;
    }

    /// Load a program from a slice of instruction words, each masked to
    /// 14 bits; at most the first 1024 words are taken.
    pub fn load_program(&mut self, program: &[u16])
        ensures
            final(self)@ == (MemView {
                program: spec_loaded_program(old(self)@.program, program@),
                ..old(self)@
            }),
            old(self).wf() ==> final(self).wf(),
    {
        let len = if program.len() < PROGRAM_MEMORY_SIZE {
            program.len()
        } else {
            PROGRAM_MEMORY_SIZE
        };
        let mut i: usize = 0;
        while i < len
            invariant
                len <= PROGRAM_MEMORY_SIZE,
                len <= program@.len(),
                len == if program@.len() < PROGRAM_MEMORY_SIZE as int {
                    program@.len() as int
                } else {
                    PROGRAM_MEMORY_SIZE as int
                },
                i <= len,
                self.data_memory == old(self).data_memory,
                self.stack == old(self).stack,
                self.stack_pointer == old(self).stack_pointer,
                self.eeprom == old(self).eeprom,
                self@.program.len() == PROGRAM_MEMORY_SIZE,
                forall|j: int| 0 <= j < i ==> self@.program[j] == (program@[j] & 0x3FFF),
                forall|j: int| i <= j < PROGRAM_MEMORY_SIZE ==> self@.program[j] == old(self)@.program[j],
            decreases len - i,
        {
            proof { lemma_mask_14bit(program@[i as int]); }
            self.program_memory[i] = program[i] & 0x3FFF;
            i = i + 1;
        }
        proof {
            assert(self@.program =~= spec_loaded_program(old(self)@.program, program@));
            assert(self@ =~= (MemView {
                program: spec_loaded_program(old(self)@.program, program@),
                ..old(self)@
            }));
            if old(self).wf() {
                assert forall|i: int|
                    0 <= i < PROGRAM_MEMORY_SIZE implies #[trigger] self@.program[i]
                    < 0x4000 by {
                    if i < program@.len() && i < PROGRAM_MEMORY_SIZE as int {
                        lemma_mask_14bit(program@[i]);
                    } else {
                        assert(old(self)@.program[i] < 0x4000);
                    }
                }
            }
        }
    }

    /// Read a byte from data memory; the address is masked to 7 bits.
    pub fn read_data(&self, address: u8) -> (r: u8)
        ensures
            r == self@.data[(address as usize & 0x7F) as int],
    {
        proof { lemma_mask_7bit(address as usize); }
        let addr = (address as usize) & 0x7F;
        self.data_memory[addr]
    }

    /// Write a byte to data memory; the address is masked to 7 bits.
    pub fn write_data(&mut self, address: u8, value: u8)
        ensures
            final(self)@ == (MemView {
                data: old(self)@.data.update((address as usize & 0x7F) as int, value),
                ..old(self)@
            }),
            old(self).wf() ==> final(self).wf(),
    {
        proof { lemma_mask_7bit(address as usize); }
        let addr = (address as usize) & 0x7F;
        self.data_memory[addr] = value;
    }

    /// Read from data memory with bank selection: addresses below 0x0C are
    /// common to both banks; Bank 1 folds other addresses into the flat store.
    pub fn read_data_banked(&self, address: u8, bank: u8) -> (r: u8)
        ensures
            r == self@.data[spec_banked_index(address, bank)],
    {
        let addr = if address < 0x0C || bank == 0 {
            address as usize
        } else {
            proof { lemma_bank_fold(address as usize); }
            ((address as usize) | 0x80) & 0x7F
        };
        self.data_memory[addr]
    }

    /// Write to data memory with bank selection.
    pub fn write_data_banked(&mut self, address: u8, value: u8, bank: u8)
        ensures
            final(self)@ == (MemView {
                data: old(self)@.data.update(spec_banked_index(address, bank), value),
                ..old(self)@
            }),
            old(self).wf() ==> final(self).wf(),
    {
        let addr = if address < 0x0C || bank == 0 {
            address as usize
        } else {
            proof { lemma_bank_fold(address as usize); }
            ((address as usize) | 0x80) & 0x7F
        };
        self.data_memory[addr] = value;
    }

    /// Push a 13-bit address onto the hardware stack. When the stack is
    /// already 8 deep, the oldest entry is discarded and the rest shift
    /// down; overflow is never an error.
    pub fn push_stack(&mut self, address: u16)
        requires
            old(self).wf(),
        ensures
            final(self).wf(),
            final(self)@ == spec_push_stack(old(self)@, address),
    {
        let addr = address & 0x1FFF;

        if self.stack_pointer >= STACK_DEPTH {
            let mut i: usize = 0;
            while i < STACK_DEPTH - 1
                invariant
                    i <= STACK_DEPTH - 1,
                    self.program_memory == old(self).program_memory,
                    self.data_memory == old(self).data_memory,
                    self.stack_pointer == old(self).stack_pointer,
                    self.eeprom == old(self).eeprom,
                    forall|j: int| 0 <= j < i ==> self.stack@[j] == old(self).stack@[j + 1],
                    forall|j: int|
                        i <= j < STACK_DEPTH ==> self.stack@[j] == old(self).stack@[j],
                decreases STACK_DEPTH - 1 - i,
            {
                let ghost prev = self.stack@;
                let v = self.stack[i + 1];
                self.stack[i] = v;
                proof {
                    assert(self.stack@ == prev.update(i as int, v));
                }
                i = i + 1;
            }
            self.stack[STACK_DEPTH - 1] = addr;
            proof {
                assert(self@.program == old(self)@.program);
                assert(self@.stack =~= old(self)@.stack.subrange(1, STACK_DEPTH as int).push(
                    address & 0x1FFF,
                ));
                assert(self@ =~= (MemView {
                    stack: old(self)@.stack.subrange(1, STACK_DEPTH as int).push(address & 0x1FFF),
                    ..old(self)@
                }));
            }
        } else {
            self.stack[self.stack_pointer] = addr;
            self.stack_pointer = self.stack_pointer + 1;
            proof {
                assert(self@.program == old(self)@.program);
            }
        }
    }

    /// Pop a 13-bit address from the hardware stack; an empty stack
    /// yields 0 and is never an error.
    pub fn pop_stack(&mut self) -> (r: u16)
        requires
            old(self).wf(),
        ensures
            final(self).wf(),
            (final(self)@, r) == spec_pop_stack(old(self)@),
    {
        let r = if self.stack_pointer == 0 {
            0
        } else {
            self.stack_pointer = self.stack_pointer - 1;
            self.stack[self.stack_pointer]
        };
        proof {
            assert(self@.program == old(self)@.program);
        }
        r
    }

    /// Check if the stack is empty.
    pub fn is_stack_empty(&self) -> (r: bool)
        ensures
            r == (self@.sp == 0),
    {
        self.stack_pointer == 0
    }

    /// Check if the stack is full.
    pub fn is_stack_full(&self) -> (r: bool)
        ensures
            r == (self@.sp >= STACK_DEPTH),
    {
        self.stack_pointer >= STACK_DEPTH
    }

    /// Get the current stack depth.
    pub fn stack_depth(&self) -> (r: usize)
        ensures
            r == self@.sp,
    {
        self.stack_pointer
    }

    /// Reset the stack pointer.
    pub fn reset_stack(&mut self)
        ensures
            final(self)@ == (MemView { sp: 0, ..old(self)@ }),
            old(self).wf() ==> final(self).wf(),
    {
        self.stack_pointer = 0;
    }

    /// Read a byte from EEPROM; the address is masked to 7 bits.
    pub fn read_eeprom(&self, address: u8) -> (r: u8)
        ensures
            r == self@.eeprom[(address as usize & 0x7F) as int],
    {
        proof { lemma_mask_7bit(address as usize); }
        let addr = (address as usize) & 0x7F;
        self.eeprom[addr]
    }

    /// Write a byte to EEPROM; the address is masked to 7 bits.
    pub fn write_eeprom(&mut self, address: u8, value: u8)
        ensures
            final(self)@ == (MemView {
                eeprom: old(self)@.eeprom.update((address as usize & 0x7F) as int, value),
                ..old(self)@
            }),
            old(self).wf() ==> final(self).wf(),
    {
        proof { lemma_mask_7bit(address as usize); }
        let addr = (address as usize) & 0x7F;
        self.eeprom[addr] = value;
    }

    /// Reset data memory and the stack pointer; program memory and
    /// EEPROM survive a reset, as on the real device.
    pub fn reset(&mut self)
        ensures
            final(self)@ == (MemView {
                data: Seq::new(DATA_MEMORY_SIZE as nat, |i: int| 0u8),
                sp: 0,
                ..old(self)@
            }),
            old(self).wf() ==> final(self).wf(),
    {
        self.data_memory = [0; DATA_MEMORY_SIZE];
        self.stack_pointer = 0;
        proof {
            assert(self@.data =~= Seq::new(DATA_MEMORY_SIZE as nat, |i: int| 0u8));
            assert(self@ =~= (MemView {
                data: Seq::new(DATA_MEMORY_SIZE as nat, |i: int| 0u8),
                sp: 0,
                ..old(self)@
            }));
        }
    }

    /// Get a view of the entire data memory (for debugging).
    pub fn get_data_memory(&self) -> (r: &[u8; DATA_MEMORY_SIZE])
        ensures
            r@ == self@.data,
    {
        &self.data_memory
    }

    /// Get a view of the stack (for debugging).
    pub fn get_stack(&self) -> (r: &[u16; STACK_DEPTH])
        ensures
            r@ == self@.stack,
    {
        &self.stack
    }
}

/// The program store after loading `p` over `old`: the first
/// `min(|p|, 1024)` words are `p` masked to 14 bits, the rest keep
/// their previous contents.
pub open spec fn spec_loaded_program(old_program: Seq<u16>, p: Seq<u16>) -> Seq<u16> {
    Seq::new(
        PROGRAM_MEMORY_SIZE as nat,
        |i: int|
            if i < p.len() && i < PROGRAM_MEMORY_SIZE as int {
                p[i] & 0x3FFF
            } else {
                old_program[i]
            },
    )
}

/// The flat-store index of a banked data access: addresses below 0x0C
/// are common to both banks, Bank 0 uses the address as is, and Bank 1
/// folds the address through `(addr | 0x80) & 0x7F`.
pub open spec fn spec_banked_index(address: u8, bank: u8) -> int {
    if address < 0x0C || bank == 0 {
        address as int
    } else {
        ((address as usize | 0x80) & 0x7F) as int
    }
}

} // verus!
