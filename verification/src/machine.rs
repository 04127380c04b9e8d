use vstd::prelude::*;
use vstd::arithmetic::div_mod::{lemma_fundamental_div_mod, lemma_fundamental_div_mod_converse};
use crate::alu;
use crate::flag::Flag;
use crate::disassembler::{decoded_ok, DecodeError, Disassembler};
use crate::dump::Dump;
use crate::message::{Message, MESSAGE_SIZE};
use crate::metadata::{le16, le32, Metadata};
use crate::operation::{OperandType, Operation, OperationType};
use crate::register::{Register, RegisterType};
use crate::utf8::utf8_ok;

verus! {

/// A fault that a running guest can provoke: every one of these halts the
/// machine.
#[derive(Clone, Copy, Debug, PartialEq, Eq, Structural)]
pub enum MachineError {
    /// The instruction stream could not be decoded.
    Decode(DecodeError),
    /// A data access beyond the memory image; `addr` is the first byte past
    /// the valid range that was touched.
    MemoryOutOfBounds { addr: usize },
    /// A push below the bottom of the address space.
    StackOverflow,
    /// DIV with a zero divisor.
    DivideByZero,
    /// A decoded mnemonic the executor does not implement.
    Unimplemented { operation: OperationType },
    /// An interrupt message whose type names no implemented system call.
    UnknownSyscall { syscall: u16 },
    /// A write system call over bytes that are not well-formed UTF-8.
    InvalidUtf8 { addr: usize },
    /// An operand slot that cannot be read or written in this position.
    InvalidOperand,
}

/// Why a load was rejected before any machine was built.
#[derive(Clone, Copy, Debug, PartialEq, Eq, Structural)]
pub enum LoadError {
    /// Shorter than the 32-byte header.
    TooShort,
    /// Header sizes inconsistent with each other or with the file.
    SizesInvalid,
    /// The argument frame does not fit into the memory image.
    FrameTooLarge,
}

/// How a run ended, when it ended without a fault.
#[derive(Clone, Copy, Debug, PartialEq, Eq, Structural)]
pub enum RunExit {
    /// The guest issued the exit system call with this status.
    Exited(u16),
    /// Execution left the text segment or reached the synthetic end marker.
    Stopped,
    /// The step budget ran out first.
    OutOfFuel,
}

/// What the effective-address resolver yields: a register identity for
/// `mod = 11`, an absolute memory address, or a relative branch target.
#[derive(Clone, Copy, Debug, PartialEq, Eq, Structural)]
pub enum Resolved {
    Reg(RegisterType),
    Mem(u16),
    Rel(u16),
}

/// The little-endian word at `memory[addr]`, `memory[addr + 1]`.
pub fn read_16(memory: &Vec<u8>, addr: usize) -> (r: u16)
    requires
        addr + 1 < memory.len(),
    ensures
        r == le16(memory@, addr as int),
{
    (memory[addr] as u16) + 256 * (memory[addr + 1] as u16)
}

/// Stores `value` little-endian at `memory[addr]`, `memory[addr + 1]`.
pub fn write_16(memory: &mut Vec<u8>, addr: usize, value: u16)
    requires
        addr + 1 < old(memory).len(),
    ensures
        final(memory)@ == old(memory)@.update(addr as int, (value % 256) as u8).update(
            addr + 1,
            (value / 256) as u8,
        ),
{
    memory.set(addr, (value % 256) as u8);
    memory.set(addr + 1, (value / 256) as u8);
}

/// The carry left by shifting an 8-bit value left `count` times: the last
/// bit shifted out.
pub fn carry_lsh_u8(value: u8, count: u8) -> (r: bool)
    requires
        count <= 8,
    ensures
        r == alu::shl_carry(value as u16, count as nat, 0),
{
    if count == 0 {
        return false;
    }
    let p: u32 = alu::pow2_u32(8 - count);
    proof {
        vstd::arithmetic::power2::lemma_pow2_pos((8 - count) as nat);
    }
    ((value as u32) / p) % 2 == 1
}

/// The carry left by shifting a 16-bit value left `count` times.
pub fn carry_lsh_u16(value: u16, count: u16) -> (r: bool)
    requires
        count <= 16,
    ensures
        r == alu::shl_carry(value, count as nat, 1),
{
    if count == 0 {
        return false;
    }
    let p: u32 = alu::pow2_u32((16 - count) as u8);
    proof {
        vstd::arithmetic::power2::lemma_pow2_pos((16 - count) as nat);
    }
    ((value as u32) / p) % 2 == 1
}

/// The carry left by shifting a 16-bit value right `count` times: bit
/// `count - 1` of the value.
pub fn carry_rsh_u16(value: u16, count: u16) -> (r: bool)
    requires
        count <= 16,
    ensures
        count >= 1 ==> r == alu::sar_carry(value, count as nat, 1),
        count == 0 ==> r == false,
{
    if count == 0 {
        return false;
    }
    let p: u32 = alu::pow2_u32((count - 1) as u8);
    proof {
        vstd::arithmetic::power2::lemma_pow2_pos((count - 1) as nat);
    }
    ((value as u32) / p) % 2 == 1
}

/// The machine: memory image, register file, flag word, the read-only text
/// segment, and the trace sink whose buffer doubles as the host-visible
/// output stream.
pub struct Machine {
    pub stop: bool,
    pub memory: Vec<u8>,
    pub register: Register,
    pub metadata: Metadata,
    pub flag: Flag,
    pub dump: Dump,
    pub text: Vec<u8>,
    pub exit_status: Option<u16>,
}

impl Machine {
    /// Structural invariant: the memory image has exactly `total` bytes,
    /// everything fits in the 16-bit address space, and the text buffer
    /// matches the header's text size.
    pub open spec fn wf(self) -> bool {
        &&& self.memory@.len() == self.metadata.total
        &&& self.metadata.total <= 0x10000
        &&& self.text@.len() == self.metadata.text_size
        &&& self.metadata.text_size + self.metadata.data_size <= self.metadata.total
    }

    /// Everything but the trace sink agrees; the sink only keeps its enable
    /// flag.
    pub open spec fn same_but_dump(self, other: Machine) -> bool {
        &&& self.stop == other.stop
        &&& self.memory@ == other.memory@
        &&& self.register == other.register
        &&& self.metadata == other.metadata
        &&& self.flag == other.flag
        &&& self.text@ == other.text@
        &&& self.exit_status == other.exit_status
        &&& self.dump.enabled == other.dump.enabled
    }

    /// The base value of a memory effective address, before displacement:
    /// selected from `r/m` as BX+SI, BX+DI, BP+SI, BP+DI, SI, DI, BP or BX.
    pub open spec fn ea_base(self, rm: u8) -> int {
        let r = self.register;
        if rm == 0 {
            r.bx() + r.si
        } else if rm == 1 {
            r.bx() + r.di
        } else if rm == 2 {
            r.bp + r.si
        } else if rm == 3 {
            r.bp + r.di
        } else if rm == 4 {
            r.si as int
        } else if rm == 5 {
            r.di as int
        } else if rm == 6 {
            r.bp as int
        } else {
            r.bx() as int
        }
    }

    /// The sign-extended displacement dictated by `mod`.
    pub open spec fn ea_disp(op: Operation) -> int {
        if op.mod_rm == 1 {
            alu::as_signed((op.disp % 256) as int, 0)
        } else if op.mod_rm == 2 {
            alu::as_signed(op.disp as int, 1)
        } else {
            0
        }
    }

    /// The memory effective address: base plus displacement modulo 2^16,
    /// except that `mod = 00`, `r/m = 110` means the raw 16-bit
    /// displacement taken as an absolute address.
    pub open spec fn mem_ea(self, op: Operation) -> u16 {
        if op.mod_rm == 0 && op.rm == 6 {
            op.disp
        } else {
            ((self.ea_base(op.rm) + Machine::ea_disp(op)) % 0x10000) as u16
        }
    }

    /// The opcodes whose effective address is a relative branch target:
    /// CALL-direct, JMP-direct, JMP-short, the conditional jumps, and the
    /// LOOP family.
    pub open spec fn is_relative_opcode(b: u8) -> bool {
        b == 0xe8 || b == 0xe9 || (0x70 <= b && b <= 0x7f) || (0xe0 <= b && b <= 0xe2) || b == 0xeb
    }

    /// Whether the relative form carries a two-byte displacement.
    pub open spec fn is_wide_relative(b: u8) -> bool {
        b == 0xe8 || b == 0xe9
    }

    /// The relative branch target of a control-transfer operation.
    pub open spec fn rel_target(op: Operation) -> u16 {
        crate::register::spec_relative_disp(
            op.pos + op.raws@.len(),
            op.disp,
            Machine::is_wide_relative(op.raws@[0]),
        )
    }

    /// What the resolver returns for an operation: the register named by
    /// `r/m` when `mod = 11`, a relative target for the relative
    /// control-transfer opcodes, and a memory address otherwise.
    pub open spec fn resolved(self, op: Operation) -> Resolved {
        if op.mod_rm == 3 {
            Resolved::Reg(RegisterType::from_bits(op.rm, op.w))
        } else if Machine::is_relative_opcode(op.raws@[0]) {
            Resolved::Rel(Machine::rel_target(op))
        } else {
            Resolved::Mem(self.mem_ea(op))
        }
    }

    /// Resolves an operation's effective address against the live register
    /// file. A `mod = 11` encoding always resolves to a register identity,
    /// never to a memory address.
    pub fn calc_effective_address(&self, op: &Operation) -> (r: Resolved)
        requires
            op.wf(),
        ensures
            r == self.resolved(*op),
            op.mod_rm == 3 ==> r is Reg,
    {
        if op.mod_rm == 3 {
            return Resolved::Reg(RegisterType::new(op.rm, op.w));
        }
        let opcode: u8 = op.raws[0];
        if opcode == 0xe8 || opcode == 0xe9 {
            let offset: usize = op.get_next_operation_pos();
            Resolved::Rel(crate::register::calc_relative_disp(offset, op.disp, true))
        } else if (0x70 <= opcode && opcode <= 0x7f) || (0xe0 <= opcode && opcode <= 0xe2)
            || opcode == 0xeb {
            let offset: usize = op.get_next_operation_pos();
            Resolved::Rel(crate::register::calc_relative_disp(offset, op.disp, false))
        } else if op.mod_rm == 0 && op.rm == 6 {
            Resolved::Mem(op.disp)
        } else {
            let base: u32 = match op.rm {
                0 => (self.register.get_bx() as u32) + (self.register.si as u32),
                1 => (self.register.get_bx() as u32) + (self.register.di as u32),
                2 => (self.register.bp as u32) + (self.register.si as u32),
                3 => (self.register.bp as u32) + (self.register.di as u32),
                4 => self.register.si as u32,
                5 => self.register.di as u32,
                6 => self.register.bp as u32,
                _ => self.register.get_bx() as u32,
            };
            let reduced: u32 = base % 0x10000;
            let s: i32 = if op.mod_rm == 1 {
                let b: u16 = op.disp % 256;
                if b >= 0x80 {
                    (b as i32) - 0x100
                } else {
                    b as i32
                }
            } else if op.mod_rm == 2 {
                if op.disp >= 0x8000 {
                    (op.disp as i32) - 0x10000
                } else {
                    op.disp as i32
                }
            } else {
                0
            };
            let t: i32 = (reduced as i32) + s;
            let wrapped: i32 = if t < 0 {
                t + 0x10000
            } else if t >= 0x10000 {
                t - 0x10000
            } else {
                t
            };
            proof {
                lemma_fundamental_div_mod(base as int, 0x10000);
                let q0 = base as int / 0x10000;
                let shift: int = if t < 0 {
                    -1
                } else if t >= 0x10000 {
                    1
                } else {
                    0
                };
                assert((q0 + shift) * 0x10000 == q0 * 0x10000 + shift * 0x10000)
                    by (nonlinear_arith);
                lemma_fundamental_div_mod_converse(
                    self.ea_base(op.rm) + Machine::ea_disp(*op),
                    0x10000,
                    q0 + shift,
                    wrapped as int,
                );
            }
            Resolved::Mem(wrapped as u16)
        }
    }

    /// The value an operand denotes in this state, before any bounds check:
    /// a register's value, an immediate, the word at the resolved memory
    /// address, or a segment register.
    pub open spec fn operand_value(self, op: Operation, operand: OperandType) -> u16 {
        match operand {
            OperandType::Reg => self.register.value_of(RegisterType::from_bits(op.reg, op.w)),
            OperandType::EA => match self.resolved(op) {
                Resolved::Reg(t) => self.register.value_of(t),
                Resolved::Mem(a) => le16(self.memory@, a as int),
                Resolved::Rel(a) => le16(self.memory@, a as int),
            },
            OperandType::SegReg => if op.reg == 0 {
                self.register.es
            } else if op.reg == 1 {
                self.register.cs
            } else if op.reg == 2 {
                self.register.ss
            } else {
                self.register.ds
            },
            OperandType::Imm => op.data,
            OperandType::Absent => 0,
        }
    }

    /// Whether reading this operand succeeds: memory operands need the full
    /// word inside the image (even byte-wide reads fetch a word), and a
    /// segment operand needs a valid `reg` field.
    pub open spec fn operand_read_ok(self, op: Operation, operand: OperandType) -> bool {
        match operand {
            OperandType::Reg => true,
            OperandType::EA => match self.resolved(op) {
                Resolved::Reg(t) => true,
                Resolved::Mem(a) => a + 1 < self.memory@.len(),
                Resolved::Rel(a) => a + 1 < self.memory@.len(),
            },
            OperandType::SegReg => op.reg < 4,
            OperandType::Imm => true,
            OperandType::Absent => false,
        }
    }

    /// Whether writing this operand succeeds: only registers and effective
    /// addresses are writable, and the written bytes must lie inside the
    /// image.
    pub open spec fn operand_write_ok(self, op: Operation, operand: OperandType) -> bool {
        match operand {
            OperandType::Reg => true,
            OperandType::EA => match self.resolved(op) {
                Resolved::Reg(t) => true,
                Resolved::Mem(a) => if op.w == 0 {
                    a < self.memory@.len()
                } else {
                    a + 1 < self.memory@.len()
                },
                Resolved::Rel(a) => if op.w == 0 {
                    a < self.memory@.len()
                } else {
                    a + 1 < self.memory@.len()
                },
            },
            _ => false,
        }
    }

    /// How a successful operand write relates the machine before and after:
    /// a register target takes the value at its width, a memory target takes
    /// one byte (`w = 0`) or a little-endian word (`w = 1`); flags, IP,
    /// text, metadata and everything else stay put.
    pub open spec fn write_rel(
        pre: Machine,
        post: Machine,
        op: Operation,
        operand: OperandType,
        v: u16,
    ) -> bool {
        &&& post.stop == pre.stop
        &&& post.metadata == pre.metadata
        &&& post.flag == pre.flag
        &&& post.text@ == pre.text@
        &&& post.exit_status == pre.exit_status
        &&& post.dump.enabled == pre.dump.enabled
        &&& match operand {
            OperandType::Reg => {
                &&& post.register == pre.register.spec_set(
                    RegisterType::from_bits(op.reg, op.w),
                    v,
                )
                &&& post.memory@ == pre.memory@
            },
            OperandType::EA => match pre.resolved(op) {
                Resolved::Reg(t) => {
                    &&& post.register == pre.register.spec_set(t, v)
                    &&& post.memory@ == pre.memory@
                },
                Resolved::Mem(a) => {
                    &&& post.register == pre.register
                    &&& post.memory@ == (if op.w == 0 {
                        pre.memory@.update(a as int, (v % 256) as u8)
                    } else {
                        pre.memory@.update(a as int, (v % 256) as u8).update(
                            a + 1,
                            (v / 256) as u8,
                        )
                    })
                },
                Resolved::Rel(a) => {
                    &&& post.register == pre.register
                    &&& post.memory@ == (if op.w == 0 {
                        pre.memory@.update(a as int, (v % 256) as u8)
                    } else {
                        pre.memory@.update(a as int, (v % 256) as u8).update(
                            a + 1,
                            (v / 256) as u8,
                        )
                    })
                },
            },
            _ => false,
        }
    }

    /// Reads an operand. The trace sink may record the access; nothing else
    /// changes. Succeeds exactly when the operand is readable here.
    pub fn read_operand(&mut self, op: &Operation, operand: OperandType) -> (r: Result<
        u16,
        MachineError,
    >)
        requires
            old(self).wf(),
            op.wf(),
        ensures
            final(self).wf(),
            final(self).same_but_dump(*old(self)),
            r is Ok <==> old(self).operand_read_ok(*op, operand),
            r is Ok ==> r->Ok_0 == old(self).operand_value(*op, operand),
    {
        match operand {
            OperandType::Reg => Ok(self.register.get(op.get_register())),
            OperandType::EA => {
                match self.calc_effective_address(op) {
                    Resolved::Reg(t) => Ok(self.register.get(t)),
                    Resolved::Mem(a) => self.read_ea_word(a),
                    Resolved::Rel(a) => self.read_ea_word(a),
                }
            },
            OperandType::SegReg => {
                if op.reg == 0 {
                    Ok(self.register.es)
                } else if op.reg == 1 {
                    Ok(self.register.cs)
                } else if op.reg == 2 {
                    Ok(self.register.ss)
                } else if op.reg == 3 {
                    Ok(self.register.ds)
                } else {
                    Err(MachineError::InvalidOperand)
                }
            },
            OperandType::Imm => Ok(op.data),
            OperandType::Absent => Err(MachineError::InvalidOperand),
        }
    }

    /// Reads the memory word an effective address denotes and notes it in
    /// the trace.
    fn read_ea_word(&mut self, a: u16) -> (r: Result<u16, MachineError>)
        requires
            old(self).wf(),
        ensures
            final(self).wf(),
            final(self).same_but_dump(*old(self)),
            r is Ok <==> a + 1 < old(self).memory@.len(),
            r is Ok ==> r->Ok_0 == le16(old(self).memory@, a as int),
    {
        let addr: usize = a as usize;
        if addr + 1 < self.memory.len() {
            let value: u16 = read_16(&self.memory, addr);
            self.dump.address_value(addr, value);
            Ok(value)
        } else {
            Err(MachineError::MemoryOutOfBounds { addr: addr + 1 })
        }
    }

    /// Writes an operand. Succeeds exactly when the operand is writable
    /// here; on success the state changes as `write_rel` says, and on
    /// failure only the trace sink may have grown.
    pub fn write_operand(&mut self, op: &Operation, operand: OperandType, value: u16) -> (r: Result<
        (),
        MachineError,
    >)
        requires
            old(self).wf(),
            op.wf(),
        ensures
            final(self).wf(),
            r is Ok <==> old(self).operand_write_ok(*op, operand),
            r is Ok ==> Machine::write_rel(*old(self), *final(self), *op, operand, value),
            r is Err ==> final(self).same_but_dump(*old(self)),
            final(self).register.ip == old(self).register.ip,
            final(self).flag == old(self).flag,
            final(self).text@ == old(self).text@,
            final(self).metadata == old(self).metadata,
            final(self).stop == old(self).stop,
            final(self).exit_status == old(self).exit_status,
            final(self).dump.enabled == old(self).dump.enabled,
    {
        match operand {
            OperandType::Reg => {
                self.register.set(op.get_register(), value);
                Ok(())
            },
            OperandType::EA => {
                match self.calc_effective_address(op) {
                    Resolved::Reg(t) => {
                        self.register.set(t, value);
                        Ok(())
                    },
                    Resolved::Mem(a) => self.write_ea_word(op.w, a, value),
                    Resolved::Rel(a) => self.write_ea_word(op.w, a, value),
                }
            },
            _ => Err(MachineError::InvalidOperand),
        }
    }

    /// Writes a byte or word at an effective address, noting the old and
    /// new values in the trace.
    fn write_ea_word(&mut self, w: u8, a: u16, value: u16) -> (r: Result<(), MachineError>)
        requires
            old(self).wf(),
        ensures
            final(self).wf(),
            final(self).register == old(self).register,
            final(self).flag == old(self).flag,
            final(self).text@ == old(self).text@,
            final(self).metadata == old(self).metadata,
            final(self).stop == old(self).stop,
            final(self).exit_status == old(self).exit_status,
            final(self).dump.enabled == old(self).dump.enabled,
            r is Ok <==> (if w == 0 {
                a < old(self).memory@.len()
            } else {
                a + 1 < old(self).memory@.len()
            }),
            r is Ok ==> final(self).memory@ == (if w == 0 {
                old(self).memory@.update(a as int, (value % 256) as u8)
            } else {
                old(self).memory@.update(a as int, (value % 256) as u8).update(
                    a + 1,
                    (value / 256) as u8,
                )
            }),
            r is Err ==> final(self).memory@ == old(self).memory@,
    {
        let addr: usize = a as usize;
        if w == 0 {
            if addr >= self.memory.len() {
                return Err(MachineError::MemoryOutOfBounds { addr });
            }
            let prev: u16 = self.memory[addr] as u16;
            self.dump.address_value_change(addr, prev, value % 256);
            self.memory.set(addr, (value % 256) as u8);
            Ok(())
        } else {
            if addr + 1 >= self.memory.len() {
                return Err(MachineError::MemoryOutOfBounds { addr: addr + 1 });
            }
            let prev: u16 = read_16(&self.memory, addr);
            self.dump.address_value_change(addr, prev, value);
            write_16(&mut self.memory, addr, value);
            Ok(())
        }
    }

    /// The whole memory image, which doubles as the data segment: address 0
    /// is the start of initialized data.
    pub fn get_data_segment(&self) -> (r: &Vec<u8>)
        ensures
            r@ == self.memory@,
    {
        &self.memory
    }

    /// The machine with another flag word and everything else unchanged.
    pub open spec fn with_flag(self, f: Flag) -> Machine {
        Machine { flag: f, ..self }
    }

    /// The register file with another stack pointer.
    pub open spec fn with_sp(r: Register, sp: u16) -> Register {
        Register { sp, ..r }
    }

    /// The address a control transfer or LEA lands on: a register's value
    /// for `mod = 11`, otherwise the resolved memory address or relative
    /// target itself.
    pub open spec fn target_address(self, op: Operation) -> u16 {
        match self.resolved(op) {
            Resolved::Reg(t) => self.register.value_of(t),
            Resolved::Mem(a) => a,
            Resolved::Rel(a) => a,
        }
    }

    /// How a successful 16-bit stack push relates two states: SP drops by
    /// two and the value sits little-endian at the new SP.
    pub open spec fn push_rel(pre: Machine, post: Machine, v: u16) -> bool {
        &&& pre.register.sp >= 2
        &&& pre.register.sp <= pre.memory@.len()
        &&& post.register == Machine::with_sp(pre.register, (pre.register.sp - 2) as u16)
        &&& post.memory@ == pre.memory@.update(
            pre.register.sp - 2,
            (v % 256) as u8,
        ).update(pre.register.sp - 1, (v / 256) as u8)
        &&& post.flag == pre.flag
        &&& post.stop == pre.stop
        &&& post.metadata == pre.metadata
        &&& post.text@ == pre.text@
        &&& post.exit_status == pre.exit_status
        &&& post.dump.enabled == pre.dump.enabled
    }

    /// How a successful 16-bit stack pop relates two states: `v` is the
    /// word at the old SP and SP rises by two (wrapping at the top).
    pub open spec fn pop_core_rel(pre: Machine, post: Machine, v: u16) -> bool {
        &&& pre.register.sp + 2 <= pre.memory@.len()
        &&& v == le16(pre.memory@, pre.register.sp as int)
        &&& post.register == Machine::with_sp(
            pre.register,
            ((pre.register.sp + 2) % 0x10000) as u16,
        )
        &&& post.memory@ == pre.memory@
        &&& post.flag == pre.flag
        &&& post.stop == pre.stop
        &&& post.metadata == pre.metadata
        &&& post.text@ == pre.text@
        &&& post.exit_status == pre.exit_status
        &&& post.dump.enabled == pre.dump.enabled
    }

    /// The POP instruction: the word at SP is removed and then written to
    /// the first operand.
    pub open spec fn pop_rel(pre: Machine, post: Machine, op: Operation) -> bool {
        let v = le16(pre.memory@, pre.register.sp as int);
        let mid = Machine {
            register: Machine::with_sp(pre.register, ((pre.register.sp + 2) % 0x10000) as u16),
            ..pre
        };
        &&& pre.register.sp + 2 <= pre.memory@.len()
        &&& Machine::write_rel(mid, post, op, op.first, v)
    }

    /// The CMP instruction: flags as after a subtraction of the operands,
    /// with everything else untouched.
    pub open spec fn cmp_rel(pre: Machine, post: Machine, op: Operation) -> bool {
        let l = pre.operand_value(op, op.first);
        let r = pre.operand_value(op, op.second);
        &&& post.flag == alu::sub_flags(l, r, op.w)
        &&& post.register == pre.register
        &&& post.memory@ == pre.memory@
        &&& post.stop == pre.stop
        &&& post.metadata == pre.metadata
        &&& post.text@ == pre.text@
        &&& post.exit_status == pre.exit_status
        &&& post.dump.enabled == pre.dump.enabled
    }

    /// The SUB instruction: flags as after the subtraction, and the
    /// difference written back to the first operand.
    pub open spec fn sub_rel(pre: Machine, post: Machine, op: Operation) -> bool {
        let l = pre.operand_value(op, op.first);
        let r = pre.operand_value(op, op.second);
        Machine::write_rel(
            pre.with_flag(alu::sub_flags(l, r, op.w)),
            post,
            op,
            op.first,
            alu::sub_result(l, r, op.w),
        )
    }

    /// MOV: writes the second operand's value to the first. Flags and IP
    /// are never touched, whether the move succeeds or faults.
    pub fn mov(&mut self, op: &Operation) -> (r: Result<(), MachineError>)
        requires
            old(self).wf(),
            op.wf(),
        ensures
            final(self).wf(),
            final(self).flag == old(self).flag,
            final(self).register.ip == old(self).register.ip,
            final(self).text@ == old(self).text@,
            final(self).metadata == old(self).metadata,
            r is Ok <==> old(self).operand_read_ok(*op, op.second) && old(self).operand_write_ok(
                *op,
                op.first,
            ),
            r is Ok ==> Machine::write_rel(
                *old(self),
                *final(self),
                *op,
                op.first,
                old(self).operand_value(*op, op.second),
            ),
            r is Err ==> final(self).same_but_dump(*old(self)),
    {
        let val: u16 = self.read_operand(op, op.second)?;
        self.write_operand(op, op.first, val)
    }

    /// ADD: sum at the operand width, all four flags set, result written
    /// back.
    pub fn add(&mut self, op: &Operation) -> (r: Result<(), MachineError>)
        requires
            old(self).wf(),
            op.wf(),
        ensures
            final(self).wf(),
            final(self).register.ip == old(self).register.ip,
            final(self).text@ == old(self).text@,
            final(self).metadata == old(self).metadata,
            r is Ok <==> old(self).operand_read_ok(*op, op.first) && old(self).operand_read_ok(
                *op,
                op.second,
            ) && old(self).operand_write_ok(*op, op.first),
            r is Ok ==> ({
                let l = old(self).operand_value(*op, op.first);
                let rv = old(self).operand_value(*op, op.second);
                Machine::write_rel(
                    old(self).with_flag(alu::add_flags(l, rv, op.w)),
                    *final(self),
                    *op,
                    op.first,
                    alu::add_result(l, rv, op.w),
                )
            }),
    {
        let left: u16 = self.read_operand(op, op.first)?;
        let right: u16 = self.read_operand(op, op.second)?;
        let res: (u16, Flag) = alu::alu_add(left, right, op.w);
        self.flag.set_cosz(res.1.carry, res.1.overflow, res.1.sign, res.1.zero);
        self.write_operand(op, op.first, res.0)
    }

    /// SUB: difference at the operand width, all four flags set, result
    /// written back.
    pub fn sub(&mut self, op: &Operation) -> (r: Result<(), MachineError>)
        requires
            old(self).wf(),
            op.wf(),
        ensures
            final(self).wf(),
            final(self).register.ip == old(self).register.ip,
            final(self).text@ == old(self).text@,
            final(self).metadata == old(self).metadata,
            r is Ok <==> old(self).operand_read_ok(*op, op.first) && old(self).operand_read_ok(
                *op,
                op.second,
            ) && old(self).operand_write_ok(*op, op.first),
            r is Ok ==> Machine::sub_rel(*old(self), *final(self), *op),
    {
        let left: u16 = self.read_operand(op, op.first)?;
        let right: u16 = self.read_operand(op, op.second)?;
        let res: (u16, Flag) = alu::alu_sub(left, right, op.w);
        self.flag.set_cosz(res.1.carry, res.1.overflow, res.1.sign, res.1.zero);
        self.write_operand(op, op.first, res.0)
    }

    /// CMP: as SUB, but the difference is discarded.
    pub fn cmp(&mut self, op: &Operation) -> (r: Result<(), MachineError>)
        requires
            old(self).wf(),
            op.wf(),
        ensures
            final(self).wf(),
            final(self).register.ip == old(self).register.ip,
            final(self).text@ == old(self).text@,
            final(self).metadata == old(self).metadata,
            r is Ok <==> old(self).operand_read_ok(*op, op.first) && old(self).operand_read_ok(
                *op,
                op.second,
            ),
            r is Ok ==> Machine::cmp_rel(*old(self), *final(self), *op),
            r is Err ==> final(self).same_but_dump(*old(self)),
    {
        let left: u16 = self.read_operand(op, op.first)?;
        let right: u16 = self.read_operand(op, op.second)?;
        let res: (u16, Flag) = alu::alu_sub(left, right, op.w);
        self.flag.set_cosz(res.1.carry, res.1.overflow, res.1.sign, res.1.zero);
        Ok(())
    }

    /// AND: bitwise conjunction, logic-op flags, result written back.
    pub fn and(&mut self, op: &Operation) -> (r: Result<(), MachineError>)
        requires
            old(self).wf(),
            op.wf(),
        ensures
            final(self).wf(),
            final(self).register.ip == old(self).register.ip,
            final(self).text@ == old(self).text@,
            final(self).metadata == old(self).metadata,
            r is Ok <==> old(self).operand_read_ok(*op, op.first) && old(self).operand_read_ok(
                *op,
                op.second,
            ) && old(self).operand_write_ok(*op, op.first),
            r is Ok ==> ({
                let l = old(self).operand_value(*op, op.first);
                let rv = old(self).operand_value(*op, op.second);
                let res = alu::and_result(l, rv, op.w);
                Machine::write_rel(
                    old(self).with_flag(alu::logic_flags(res, op.w)),
                    *final(self),
                    *op,
                    op.first,
                    res,
                )
            }),
    {
        let left: u16 = self.read_operand(op, op.first)?;
        let right: u16 = self.read_operand(op, op.second)?;
        let res: (u16, Flag) = alu::alu_and(left, right, op.w);
        self.flag.set_cosz(res.1.carry, res.1.overflow, res.1.sign, res.1.zero);
        self.write_operand(op, op.first, res.0)
    }

    /// OR: bitwise disjunction, logic-op flags, result written back.
    pub fn or(&mut self, op: &Operation) -> (r: Result<(), MachineError>)
        requires
            old(self).wf(),
            op.wf(),
        ensures
            final(self).wf(),
            final(self).register.ip == old(self).register.ip,
            final(self).text@ == old(self).text@,
            final(self).metadata == old(self).metadata,
            r is Ok <==> old(self).operand_read_ok(*op, op.first) && old(self).operand_read_ok(
                *op,
                op.second,
            ) && old(self).operand_write_ok(*op, op.first),
            r is Ok ==> ({
                let l = old(self).operand_value(*op, op.first);
                let rv = old(self).operand_value(*op, op.second);
                let res = alu::or_result(l, rv, op.w);
                Machine::write_rel(
                    old(self).with_flag(alu::logic_flags(res, op.w)),
                    *final(self),
                    *op,
                    op.first,
                    res,
                )
            }),
    {
        let left: u16 = self.read_operand(op, op.first)?;
        let right: u16 = self.read_operand(op, op.second)?;
        let res: (u16, Flag) = alu::alu_or(left, right, op.w);
        self.flag.set_cosz(res.1.carry, res.1.overflow, res.1.sign, res.1.zero);
        self.write_operand(op, op.first, res.0)
    }

    /// XOR: bitwise exclusive or, logic-op flags, result written back.
    pub fn xor(&mut self, op: &Operation) -> (r: Result<(), MachineError>)
        requires
            old(self).wf(),
            op.wf(),
        ensures
            final(self).wf(),
            final(self).register.ip == old(self).register.ip,
            final(self).text@ == old(self).text@,
            final(self).metadata == old(self).metadata,
            r is Ok <==> old(self).operand_read_ok(*op, op.first) && old(self).operand_read_ok(
                *op,
                op.second,
            ) && old(self).operand_write_ok(*op, op.first),
            r is Ok ==> ({
                let l = old(self).operand_value(*op, op.first);
                let rv = old(self).operand_value(*op, op.second);
                let res = alu::xor_result(l, rv, op.w);
                Machine::write_rel(
                    old(self).with_flag(alu::logic_flags(res, op.w)),
                    *final(self),
                    *op,
                    op.first,
                    res,
                )
            }),
    {
        let left: u16 = self.read_operand(op, op.first)?;
        let right: u16 = self.read_operand(op, op.second)?;
        let res: (u16, Flag) = alu::alu_xor(left, right, op.w);
        self.flag.set_cosz(res.1.carry, res.1.overflow, res.1.sign, res.1.zero);
        self.write_operand(op, op.first, res.0)
    }

    /// TEST: as AND, but the conjunction is discarded.
    pub fn test(&mut self, op: &Operation) -> (r: Result<(), MachineError>)
        requires
            old(self).wf(),
            op.wf(),
        ensures
            final(self).wf(),
            final(self).register.ip == old(self).register.ip,
            final(self).register == old(self).register,
            final(self).memory@ == old(self).memory@,
            final(self).text@ == old(self).text@,
            final(self).metadata == old(self).metadata,
            final(self).stop == old(self).stop,
            final(self).exit_status == old(self).exit_status,
            r is Ok <==> old(self).operand_read_ok(*op, op.first) && old(self).operand_read_ok(
                *op,
                op.second,
            ),
            r is Ok ==> final(self).flag == alu::logic_flags(
                alu::and_result(
                    old(self).operand_value(*op, op.first),
                    old(self).operand_value(*op, op.second),
                    op.w,
                ),
                op.w,
            ),
            r is Err ==> final(self).flag == old(self).flag,
    {
        let left: u16 = self.read_operand(op, op.first)?;
        let right: u16 = self.read_operand(op, op.second)?;
        let res: (u16, Flag) = alu::alu_and(left, right, op.w);
        self.flag.set_cosz(res.1.carry, res.1.overflow, res.1.sign, res.1.zero);
        Ok(())
    }

    /// INC: adds one at the operand width; the carry flag is preserved.
    pub fn inc(&mut self, op: &Operation) -> (r: Result<(), MachineError>)
        requires
            old(self).wf(),
            op.wf(),
        ensures
            final(self).wf(),
            final(self).register.ip == old(self).register.ip,
            final(self).text@ == old(self).text@,
            final(self).metadata == old(self).metadata,
            r is Ok <==> old(self).operand_read_ok(*op, op.first) && old(self).operand_write_ok(
                *op,
                op.first,
            ),
            r is Ok ==> ({
                let v = old(self).operand_value(*op, op.first);
                Machine::write_rel(
                    old(self).with_flag(alu::inc_flags(v, op.w, old(self).flag.carry)),
                    *final(self),
                    *op,
                    op.first,
                    alu::add_result(v, 1, op.w),
                )
            }),
    {
        let value: u16 = self.read_operand(op, op.first)?;
        let res: (u16, Flag) = alu::alu_inc(value, op.w, self.flag.carry);
        self.flag.set_cosz(res.1.carry, res.1.overflow, res.1.sign, res.1.zero);
        self.write_operand(op, op.first, res.0)
    }

    /// DEC: subtracts one at the operand width; the carry flag is
    /// preserved.
    pub fn dec(&mut self, op: &Operation) -> (r: Result<(), MachineError>)
        requires
            old(self).wf(),
            op.wf(),
        ensures
            final(self).wf(),
            final(self).register.ip == old(self).register.ip,
            final(self).text@ == old(self).text@,
            final(self).metadata == old(self).metadata,
            r is Ok <==> old(self).operand_read_ok(*op, op.first) && old(self).operand_write_ok(
                *op,
                op.first,
            ),
            r is Ok ==> ({
                let v = old(self).operand_value(*op, op.first);
                Machine::write_rel(
                    old(self).with_flag(alu::dec_flags(v, op.w, old(self).flag.carry)),
                    *final(self),
                    *op,
                    op.first,
                    alu::sub_result(v, 1, op.w),
                )
            }),
    {
        let value: u16 = self.read_operand(op, op.first)?;
        let res: (u16, Flag) = alu::alu_dec(value, op.w, self.flag.carry);
        self.flag.set_cosz(res.1.carry, res.1.overflow, res.1.sign, res.1.zero);
        self.write_operand(op, op.first, res.0)
    }

    /// NEG: two's-complement negation; carry set iff the operand was
    /// nonzero, overflow iff it was the signed minimum.
    pub fn neg(&mut self, op: &Operation) -> (r: Result<(), MachineError>)
        requires
            old(self).wf(),
            op.wf(),
        ensures
            final(self).wf(),
            final(self).register.ip == old(self).register.ip,
            final(self).text@ == old(self).text@,
            final(self).metadata == old(self).metadata,
            r is Ok <==> old(self).operand_read_ok(*op, op.first) && old(self).operand_write_ok(
                *op,
                op.first,
            ),
            r is Ok ==> ({
                let v = old(self).operand_value(*op, op.first);
                Machine::write_rel(
                    old(self).with_flag(alu::neg_flags(v, op.w)),
                    *final(self),
                    *op,
                    op.first,
                    alu::neg_result(v, op.w),
                )
            }),
    {
        let value: u16 = self.read_operand(op, op.first)?;
        let res: (u16, Flag) = alu::alu_neg(value, op.w);
        self.flag.set_cosz(res.1.carry, res.1.overflow, res.1.sign, res.1.zero);
        self.write_operand(op, op.first, res.0)
    }

    /// DIV: unsigned division of DX:AX by the operand at its width; the
    /// quotient lands in AL/AX, the remainder in AH/DX; flags are left
    /// unchanged. A zero divisor is a fatal fault.
    pub fn div(&mut self, op: &Operation) -> (r: Result<(), MachineError>)
        requires
            old(self).wf(),
            op.wf(),
        ensures
            final(self).wf(),
            final(self).register.ip == old(self).register.ip,
            final(self).flag == old(self).flag,
            final(self).memory@ == old(self).memory@,
            final(self).text@ == old(self).text@,
            final(self).metadata == old(self).metadata,
            final(self).stop == old(self).stop,
            final(self).exit_status == old(self).exit_status,
            r is Ok <==> old(self).operand_read_ok(*op, op.second) && alu::sized(
                old(self).operand_value(*op, op.second),
                op.w,
            ) != 0,
            r is Ok ==> ({
                let d = alu::sized(old(self).operand_value(*op, op.second), op.w);
                let num = old(self).register.ax() + 0x10000 * old(self).register.dx();
                if op.w == 0 {
                    final(self).register == (Register {
                        al: ((num / d) % 256) as u8,
                        ah: (num % d) as u8,
                        ..old(self).register
                    })
                } else {
                    final(self).register == old(self).register.spec_set(
                        RegisterType::from_bits(0, 1),
                        ((num / d) % 0x10000) as u16,
                    ).spec_set(RegisterType::from_bits(2, 1), (num % d) as u16)
                }
            }),
            r is Err ==> final(self).register == old(self).register,
    {
        let left: u16 = self.read_operand(op, op.second)?;
        let numerator: u32 = (self.register.get_ax() as u32) + 0x10000 * (self.register.get_dx()
            as u32);
        if op.w == 0 {
            let divisor: u32 = (left % 256) as u32;
            if divisor == 0 {
                return Err(MachineError::DivideByZero);
            }
            let quot: u32 = numerator / divisor;
            let rem: u32 = numerator % divisor;
            self.register.al = (quot % 256) as u8;
            self.register.ah = rem as u8;
        } else {
            let divisor: u32 = left as u32;
            if divisor == 0 {
                return Err(MachineError::DivideByZero);
            }
            let quot: u32 = numerator / divisor;
            let rem: u32 = numerator % divisor;
            self.register.set_ax((quot % 0x10000) as u16);
            self.register.set_dx(rem as u16);
        }
        Ok(())
    }

    /// CBW: sign-extends AL into AH.
    pub fn cbw(&mut self)
        ensures
            final(self).register == (Register {
                ah: if old(self).register.al >= 0x80 {
                    0xff
                } else {
                    0
                },
                ..old(self).register
            }),
            final(self).flag == old(self).flag,
            final(self).memory@ == old(self).memory@,
            final(self).text@ == old(self).text@,
            final(self).metadata == old(self).metadata,
            final(self).stop == old(self).stop,
            final(self).exit_status == old(self).exit_status,
            final(self).dump == old(self).dump,
    {
        if self.register.al >= 0x80 {
            self.register.ah = 0xff;
        } else {
            self.register.ah = 0;
        }
    }

    /// CWD: sign-extends AX into DX.
    pub fn cwd(&mut self)
        ensures
            final(self).register == old(self).register.spec_set(
                RegisterType::from_bits(2, 1),
                if old(self).register.ax() >= 0x8000 {
                    0xffff
                } else {
                    0
                },
            ),
            final(self).flag == old(self).flag,
            final(self).memory@ == old(self).memory@,
            final(self).text@ == old(self).text@,
            final(self).metadata == old(self).metadata,
            final(self).stop == old(self).stop,
            final(self).exit_status == old(self).exit_status,
            final(self).dump == old(self).dump,
    {
        let dx: u16 = if self.register.get_ax() >= 0x8000 {
            0xffff
        } else {
            0
        };
        self.register.set_dx(dx);
    }

    /// Pushes a 16-bit value: SP drops by two, the value is stored
    /// little-endian at the new SP. Pushing with SP below two is a stack
    /// overflow; SP above the memory image is an out-of-bounds fault.
    pub fn stack_push_u16(&mut self, value: u16) -> (r: Result<(), MachineError>)
        requires
            old(self).wf(),
        ensures
            final(self).wf(),
            r is Ok <==> 2 <= old(self).register.sp && old(self).register.sp <= old(
                self,
            ).memory@.len(),
            r is Ok ==> Machine::push_rel(*old(self), *final(self), value),
            r is Err ==> final(self).same_but_dump(*old(self)),
            final(self).register.ip == old(self).register.ip,
            final(self).flag == old(self).flag,
            final(self).text@ == old(self).text@,
            final(self).metadata == old(self).metadata,
            final(self).dump == old(self).dump,
    {
        let sp: usize = self.register.sp as usize;
        if sp < 2 {
            return Err(MachineError::StackOverflow);
        }
        if sp > self.memory.len() {
            return Err(MachineError::MemoryOutOfBounds { addr: sp - 1 });
        }
        self.memory.set(sp - 2, (value % 256) as u8);
        self.memory.set(sp - 1, (value / 256) as u8);
        self.register.sp = (sp - 2) as u16;
        Ok(())
    }

    /// Pops a 16-bit value: reads the word at SP and raises SP by two,
    /// wrapping at the top of the address space.
    pub fn stack_pop_u16(&mut self) -> (r: Result<u16, MachineError>)
        requires
            old(self).wf(),
        ensures
            final(self).wf(),
            r is Ok <==> old(self).register.sp + 2 <= old(self).memory@.len(),
            r is Ok ==> Machine::pop_core_rel(*old(self), *final(self), r->Ok_0),
            r is Err ==> final(self).same_but_dump(*old(self)),
            final(self).flag == old(self).flag,
            final(self).text@ == old(self).text@,
            final(self).metadata == old(self).metadata,
            final(self).dump == old(self).dump,
    {
        let sp: usize = self.register.sp as usize;
        if sp + 2 > self.memory.len() {
            return Err(MachineError::MemoryOutOfBounds { addr: sp + 1 });
        }
        let value: u16 = read_16(&self.memory, sp);
        self.register.sp = ((sp + 2) % 0x10000) as u16;
        Ok(value)
    }

    /// PUSH: reads the first operand and pushes it.
    pub fn push(&mut self, op: &Operation) -> (r: Result<(), MachineError>)
        requires
            old(self).wf(),
            op.wf(),
        ensures
            final(self).wf(),
            final(self).register.ip == old(self).register.ip,
            final(self).flag == old(self).flag,
            final(self).text@ == old(self).text@,
            final(self).metadata == old(self).metadata,
            r is Ok <==> old(self).operand_read_ok(*op, op.first) && 2 <= old(self).register.sp
                && old(self).register.sp <= old(self).memory@.len(),
            r is Ok ==> Machine::push_rel(
                *old(self),
                *final(self),
                old(self).operand_value(*op, op.first),
            ),
    {
        let value: u16 = self.read_operand(op, op.first)?;
        self.stack_push_u16(value)
    }

    /// POP: pops a word and writes it to the first operand.
    pub fn pop(&mut self, op: &Operation) -> (r: Result<(), MachineError>)
        requires
            old(self).wf(),
            op.wf(),
        ensures
            final(self).wf(),
            final(self).register.ip == old(self).register.ip,
            final(self).flag == old(self).flag,
            final(self).text@ == old(self).text@,
            final(self).metadata == old(self).metadata,
            r is Ok <==> old(self).register.sp + 2 <= old(self).memory@.len() && old(
                self,
            ).operand_write_ok(*op, op.first),
            r is Ok ==> Machine::pop_rel(*old(self), *final(self), *op),
    {
        let value: u16 = self.stack_pop_u16()?;
        self.write_operand(op, op.first, value)
    }

    /// CALL: pushes the post-fetch IP and jumps to the resolved target.
    /// A target beyond the text segment is fatal.
    pub fn call(&mut self, op: &Operation) -> (r: Result<(), MachineError>)
        requires
            old(self).wf(),
            op.wf(),
        ensures
            final(self).wf(),
            final(self).flag == old(self).flag,
            final(self).text@ == old(self).text@,
            final(self).metadata == old(self).metadata,
            final(self).stop == old(self).stop,
            final(self).exit_status == old(self).exit_status,
            r is Ok <==> old(self).target_address(*op) <= old(self).metadata.text_size && 2 <= old(
                self,
            ).register.sp && old(self).register.sp <= old(self).memory@.len(),
            r is Ok ==> ({
                let t = old(self).target_address(*op);
                let sp = old(self).register.sp;
                &&& final(self).register == (Register {
                    ip: t,
                    sp: (sp - 2) as u16,
                    ..old(self).register
                })
                &&& final(self).memory@ == old(self).memory@.update(
                    sp - 2,
                    (old(self).register.ip % 256) as u8,
                ).update(sp - 1, (old(self).register.ip / 256) as u8)
            }),
    {
        let target: u16 = match self.calc_effective_address(op) {
            Resolved::Reg(t) => self.register.get(t),
            Resolved::Mem(a) => a,
            Resolved::Rel(a) => a,
        };
        if target as usize > self.metadata.text_size {
            return Err(MachineError::MemoryOutOfBounds { addr: target as usize });
        }
        let return_addr: u16 = self.register.ip;
        self.stack_push_u16(return_addr)?;
        self.register.ip = target;
        Ok(())
    }

    /// RET: pops the return address into IP (a return address beyond the
    /// text segment is fatal); the immediate form then adds its operand to
    /// SP.
    pub fn ret(&mut self, op: &Operation) -> (r: Result<(), MachineError>)
        requires
            old(self).wf(),
            op.wf(),
        ensures
            final(self).wf(),
            final(self).flag == old(self).flag,
            final(self).memory@ == old(self).memory@,
            final(self).text@ == old(self).text@,
            final(self).metadata == old(self).metadata,
            final(self).stop == old(self).stop,
            final(self).exit_status == old(self).exit_status,
            r is Ok <==> old(self).register.sp + 2 <= old(self).memory@.len() && le16(
                old(self).memory@,
                old(self).register.sp as int,
            ) <= old(self).metadata.text_size && (op.first == OperandType::Imm || op.first
                == OperandType::Absent),
            r is Ok ==> ({
                let ra = le16(old(self).memory@, old(self).register.sp as int);
                let sp2 = (old(self).register.sp + 2) % 0x10000;
                &&& (op.first == OperandType::Absent ==> final(self).register == (Register {
                    ip: ra,
                    sp: sp2 as u16,
                    ..old(self).register
                }))
                &&& (op.first == OperandType::Imm ==> final(self).register == (Register {
                    ip: ra,
                    sp: ((sp2 + op.disp) % 0x10000) as u16,
                    ..old(self).register
                }))
            }),
    {
        let return_addr: u16 = self.stack_pop_u16()?;
        if return_addr as usize > self.metadata.text_size {
            return Err(MachineError::MemoryOutOfBounds { addr: return_addr as usize });
        }
        match op.first {
            OperandType::Imm => {
                // Within segment, adding immediate to SP
                let sp2: u32 = (self.register.sp as u32) + (op.disp as u32);
                self.register.sp = (sp2 % 0x10000) as u16;
                self.register.ip = return_addr;
                Ok(())
            },
            OperandType::Absent => {
                self.register.ip = return_addr;
                Ok(())
            },
            _ => Err(MachineError::InvalidOperand),
        }
    }

    /// JMP: unconditionally sets IP to the resolved target.
    pub fn jmp(&mut self, op: &Operation) -> (r: Result<(), MachineError>)
        requires
            old(self).wf(),
            op.wf(),
        ensures
            final(self).wf(),
            final(self).flag == old(self).flag,
            final(self).memory@ == old(self).memory@,
            final(self).text@ == old(self).text@,
            final(self).metadata == old(self).metadata,
            final(self).stop == old(self).stop,
            final(self).exit_status == old(self).exit_status,
            r is Ok <==> old(self).target_address(*op) <= old(self).metadata.text_size,
            r is Ok ==> final(self).register == (Register {
                ip: old(self).target_address(*op),
                ..old(self).register
            }),
            r is Err ==> final(self).register == old(self).register,
    {
        self.jump_if(op, true)
    }

    /// Shared body of the conditional jumps: when `cond` holds, set IP to
    /// the resolved target (faulting on a target beyond the text segment);
    /// when it does not, change nothing.
    fn jump_if(&mut self, op: &Operation, cond: bool) -> (r: Result<(), MachineError>)
        requires
            old(self).wf(),
            op.wf(),
        ensures
            final(self).wf(),
            final(self).flag == old(self).flag,
            final(self).memory@ == old(self).memory@,
            final(self).text@ == old(self).text@,
            final(self).metadata == old(self).metadata,
            final(self).stop == old(self).stop,
            final(self).exit_status == old(self).exit_status,
            final(self).dump == old(self).dump,
            r is Ok <==> (!cond || old(self).target_address(*op) <= old(self).metadata.text_size),
            r is Ok && cond ==> final(self).register == (Register {
                ip: old(self).target_address(*op),
                ..old(self).register
            }),
            !cond ==> final(self).register == old(self).register,
            r is Err ==> final(self).register == old(self).register,
    {
        if !cond {
            return Ok(());
        }
        let target: u16 = match self.calc_effective_address(op) {
            Resolved::Reg(t) => self.register.get(t),
            Resolved::Mem(a) => a,
            Resolved::Rel(a) => a,
        };
        if target as usize > self.metadata.text_size {
            return Err(MachineError::MemoryOutOfBounds { addr: target as usize });
        }
        self.register.ip = target;
        Ok(())
    }

    /// JE/JZ: jump when the zero flag is set.
    pub fn je(&mut self, op: &Operation) -> (r: Result<(), MachineError>)
        requires
            old(self).wf(),
            op.wf(),
        ensures
            final(self).wf(),
            final(self).flag == old(self).flag,
            final(self).memory@ == old(self).memory@,
            final(self).text@ == old(self).text@,
            final(self).metadata == old(self).metadata,
            final(self).stop == old(self).stop,
            final(self).exit_status == old(self).exit_status,
            r is Ok <==> (!old(self).flag.zero || old(self).target_address(*op) <= old(self).metadata.text_size),
            r is Ok && old(self).flag.zero ==> final(self).register == (Register {
                ip: old(self).target_address(*op),
                ..old(self).register
            }),
            !old(self).flag.zero ==> final(self).register == old(self).register,
            r is Err ==> final(self).register == old(self).register,
    {
        let cond: bool = self.flag.zero;
        self.jump_if(op, cond)
    }

    /// JNL/JGE: jump when the sign flag is clear.
    pub fn jnl(&mut self, op: &Operation) -> (r: Result<(), MachineError>)
        requires
            old(self).wf(),
            op.wf(),
        ensures
            final(self).wf(),
            final(self).flag == old(self).flag,
            final(self).memory@ == old(self).memory@,
            final(self).text@ == old(self).text@,
            final(self).metadata == old(self).metadata,
            final(self).stop == old(self).stop,
            final(self).exit_status == old(self).exit_status,
            r is Ok <==> (old(self).flag.sign || old(self).target_address(*op) <= old(self).metadata.text_size),
            r is Ok && !old(self).flag.sign ==> final(self).register == (Register {
                ip: old(self).target_address(*op),
                ..old(self).register
            }),
            old(self).flag.sign ==> final(self).register == old(self).register,
            r is Err ==> final(self).register == old(self).register,
    {
        let cond: bool = !self.flag.sign;
        self.jump_if(op, cond)
    }

    /// JNB/JAE: jump when the carry flag is clear.
    pub fn jnb(&mut self, op: &Operation) -> (r: Result<(), MachineError>)
        requires
            old(self).wf(),
            op.wf(),
        ensures
            final(self).wf(),
            final(self).flag == old(self).flag,
            final(self).memory@ == old(self).memory@,
            final(self).text@ == old(self).text@,
            final(self).metadata == old(self).metadata,
            final(self).stop == old(self).stop,
            final(self).exit_status == old(self).exit_status,
            r is Ok <==> (old(self).flag.carry || old(self).target_address(*op) <= old(self).metadata.text_size),
            r is Ok && !old(self).flag.carry ==> final(self).register == (Register {
                ip: old(self).target_address(*op),
                ..old(self).register
            }),
            old(self).flag.carry ==> final(self).register == old(self).register,
            r is Err ==> final(self).register == old(self).register,
    {
        let cond: bool = !self.flag.carry;
        self.jump_if(op, cond)
    }

    /// JNE/JNZ: jump when the zero flag is clear.
    pub fn jne(&mut self, op: &Operation) -> (r: Result<(), MachineError>)
        requires
            old(self).wf(),
            op.wf(),
        ensures
            final(self).wf(),
            final(self).flag == old(self).flag,
            final(self).memory@ == old(self).memory@,
            final(self).text@ == old(self).text@,
            final(self).metadata == old(self).metadata,
            final(self).stop == old(self).stop,
            final(self).exit_status == old(self).exit_status,
            r is Ok <==> (old(self).flag.zero || old(self).target_address(*op) <= old(self).metadata.text_size),
            r is Ok && !old(self).flag.zero ==> final(self).register == (Register {
                ip: old(self).target_address(*op),
                ..old(self).register
            }),
            old(self).flag.zero ==> final(self).register == old(self).register,
            r is Err ==> final(self).register == old(self).register,
    {
        let cond: bool = !self.flag.zero;
        self.jump_if(op, cond)
    }

    /// JL/JNGE: jump when the sign flag is set.
    pub fn jl(&mut self, op: &Operation) -> (r: Result<(), MachineError>)
        requires
            old(self).wf(),
            op.wf(),
        ensures
            final(self).wf(),
            final(self).flag == old(self).flag,
            final(self).memory@ == old(self).memory@,
            final(self).text@ == old(self).text@,
            final(self).metadata == old(self).metadata,
            final(self).stop == old(self).stop,
            final(self).exit_status == old(self).exit_status,
            r is Ok <==> (!old(self).flag.sign || old(self).target_address(*op) <= old(self).metadata.text_size),
            r is Ok && old(self).flag.sign ==> final(self).register == (Register {
                ip: old(self).target_address(*op),
                ..old(self).register
            }),
            !old(self).flag.sign ==> final(self).register == old(self).register,
            r is Err ==> final(self).register == old(self).register,
    {
        let cond: bool = self.flag.sign;
        self.jump_if(op, cond)
    }

    /// JB/JNAE: jump when the carry flag is set.
    pub fn jb(&mut self, op: &Operation) -> (r: Result<(), MachineError>)
        requires
            old(self).wf(),
            op.wf(),
        ensures
            final(self).wf(),
            final(self).flag == old(self).flag,
            final(self).memory@ == old(self).memory@,
            final(self).text@ == old(self).text@,
            final(self).metadata == old(self).metadata,
            final(self).stop == old(self).stop,
            final(self).exit_status == old(self).exit_status,
            r is Ok <==> (!old(self).flag.carry || old(self).target_address(*op) <= old(self).metadata.text_size),
            r is Ok && old(self).flag.carry ==> final(self).register == (Register {
                ip: old(self).target_address(*op),
                ..old(self).register
            }),
            !old(self).flag.carry ==> final(self).register == old(self).register,
            r is Err ==> final(self).register == old(self).register,
    {
        let cond: bool = self.flag.carry;
        self.jump_if(op, cond)
    }

    /// JBE/JNA: jump when carry or zero is set.
    pub fn jbe(&mut self, op: &Operation) -> (r: Result<(), MachineError>)
        requires
            old(self).wf(),
            op.wf(),
        ensures
            final(self).wf(),
            final(self).flag == old(self).flag,
            final(self).memory@ == old(self).memory@,
            final(self).text@ == old(self).text@,
            final(self).metadata == old(self).metadata,
            final(self).stop == old(self).stop,
            final(self).exit_status == old(self).exit_status,
            r is Ok <==> (!(old(self).flag.carry || old(self).flag.zero) || old(
                self,
            ).target_address(*op) <= old(self).metadata.text_size),
            r is Ok && (old(self).flag.carry || old(self).flag.zero) ==> final(self).register == (
            Register { ip: old(self).target_address(*op), ..old(self).register }),
            !(old(self).flag.carry || old(self).flag.zero) ==> final(self).register == old(
                self,
            ).register,
            r is Err ==> final(self).register == old(self).register,
    {
        let cond: bool = self.flag.carry || self.flag.zero;
        self.jump_if(op, cond)
    }

    /// JLE/JNG: jump when sign or zero is set.
    pub fn jle(&mut self, op: &Operation) -> (r: Result<(), MachineError>)
        requires
            old(self).wf(),
            op.wf(),
        ensures
            final(self).wf(),
            final(self).flag == old(self).flag,
            final(self).memory@ == old(self).memory@,
            final(self).text@ == old(self).text@,
            final(self).metadata == old(self).metadata,
            final(self).stop == old(self).stop,
            final(self).exit_status == old(self).exit_status,
            r is Ok <==> (!(old(self).flag.sign || old(self).flag.zero) || old(
                self,
            ).target_address(*op) <= old(self).metadata.text_size),
            r is Ok && (old(self).flag.sign || old(self).flag.zero) ==> final(self).register == (
            Register { ip: old(self).target_address(*op), ..old(self).register }),
            !(old(self).flag.sign || old(self).flag.zero) ==> final(self).register == old(
                self,
            ).register,
            r is Err ==> final(self).register == old(self).register,
    {
        let cond: bool = self.flag.sign || self.flag.zero;
        self.jump_if(op, cond)
    }

    /// JNBE/JA: jump when both carry and zero are clear.
    pub fn jnbe(&mut self, op: &Operation) -> (r: Result<(), MachineError>)
        requires
            old(self).wf(),
            op.wf(),
        ensures
            final(self).wf(),
            final(self).flag == old(self).flag,
            final(self).memory@ == old(self).memory@,
            final(self).text@ == old(self).text@,
            final(self).metadata == old(self).metadata,
            final(self).stop == old(self).stop,
            final(self).exit_status == old(self).exit_status,
            r is Ok <==> (!(!old(self).flag.carry && !old(self).flag.zero) || old(
                self,
            ).target_address(*op) <= old(self).metadata.text_size),
            r is Ok && (!old(self).flag.carry && !old(self).flag.zero) ==> final(self).register
                == (Register { ip: old(self).target_address(*op), ..old(self).register }),
            !(!old(self).flag.carry && !old(self).flag.zero) ==> final(self).register == old(
                self,
            ).register,
            r is Err ==> final(self).register == old(self).register,
    {
        let cond: bool = !self.flag.carry && !self.flag.zero;
        self.jump_if(op, cond)
    }

    /// JNLE/JG: jump when both sign and zero are clear.
    pub fn jnle(&mut self, op: &Operation) -> (r: Result<(), MachineError>)
        requires
            old(self).wf(),
            op.wf(),
        ensures
            final(self).wf(),
            final(self).flag == old(self).flag,
            final(self).memory@ == old(self).memory@,
            final(self).text@ == old(self).text@,
            final(self).metadata == old(self).metadata,
            final(self).stop == old(self).stop,
            final(self).exit_status == old(self).exit_status,
            r is Ok <==> (!(!old(self).flag.sign && !old(self).flag.zero) || old(
                self,
            ).target_address(*op) <= old(self).metadata.text_size),
            r is Ok && (!old(self).flag.sign && !old(self).flag.zero) ==> final(self).register == (
            Register { ip: old(self).target_address(*op), ..old(self).register }),
            !(!old(self).flag.sign && !old(self).flag.zero) ==> final(self).register == old(
                self,
            ).register,
            r is Err ==> final(self).register == old(self).register,
    {
        let cond: bool = !self.flag.sign && !self.flag.zero;
        self.jump_if(op, cond)
    }

    /// LEA: writes the computed effective address itself (not its memory
    /// contents) into the register named by `reg`. The trace notes the word
    /// at that address, so the address must lie inside memory.
    pub fn lea(&mut self, op: &Operation) -> (r: Result<(), MachineError>)
        requires
            old(self).wf(),
            op.wf(),
        ensures
            final(self).wf(),
            final(self).flag == old(self).flag,
            final(self).memory@ == old(self).memory@,
            final(self).text@ == old(self).text@,
            final(self).metadata == old(self).metadata,
            final(self).stop == old(self).stop,
            final(self).exit_status == old(self).exit_status,
            final(self).register.ip == old(self).register.ip,
            r is Ok <==> (if op.w == 0 {
                old(self).target_address(*op) < old(self).memory@.len()
            } else {
                old(self).target_address(*op) + 1 < old(self).memory@.len()
            }),
            r is Ok ==> final(self).register == old(self).register.spec_set(
                RegisterType::from_bits(op.reg, op.w),
                old(self).target_address(*op),
            ),
            r is Err ==> final(self).register == old(self).register,
    {
        let addr: u16 = match self.calc_effective_address(op) {
            Resolved::Reg(t) => self.register.get(t),
            Resolved::Mem(a) => a,
            Resolved::Rel(a) => a,
        };
        let a: usize = addr as usize;
        let val: u16;
        if op.w == 0 {
            if a >= self.memory.len() {
                return Err(MachineError::MemoryOutOfBounds { addr: a });
            }
            val = self.memory[a] as u16;
        } else {
            if a + 1 >= self.memory.len() {
                return Err(MachineError::MemoryOutOfBounds { addr: a + 1 });
            }
            val = read_16(&self.memory, a);
        }
        self.dump.address_value(a, val);
        self.register.set(op.get_register(), addr);
        Ok(())
    }

    /// XCHG: swaps the first operand with the second, or with AX for the
    /// single-byte accumulator form.
    pub fn xchg(&mut self, op: &Operation) -> (r: Result<(), MachineError>)
        requires
            old(self).wf(),
            op.wf(),
        ensures
            final(self).wf(),
            final(self).flag == old(self).flag,
            final(self).register.ip == old(self).register.ip,
            final(self).text@ == old(self).text@,
            final(self).metadata == old(self).metadata,
            final(self).stop == old(self).stop,
            final(self).exit_status == old(self).exit_status,
            r is Ok && op.second == OperandType::Absent ==> Machine::write_rel(
                (Machine {
                    register: old(self).register.spec_set(
                        RegisterType::from_bits(0, 1),
                        old(self).operand_value(*op, op.first),
                    ),
                    ..*old(self)
                }),
                *final(self),
                *op,
                op.first,
                old(self).register.ax(),
            ),
            op.second == OperandType::Absent || op.second == OperandType::Reg ==> (r is Ok
                <==> old(self).operand_read_ok(*op, op.first) && old(self).operand_write_ok(
                *op,
                op.first,
            )),
            r is Ok && op.second != OperandType::Absent ==> exists|mid: Machine|
                {
                    &&& #[trigger] Machine::write_rel(
                        *old(self),
                        mid,
                        *op,
                        op.first,
                        old(self).operand_value(*op, op.second),
                    )
                    &&& Machine::write_rel(
                        mid,
                        *final(self),
                        *op,
                        op.second,
                        old(self).operand_value(*op, op.first),
                    )
                },
            r is Ok && op.first == OperandType::EA && op.second == OperandType::Reg
                && op.mod_rm == 3 ==> ({
                // Both operands are registers: each ends up with the other's
                // old value, and memory is untouched.
                let rm_t = RegisterType::from_bits(op.rm, op.w);
                let reg_t = RegisterType::from_bits(op.reg, op.w);
                &&& final(self).register == old(self).register.spec_set(
                    rm_t,
                    old(self).register.value_of(reg_t),
                ).spec_set(reg_t, old(self).register.value_of(rm_t) as u16)
                &&& final(self).memory@ == old(self).memory@
            }),
    {
        let left: u16 = self.read_operand(op, op.first)?;
        if matches!(op.second, OperandType::Absent) {
            let right: u16 = self.register.get_ax();
            self.register.set_ax(left);
            self.write_operand(op, op.first, right)
        } else {
            let right: u16 = self.read_operand(op, op.second)?;
            self.write_operand(op, op.first, right)?;
            let ghost mid = *self;
            let r = self.write_operand(op, op.second, left);
            proof {
                if r is Ok {
                    assert(Machine::write_rel(
                        *old(self),
                        mid,
                        *op,
                        op.first,
                        old(self).operand_value(*op, op.second),
                    ));
                }
            }
            r
        }
    }

    /// SHL/SAL: shifts left by one (`v = 0`) or by CL masked to five bits
    /// (`v = 1`). A zero count leaves the operand and the flags unchanged.
    pub fn shl(&mut self, op: &Operation) -> (r: Result<(), MachineError>)
        requires
            old(self).wf(),
            op.wf(),
        ensures
            final(self).wf(),
            final(self).register.ip == old(self).register.ip,
            final(self).text@ == old(self).text@,
            final(self).metadata == old(self).metadata,
            r is Ok <==> old(self).operand_read_ok(*op, op.first) && ((op.v == 1 && old(
                self,
            ).register.cl % 32 == 0) || old(self).operand_write_ok(*op, op.first)),
            r is Ok ==> ({
                let count = if op.v == 0 {
                    1u8
                } else {
                    (old(self).register.cl % 32) as u8
                };
                let v = old(self).operand_value(*op, op.first);
                if count == 0 {
                    final(self).same_but_dump(*old(self))
                } else {
                    Machine::write_rel(
                        old(self).with_flag(alu::shl_flags(v, count as nat, op.w)),
                        *final(self),
                        *op,
                        op.first,
                        alu::shl_result(v, count as nat, op.w),
                    )
                }
            }),
    {
        let value: u16 = self.read_operand(op, op.first)?;
        let count: u8 = if op.v == 0 {
            1
        } else {
            self.register.cl % 32
        };
        if count == 0 {
            return Ok(());
        }
        let res: (u16, Flag) = alu::alu_shl(value, count, op.w);
        self.flag.set_cosz(res.1.carry, res.1.overflow, res.1.sign, res.1.zero);
        self.write_operand(op, op.first, res.0)
    }

    /// SAR: arithmetic right shift by one (`v = 0`) or by CL masked to five
    /// bits (`v = 1`). A zero count leaves the operand and the flags
    /// unchanged.
    pub fn sar(&mut self, op: &Operation) -> (r: Result<(), MachineError>)
        requires
            old(self).wf(),
            op.wf(),
        ensures
            final(self).wf(),
            final(self).register.ip == old(self).register.ip,
            final(self).text@ == old(self).text@,
            final(self).metadata == old(self).metadata,
            r is Ok <==> old(self).operand_read_ok(*op, op.first) && ((op.v == 1 && old(
                self,
            ).register.cl % 32 == 0) || old(self).operand_write_ok(*op, op.first)),
            r is Ok ==> ({
                let count = if op.v == 0 {
                    1u8
                } else {
                    (old(self).register.cl % 32) as u8
                };
                let v = old(self).operand_value(*op, op.first);
                if count == 0 {
                    final(self).same_but_dump(*old(self))
                } else {
                    Machine::write_rel(
                        old(self).with_flag(alu::sar_flags(v, count as nat, op.w)),
                        *final(self),
                        *op,
                        op.first,
                        alu::sar_result(v, count as nat, op.w),
                    )
                }
            }),
    {
        let value: u16 = self.read_operand(op, op.first)?;
        let count: u8 = if op.v == 0 {
            1
        } else {
            self.register.cl % 32
        };
        if count == 0 {
            return Ok(());
        }
        let res: (u16, Flag) = alu::alu_sar(value, count, op.w);
        self.flag.set_cosz(res.1.carry, res.1.overflow, res.1.sign, res.1.zero);
        self.write_operand(op, op.first, res.0)
    }
}

impl Machine {
    /// The type word of the message block at `[BX]`.
    pub open spec fn msg_type_of(self) -> u16 {
        le16(self.memory@, self.register.bx() + 2)
    }

    /// The `i`-th detail word of the message block at `[BX]`: `m1i1`,
    /// `m1i2`, `m1i3`, `m1p1`, `m1p2`, `m1p3` in order.
    pub open spec fn msg_detail(self, i: int) -> u16 {
        le16(self.memory@, self.register.bx() + 4 + 2 * i)
    }

    /// Whether a brk request succeeds: the requested address must not cut
    /// into initialized data and must stay a kilobyte below the stack
    /// pointer's kilobyte boundary.
    pub open spec fn spec_brk_ok(addr: u16, data_size: int, sp: u16) -> bool {
        &&& addr >= data_size
        &&& (addr as int) < (sp as int / 0x400) * 0x400 - 0x400
    }

    /// Whether the interrupt gateway succeeds on this state: the message
    /// block must fit in memory, its type must name an implemented system
    /// call, and a write call's byte range must be in bounds and hold
    /// well-formed UTF-8.
    pub open spec fn int_ok(self) -> bool {
        let bx = self.register.bx() as int;
        let len = self.memory@.len() as int;
        &&& bx + 4 <= len
        &&& {
            let t = self.msg_type_of();
            if t == 1 {
                bx + 16 <= len
            } else if t == 4 {
                &&& bx + 16 <= len
                &&& self.msg_detail(3) < len
                &&& self.msg_detail(3) + self.msg_detail(1) <= len
                &&& utf8_ok(
                    self.memory@.subrange(
                        self.msg_detail(3) as int,
                        self.msg_detail(3) + self.msg_detail(1),
                    ),
                )
            } else if t == 17 {
                bx + 12 <= len
            } else if t == 54 {
                bx + 20 <= len
            } else {
                false
            }
        }
    }

    /// Records the guest's exit: the machine stops and remembers the
    /// status.
    pub fn exit(&mut self, status: u16)
        ensures
            final(self).stop == true,
            final(self).exit_status == Some(status),
            final(self).register == old(self).register,
            final(self).memory@ == old(self).memory@,
            final(self).flag == old(self).flag,
            final(self).text@ == old(self).text@,
            final(self).metadata == old(self).metadata,
            final(self).dump.enabled == old(self).dump.enabled,
    {
        self.dump.exit(status);
        self.stop = true;
        self.exit_status = Some(status);
    }

    /// The write system call's data move: checks the byte range and its
    /// UTF-8 well-formedness, then appends the bytes to the output stream.
    pub fn write(&mut self, fd: u16, addr: usize, len: u16) -> (r: Result<(), MachineError>)
        requires
            old(self).wf(),
        ensures
            final(self).wf(),
            final(self).register == old(self).register,
            final(self).memory@ == old(self).memory@,
            final(self).flag == old(self).flag,
            final(self).text@ == old(self).text@,
            final(self).metadata == old(self).metadata,
            final(self).stop == old(self).stop,
            final(self).exit_status == old(self).exit_status,
            final(self).dump.enabled == old(self).dump.enabled,
            r is Ok <==> addr < old(self).memory@.len() && addr + len <= old(self).memory@.len()
                && utf8_ok(old(self).memory@.subrange(addr as int, addr + len)),
            r is Ok && !old(self).dump.enabled ==> final(self).dump.out@ == old(self).dump.out@
                + old(self).memory@.subrange(addr as int, addr + len),
    {
        if addr >= self.memory.len() {
            return Err(MachineError::MemoryOutOfBounds { addr });
        }
        let end: usize = addr + (len as usize);
        if end > self.memory.len() {
            return Err(MachineError::MemoryOutOfBounds { addr: end });
        }
        if !crate::utf8::check_utf8(&self.memory, addr, end) {
            return Err(MachineError::InvalidUtf8 { addr });
        }
        self.dump.write(fd, addr, len);
        self.dump.push_raw(&self.memory, addr, end);
        Ok(())
    }

    /// The ioctl stub: only the trace records the request.
    pub fn ioctl(&mut self, fd: u16, req: u16, addr: u16)
        ensures
            final(self).same_but_dump(*old(self)),
    {
        self.dump.ioctl(fd, req, addr);
    }

    /// Decides a brk request and records it in the trace.
    pub fn brk(&mut self, addr: u16) -> (r: bool)
        ensures
            final(self).same_but_dump(*old(self)),
            r == Machine::spec_brk_ok(
                addr,
                old(self).metadata.data_size as int,
                old(self).register.sp,
            ),
    {
        let base: u32 = ((self.register.sp / 0x400) as u32) * 0x400;
        let ok: bool = (addr as usize) >= self.metadata.data_size && base >= 0x400 && (addr
            as u32) < base - 0x400;
        self.dump.brk(addr, ok);
        ok
    }

    /// What a successful interrupt does, by message type: exit stops the
    /// machine with the recorded status; write appends the payload to the
    /// output stream and stores result 0 and the byte count; brk stores its
    /// verdict; ioctl stores EINVAL. Each of the last three clears AX.
    /// IP, flags, the text and the metadata never change.
    pub open spec fn interrupt_rel(pre: Machine, post: Machine) -> bool {
        let bx = pre.register.bx() as int;
        let t = pre.msg_type_of();
        &&& post.register.ip == pre.register.ip
        &&& post.flag == pre.flag
        &&& post.text@ == pre.text@
        &&& post.metadata == pre.metadata
        &&& (t == 1 ==> {
            &&& post.stop == true
            &&& post.exit_status == Some(pre.msg_detail(0))
            &&& post.memory@ == pre.memory@
            &&& post.register == pre.register
        })
        &&& (t == 4 && !pre.dump.enabled ==> post.dump.out@ == pre.dump.out@
            + pre.memory@.subrange(
            pre.msg_detail(3) as int,
            pre.msg_detail(3) + pre.msg_detail(1),
        ))
        &&& (t == 4 ==> {
            &&& post.register == pre.register.spec_set(RegisterType::from_bits(0, 1), 0)
            &&& post.memory@ == pre.memory@.update(bx, 0u8).update(bx + 1, 0u8).update(
                bx + 2,
                (pre.msg_detail(1) % 256) as u8,
            ).update(bx + 3, (pre.msg_detail(1) / 256) as u8)
            &&& post.stop == pre.stop
        })
        &&& (t == 17 ==> {
            let errno: u16 = if Machine::spec_brk_ok(
                pre.msg_detail(3),
                pre.metadata.data_size as int,
                pre.register.sp,
            ) {
                0
            } else {
                12
            };
            &&& post.register == pre.register.spec_set(RegisterType::from_bits(0, 1), 0)
            &&& post.memory@ == pre.memory@.update(bx, 0u8).update(bx + 1, 0u8).update(
                bx + 2,
                (errno % 256) as u8,
            ).update(bx + 3, (errno / 256) as u8)
            &&& post.stop == pre.stop
        })
        &&& (t == 54 ==> {
            &&& post.register == pre.register.spec_set(RegisterType::from_bits(0, 1), 0)
            &&& post.memory@ == pre.memory@.update(bx, 0u8).update(bx + 1, 0u8).update(
                bx + 2,
                0xeau8,
            ).update(bx + 3, 0xffu8)
            &&& post.stop == pre.stop
        })
    }

    /// The interrupt gateway: reads the message block at `[BX]` and enacts
    /// the system call its type names (1 exit, 4 write, 17 brk, 54 ioctl).
    /// Any other type, an out-of-range block, or a bad write is fatal.
    pub fn interrupt(&mut self) -> (r: Result<(), MachineError>)
        requires
            old(self).wf(),
        ensures
            final(self).wf(),
            final(self).register.ip == old(self).register.ip,
            final(self).flag == old(self).flag,
            final(self).text@ == old(self).text@,
            final(self).metadata == old(self).metadata,
            r is Ok <==> old(self).int_ok(),
            r is Ok ==> Machine::interrupt_rel(*old(self), *final(self)),
    {
        let bx: usize = self.register.get_bx() as usize;
        if bx + 4 > self.memory.len() {
            return Err(MachineError::MemoryOutOfBounds { addr: bx + 3 });
        }
        let msg: Message = Message::load(&self.memory, bx);
        if msg.message_type == 1 {
            // exit
            if bx + 16 > self.memory.len() {
                return Err(MachineError::MemoryOutOfBounds { addr: bx + 15 });
            }
            let detail = msg.load_detail1(&self.memory);
            self.exit(detail.m1i1());
            Ok(())
        } else if msg.message_type == 4 {
            // write
            if bx + 16 > self.memory.len() {
                return Err(MachineError::MemoryOutOfBounds { addr: bx + 15 });
            }
            let detail = msg.load_detail1(&self.memory);
            let fd: u16 = detail.m1i1();
            let addr: u16 = detail.m1p1();
            let len: u16 = detail.m1i2();
            self.write(fd, addr as usize, len)?;
            write_16(&mut self.memory, bx, 0);
            write_16(&mut self.memory, bx + 2, len);
            self.register.set_ax(0);
            Ok(())
        } else if msg.message_type == 17 {
            // brk
            if bx + 12 > self.memory.len() {
                return Err(MachineError::MemoryOutOfBounds { addr: bx + 11 });
            }
            let addr: u16 = read_16(&self.memory, bx + MESSAGE_SIZE + 6);
            let res: bool = self.brk(addr);
            self.register.set_ax(0);
            write_16(&mut self.memory, bx, 0);
            if res {
                write_16(&mut self.memory, bx + 2, 0);
            } else {
                write_16(&mut self.memory, bx + 2, 12);  // ENOMEM
            }
            Ok(())
        } else if msg.message_type == 54 {
            // ioctl
            if bx + 20 > self.memory.len() {
                return Err(MachineError::MemoryOutOfBounds { addr: bx + 19 });
            }
            let fd: u16 = read_16(&self.memory, bx + MESSAGE_SIZE);
            let req: u16 = read_16(&self.memory, bx + MESSAGE_SIZE + 4);
            let addr: u16 = read_16(&self.memory, bx + MESSAGE_SIZE + 14);
            self.ioctl(fd, req, addr);
            self.register.set_ax(0);
            write_16(&mut self.memory, bx, 0);
            write_16(&mut self.memory, bx + 2, 0xffea);  // -22, EINVAL as the guest sees it
            Ok(())
        } else {
            Err(MachineError::UnknownSyscall { syscall: msg.message_type })
        }
    }

    /// The flag predicate a conditional jump tests.
    pub open spec fn jump_taken(f: Flag, t: OperationType) -> bool {
        match t {
            OperationType::JeJz => f.zero,
            OperationType::JneJnz => !f.zero,
            OperationType::JlJnge => f.sign,
            OperationType::JnlJge => !f.sign,
            OperationType::JbJnae => f.carry,
            OperationType::JnbJae => !f.carry,
            OperationType::JbeJna => f.carry || f.zero,
            OperationType::JleJng => f.sign || f.zero,
            OperationType::JnbeJa => !f.carry && !f.zero,
            OperationType::JnleJg => !f.sign && !f.zero,
            _ => false,
        }
    }

    /// The implemented conditional jumps.
    pub open spec fn is_cond_jump(t: OperationType) -> bool {
        match t {
            OperationType::JeJz => true,
            OperationType::JneJnz => true,
            OperationType::JlJnge => true,
            OperationType::JnlJge => true,
            OperationType::JbJnae => true,
            OperationType::JnbJae => true,
            OperationType::JbeJna => true,
            OperationType::JleJng => true,
            OperationType::JnbeJa => true,
            OperationType::JnleJg => true,
            _ => false,
        }
    }

    /// The shift count an SHL/SAR takes: one, or CL masked to five bits.
    pub open spec fn shift_count(self, op: Operation) -> u8 {
        if op.v == 0 {
            1u8
        } else {
            (self.register.cl % 32) as u8
        }
    }

    /// Whether dispatching `op` on this state succeeds: the per-mnemonic
    /// success conditions of the handlers, and false on every mnemonic the
    /// executor does not implement.
    pub open spec fn execute_ok(self, op: Operation) -> bool {
        let t = op.operation_type;
        if t == OperationType::Mov {
            self.operand_read_ok(op, op.second) && self.operand_write_ok(op, op.first)
        } else if t == OperationType::Add || t == OperationType::Sub || t == OperationType::And || t
            == OperationType::Or || t == OperationType::Xor {
            self.operand_read_ok(op, op.first) && self.operand_read_ok(op, op.second)
                && self.operand_write_ok(op, op.first)
        } else if t == OperationType::Cmp || t == OperationType::Test {
            self.operand_read_ok(op, op.first) && self.operand_read_ok(op, op.second)
        } else if t == OperationType::Inc || t == OperationType::Dec || t == OperationType::Neg {
            self.operand_read_ok(op, op.first) && self.operand_write_ok(op, op.first)
        } else if t == OperationType::Div {
            self.operand_read_ok(op, op.second) && alu::sized(
                self.operand_value(op, op.second),
                op.w,
            ) != 0
        } else if t == OperationType::Cbw || t == OperationType::Cwd {
            true
        } else if t == OperationType::Push {
            self.operand_read_ok(op, op.first) && 2 <= self.register.sp && self.register.sp
                <= self.memory@.len()
        } else if t == OperationType::Pop {
            self.register.sp + 2 <= self.memory@.len() && self.operand_write_ok(op, op.first)
        } else if t == OperationType::Call {
            self.target_address(op) <= self.metadata.text_size && 2 <= self.register.sp
                && self.register.sp <= self.memory@.len()
        } else if t == OperationType::Ret {
            self.register.sp + 2 <= self.memory@.len() && le16(self.memory@, self.register.sp as int)
                <= self.metadata.text_size && (op.first == OperandType::Imm || op.first
                == OperandType::Absent)
        } else if t == OperationType::Jmp {
            self.target_address(op) <= self.metadata.text_size
        } else if Machine::is_cond_jump(t) {
            !Machine::jump_taken(self.flag, t) || self.target_address(op)
                <= self.metadata.text_size
        } else if t == OperationType::Lea {
            if op.w == 0 {
                self.target_address(op) < self.memory@.len()
            } else {
                self.target_address(op) + 1 < self.memory@.len()
            }
        } else if t == OperationType::Int {
            self.int_ok()
        } else if t == OperationType::Xchg {
            // Exact for the shapes the decoder produces; a memory second
            // operand would also need its own write to land in bounds.
            self.operand_read_ok(op, op.first) && self.operand_write_ok(op, op.first) && (op.second
                == OperandType::Absent || op.second == OperandType::Reg)
        } else if t == OperationType::ShlSal || t == OperationType::Sar {
            self.operand_read_ok(op, op.first) && (self.shift_count(op) == 0
                || self.operand_write_ok(op, op.first))
        } else {
            false
        }
    }

    /// How dispatching `op` relates the state before and after, on success:
    /// the per-mnemonic postconditions of the handlers.
    pub open spec fn execute_rel(pre: Machine, post: Machine, op: Operation) -> bool {
        let t = op.operation_type;
        let l = pre.operand_value(op, op.first);
        let rv = pre.operand_value(op, op.second);
        if t == OperationType::Mov {
            Machine::write_rel(pre, post, op, op.first, rv)
        } else if t == OperationType::Add {
            Machine::write_rel(
                pre.with_flag(alu::add_flags(l, rv, op.w)),
                post,
                op,
                op.first,
                alu::add_result(l, rv, op.w),
            )
        } else if t == OperationType::Sub {
            Machine::sub_rel(pre, post, op)
        } else if t == OperationType::Cmp {
            Machine::cmp_rel(pre, post, op)
        } else if t == OperationType::And {
            Machine::write_rel(
                pre.with_flag(alu::logic_flags(alu::and_result(l, rv, op.w), op.w)),
                post,
                op,
                op.first,
                alu::and_result(l, rv, op.w),
            )
        } else if t == OperationType::Or {
            Machine::write_rel(
                pre.with_flag(alu::logic_flags(alu::or_result(l, rv, op.w), op.w)),
                post,
                op,
                op.first,
                alu::or_result(l, rv, op.w),
            )
        } else if t == OperationType::Xor {
            Machine::write_rel(
                pre.with_flag(alu::logic_flags(alu::xor_result(l, rv, op.w), op.w)),
                post,
                op,
                op.first,
                alu::xor_result(l, rv, op.w),
            )
        } else if t == OperationType::Test {
            &&& post.flag == alu::logic_flags(alu::and_result(l, rv, op.w), op.w)
            &&& post.register == pre.register
            &&& post.memory@ == pre.memory@
            &&& post.stop == pre.stop
            &&& post.exit_status == pre.exit_status
        } else if t == OperationType::Inc {
            Machine::write_rel(
                pre.with_flag(alu::inc_flags(l, op.w, pre.flag.carry)),
                post,
                op,
                op.first,
                alu::add_result(l, 1, op.w),
            )
        } else if t == OperationType::Dec {
            Machine::write_rel(
                pre.with_flag(alu::dec_flags(l, op.w, pre.flag.carry)),
                post,
                op,
                op.first,
                alu::sub_result(l, 1, op.w),
            )
        } else if t == OperationType::Neg {
            Machine::write_rel(
                pre.with_flag(alu::neg_flags(l, op.w)),
                post,
                op,
                op.first,
                alu::neg_result(l, op.w),
            )
        } else if t == OperationType::Div {
            let d = alu::sized(rv, op.w);
            let num = pre.register.ax() + 0x10000 * pre.register.dx();
            &&& (if op.w == 0 {
                post.register == (Register {
                    al: ((num / d) % 256) as u8,
                    ah: (num % d) as u8,
                    ..pre.register
                })
            } else {
                post.register == pre.register.spec_set(
                    RegisterType::from_bits(0, 1),
                    ((num / d) % 0x10000) as u16,
                ).spec_set(RegisterType::from_bits(2, 1), (num % d) as u16)
            })
            &&& post.flag == pre.flag
            &&& post.memory@ == pre.memory@
            &&& post.stop == pre.stop
            &&& post.exit_status == pre.exit_status
        } else if t == OperationType::Cbw {
            &&& post.register == (Register {
                ah: if pre.register.al >= 0x80 {
                    0xff
                } else {
                    0
                },
                ..pre.register
            })
            &&& post.flag == pre.flag
            &&& post.memory@ == pre.memory@
            &&& post.stop == pre.stop
            &&& post.exit_status == pre.exit_status
        } else if t == OperationType::Cwd {
            &&& post.register == pre.register.spec_set(
                RegisterType::from_bits(2, 1),
                if pre.register.ax() >= 0x8000 {
                    0xffff
                } else {
                    0
                },
            )
            &&& post.flag == pre.flag
            &&& post.memory@ == pre.memory@
            &&& post.stop == pre.stop
            &&& post.exit_status == pre.exit_status
        } else if t == OperationType::Push {
            Machine::push_rel(pre, post, l)
        } else if t == OperationType::Pop {
            Machine::pop_rel(pre, post, op)
        } else if t == OperationType::Call {
            let tgt = pre.target_address(op);
            let sp = pre.register.sp;
            &&& post.register == (Register { ip: tgt, sp: (sp - 2) as u16, ..pre.register })
            &&& post.memory@ == pre.memory@.update(sp - 2, (pre.register.ip % 256) as u8).update(
                sp - 1,
                (pre.register.ip / 256) as u8,
            )
            &&& post.flag == pre.flag
            &&& post.stop == pre.stop
            &&& post.exit_status == pre.exit_status
        } else if t == OperationType::Ret {
            let ra = le16(pre.memory@, pre.register.sp as int);
            let sp2 = (pre.register.sp + 2) % 0x10000;
            &&& (op.first == OperandType::Absent ==> post.register == (Register {
                ip: ra,
                sp: sp2 as u16,
                ..pre.register
            }))
            &&& (op.first == OperandType::Imm ==> post.register == (Register {
                ip: ra,
                sp: ((sp2 + op.disp) % 0x10000) as u16,
                ..pre.register
            }))
            &&& post.flag == pre.flag
            &&& post.memory@ == pre.memory@
            &&& post.stop == pre.stop
            &&& post.exit_status == pre.exit_status
        } else if t == OperationType::Jmp {
            &&& post.register == (Register { ip: pre.target_address(op), ..pre.register })
            &&& post.flag == pre.flag
            &&& post.memory@ == pre.memory@
            &&& post.stop == pre.stop
            &&& post.exit_status == pre.exit_status
        } else if Machine::is_cond_jump(t) {
            &&& (Machine::jump_taken(pre.flag, t) ==> post.register == (Register {
                ip: pre.target_address(op),
                ..pre.register
            }))
            &&& (!Machine::jump_taken(pre.flag, t) ==> post.register == pre.register)
            &&& post.flag == pre.flag
            &&& post.memory@ == pre.memory@
            &&& post.stop == pre.stop
            &&& post.exit_status == pre.exit_status
        } else if t == OperationType::Lea {
            &&& post.register == pre.register.spec_set(
                RegisterType::from_bits(op.reg, op.w),
                pre.target_address(op),
            )
            &&& post.flag == pre.flag
            &&& post.memory@ == pre.memory@
            &&& post.stop == pre.stop
            &&& post.exit_status == pre.exit_status
        } else if t == OperationType::Int {
            Machine::interrupt_rel(pre, post)
        } else if t == OperationType::Xchg {
            &&& post.flag == pre.flag
            &&& post.register.ip == pre.register.ip
            &&& (op.second == OperandType::Absent ==> Machine::write_rel(
                (Machine {
                    register: pre.register.spec_set(RegisterType::from_bits(0, 1), l),
                    ..pre
                }),
                post,
                op,
                op.first,
                pre.register.ax(),
            ))
            &&& (op.second != OperandType::Absent ==> exists|mid: Machine|
                {
                    &&& #[trigger] Machine::write_rel(pre, mid, op, op.first, rv)
                    &&& Machine::write_rel(mid, post, op, op.second, l)
                })
        } else if t == OperationType::ShlSal {
            let count = pre.shift_count(op);
            if count == 0 {
                post.same_but_dump(pre)
            } else {
                Machine::write_rel(
                    pre.with_flag(alu::shl_flags(l, count as nat, op.w)),
                    post,
                    op,
                    op.first,
                    alu::shl_result(l, count as nat, op.w),
                )
            }
        } else if t == OperationType::Sar {
            let count = pre.shift_count(op);
            if count == 0 {
                post.same_but_dump(pre)
            } else {
                Machine::write_rel(
                    pre.with_flag(alu::sar_flags(l, count as nat, op.w)),
                    post,
                    op,
                    op.first,
                    alu::sar_result(l, count as nat, op.w),
                )
            }
        } else {
            false
        }
    }

    /// Dispatches a decoded operation to its handler. Executing an
    /// operation outside the control-transfer family never moves IP: the
    /// loop has already set IP to the byte after the instruction.
    #[verifier::rlimit(100)]
    pub fn execute(&mut self, op: &Operation) -> (r: Result<(), MachineError>)
        requires
            old(self).wf(),
            op.wf(),
        ensures
            final(self).wf(),
            final(self).text@ == old(self).text@,
            final(self).metadata == old(self).metadata,
            !op.operation_type.is_control_transfer() ==> final(self).register.ip == old(
                self,
            ).register.ip,
            op.operation_type == OperationType::Mov ==> final(self).flag == old(self).flag,
            op.operation_type != OperationType::Xchg || op.second == OperandType::Absent
                || op.second == OperandType::Reg ==> (r is Ok <==> old(self).execute_ok(*op)),
            r is Ok ==> Machine::execute_rel(*old(self), *final(self), *op),
    {
        match op.operation_type {
            OperationType::Mov => self.mov(op),
            OperationType::Add => self.add(op),
            OperationType::Sub => self.sub(op),
            OperationType::Int => self.interrupt(),
            OperationType::Push => self.push(op),
            OperationType::Pop => self.pop(op),
            OperationType::Call => self.call(op),
            OperationType::Jmp => self.jmp(op),
            OperationType::Lea => self.lea(op),
            OperationType::Ret => self.ret(op),
            OperationType::Or => self.or(op),
            OperationType::JeJz => self.je(op),
            OperationType::Cmp => self.cmp(op),
            OperationType::JnlJge => self.jnl(op),
            OperationType::Xor => self.xor(op),
            OperationType::JnbJae => self.jnb(op),
            OperationType::Test => self.test(op),
            OperationType::JneJnz => self.jne(op),
            OperationType::Dec => self.dec(op),
            OperationType::JlJnge => self.jl(op),
            OperationType::Cbw => {
                self.cbw();
                Ok(())
            },
            OperationType::Inc => self.inc(op),
            OperationType::And => self.and(op),
            OperationType::JbJnae => self.jb(op),
            OperationType::JleJng => self.jle(op),
            OperationType::JnbeJa => self.jnbe(op),
            OperationType::ShlSal => self.shl(op),
            OperationType::Sar => self.sar(op),
            OperationType::JnleJg => self.jnle(op),
            OperationType::Cwd => {
                self.cwd();
                Ok(())
            },
            OperationType::Div => self.div(op),
            OperationType::Xchg => self.xchg(op),
            OperationType::Neg => self.neg(op),
            OperationType::JbeJna => self.jbe(op),
            _ => Err(MachineError::Unimplemented { operation: op.operation_type }),
        }
    }

    /// One executed machine step, up to trace-sink contents: an
    /// instruction decoded at the current IP (exactly as the decoder's
    /// contract describes it), IP advanced past its bytes, then the
    /// dispatch relation for its mnemonic.
    pub open spec fn step_rel(pre: Machine, post: Machine, op: Operation) -> bool {
        &&& op.wf()
        &&& op.pos == pre.register.ip
        &&& op.pos + op.raws@.len() <= pre.text@.len()
        &&& op.raws@ == pre.text@.subrange(op.pos as int, op.pos + op.raws@.len())
        &&& decoded_ok(pre.text@, op.pos as int, op)
        &&& op.operation_type != OperationType::Undefined
        &&& exists|m: Machine, q: Machine|
            {
                &&& #[trigger] Machine::execute_rel(m, q, op)
                &&& m.same_but_dump(
                    (Machine {
                        register: (Register {
                            ip: ((op.pos + op.raws@.len()) % 0x10000) as u16,
                            ..pre.register
                        }),
                        ..pre
                    }),
                )
                &&& post.same_but_dump(q)
            }
    }

    /// `post` is reachable from `pre` by exactly `n` executed
    /// instructions, up to trace-sink contents.
    pub open spec fn reaches(pre: Machine, post: Machine, n: nat) -> bool
        decreases n,
    {
        if n == 0 {
            post.same_but_dump(pre)
        } else {
            exists|m: Machine, op: Operation|
                {
                    &&& #[trigger] Machine::step_rel(m, post, op)
                    &&& Machine::reaches(pre, m, (n - 1) as nat)
                }
        }
    }

    /// One fetch/decode/execute step. Returns the executed operation, or
    /// `None` when IP has left the text segment or the synthetic end marker
    /// was reached (the machine then stops).
    ///
    /// After a successful step whose operation is not a control transfer,
    /// IP is the position just past that instruction's bytes.
    pub fn step(&mut self, dis: &mut Disassembler) -> (r: Result<Option<Operation>, MachineError>)
        requires
            old(self).wf(),
            old(dis).wf(),
            old(dis).text@ == old(self).text@,
        ensures
            final(self).wf(),
            final(dis).wf(),
            final(dis).text@ == old(dis).text@,
            final(self).text@ == old(self).text@,
            final(self).metadata == old(self).metadata,
            r is Ok && r->Ok_0 is Some ==> ({
                let op = r->Ok_0->0;
                &&& op.wf()
                &&& op.pos == old(self).register.ip
                &&& (!op.operation_type.is_control_transfer() ==> final(self).register.ip == (op.pos
                    + op.raws@.len()) % 0x10000)
                &&& Machine::step_rel(*old(self), *final(self), op)
            }),
            r is Ok && r->Ok_0 is None ==> final(self).same_but_dump(
                (Machine { stop: true, ..*old(self) }),
            ),
            old(self).register.ip as int >= old(self).text@.len() ==> r is Ok && r->Ok_0 is None,
            (old(self).register.ip as int) < old(self).text@.len()
                && !crate::disassembler::can_decode(old(self).text@, old(self).register.ip as int)
                ==> r is Err,
    {
        if (self.register.ip as usize) >= self.text.len() {
            self.stop = true;
            return Ok(None);
        }
        self.dump.state(&self.register, &self.flag);
        let op: Operation = match dis.next(self.register.ip) {
            Ok(op) => op,
            Err(e) => {
                return Err(MachineError::Decode(e));
            },
        };
        // Merge the decoder's rendering into the machine's output stream.
        let rendered: usize = dis.dump.out.len();
        self.dump.push_raw(&dis.dump.out, 0, rendered);
        dis.dump.out.clear();
        if matches!(op.operation_type, OperationType::Undefined) {
            // End-of-text marker: stop without executing.
            self.stop = true;
            return Ok(None);
        }
        let next_pos: usize = op.get_next_operation_pos();
        self.register.ip = (next_pos % 0x10000) as u16;
        let ghost mid = *self;
        let res: Result<(), MachineError> = self.execute(&op);
        match res {
            Ok(()) => {
                let ghost post_exec = *self;
                self.dump.eol();
                proof {
                    assert(Machine::execute_rel(mid, post_exec, op));
                    assert((*self).same_but_dump(post_exec));
                }
                Ok(Some(op))
            },
            Err(e) => Err(e),
        }
    }

    /// Runs the fetch/decode/execute loop for at most `fuel` steps. Every
    /// successful run's final state is reachable from the initial one by a
    /// chain of executed instructions, possibly followed by the stop that
    /// ends it.
    pub fn run(&mut self, fuel: usize) -> (r: Result<RunExit, MachineError>)
        requires
            old(self).wf(),
        ensures
            final(self).wf(),
            final(self).text@ == old(self).text@,
            final(self).metadata == old(self).metadata,
            r is Ok && r->Ok_0 is Exited ==> final(self).exit_status == Some(r->Ok_0->0),
            r is Ok && r->Ok_0 is Stopped ==> final(self).stop && final(self).exit_status is None,
            r is Ok ==> exists|n: nat, m: Machine|
                {
                    &&& #[trigger] Machine::reaches(*old(self), m, n)
                    &&& (final(self).same_but_dump(m) || final(self).same_but_dump(
                        (Machine { stop: true, ..m }),
                    ))
                },
            r is Ok && r->Ok_0 is OutOfFuel ==> !final(self).stop && Machine::reaches(
                *old(self),
                *final(self),
                fuel as nat,
            ),
            old(self).stop ==> r is Ok,
    {
        let text_copy: Vec<u8> = clone_bytes(&self.text);
        let mut dis: Disassembler = Disassembler::new(text_copy, self.dump.is_enabled());
        self.dump.labels();
        proof {
            assert(Machine::reaches(*old(self), *self, 0));
        }
        let mut steps: usize = 0;
        while steps < fuel
            invariant
                self.wf(),
                dis.wf(),
                dis.text@ == self.text@,
                self.text@ == old(self).text@,
                self.metadata == old(self).metadata,
                steps <= fuel,
                old(self).stop ==> self.stop,
                Machine::reaches(*old(self), *self, steps as nat),
            decreases fuel - steps,
        {
            if self.stop {
                return Ok(self.run_exit());
            }
            let ghost prev = *self;
            let stepped: Option<Operation> = match self.step(&mut dis) {
                Ok(o) => o,
                Err(e) => {
                    return Err(e);
                },
            };
            proof {
                match &stepped {
                    Some(op) => {
                        assert(Machine::step_rel(prev, *self, *op));
                        assert(Machine::reaches(*old(self), *self, (steps + 1) as nat));
                    },
                    None => {
                        assert((*self).same_but_dump((Machine { stop: true, ..prev })));
                    },
                }
            }
            if stepped.is_none() {
                return Ok(self.run_exit());
            }
            steps = steps + 1;
        }
        if self.stop {
            return Ok(self.run_exit());
        }
        Ok(RunExit::OutOfFuel)
    }

    /// The exit value for a stopped machine: the guest's status if it
    /// exited, otherwise a plain stop.
    fn run_exit(&self) -> (r: RunExit)
        ensures
            r is Exited ==> self.exit_status == Some(r->0),
            r is Stopped ==> self.exit_status is None,
            !(r is OutOfFuel),
    {
        match self.exit_status {
            Some(status) => RunExit::Exited(status),
            None => RunExit::Stopped,
        }
    }
}

/// One string as it sits in a packed segment: its own bytes, with a NUL
/// terminator appended unless it already ends in one.
pub open spec fn packed_item(item: Vec<u8>) -> Seq<u8> {
    if item@.len() > 0 && item@.last() == 0 {
        item@
    } else {
        item@.push(0)
    }
}

/// A list of strings packed into one segment of NUL-terminated runs.
pub open spec fn packed_seg(items: Seq<Vec<u8>>) -> Seq<u8>
    decreases items.len(),
{
    if items.len() == 0 {
        Seq::empty()
    } else {
        packed_seg(items.drop_last()) + packed_item(items.last())
    }
}

/// The number of bytes one string occupies in a packed segment.
pub open spec fn packed_item_size(item: Vec<u8>) -> int {
    packed_item(item).len() as int
}

/// The total size of a packed string segment.
pub open spec fn packed_seg_size(items: Seq<Vec<u8>>) -> int {
    packed_seg(items).len() as int
}

/// A prefix of the string list packs into no more bytes than the whole
/// list.
proof fn lemma_packed_prefix_le(items: Seq<Vec<u8>>, i: int)
    requires
        0 <= i <= items.len(),
    ensures
        packed_seg(items.take(i)).len() <= packed_seg(items).len(),
    decreases items.len() - i,
{
    if i < items.len() {
        assert(items.take(i + 1).drop_last() =~= items.take(i));
        assert(items.take(i + 1).last() == items[i]);
        lemma_packed_prefix_le(items, i + 1);
    } else {
        assert(items.take(i) =~= items);
    }
}

/// The exact size of the initial stack frame: argc and two zero words, one
/// address word per argument and environment string, the packed strings,
/// and a pad byte when that sum is odd.
pub open spec fn frame_size_of(args: Seq<Vec<u8>>, envs: Seq<Vec<u8>>) -> int {
    let raw = 6 + 2 * args.len() + 2 * envs.len() + packed_seg_size(args) + packed_seg_size(envs);
    raw + raw % 2
}

impl Machine {
    /// Builds the initial stack frame for the guest: argc, the absolute
    /// addresses of the argument strings, a zero word, the addresses of the
    /// environment strings, a zero word, then the NUL-terminated strings
    /// themselves, padded to an even length. Offsets are computed against a
    /// frame placed at the top of a `total_memory`-byte image.
    #[verifier::rlimit(100)]
    pub fn create_args_frame(args: &Vec<Vec<u8>>, envs: &Vec<Vec<u8>>, total_memory: usize) -> (r:
        Result<Vec<u8>, LoadError>)
        requires
            total_memory <= 0x10000,
        ensures
            r is Ok ==> ({
                let f = r->Ok_0@;
                let a = args@.len() as int;
                let e = envs@.len() as int;
                let hdr = 6 + 2 * a + 2 * e;
                let la = packed_seg(args@).len() as int;
                let le_ = packed_seg(envs@).len() as int;
                let base = total_memory - frame_size_of(args@, envs@);
                &&& f.len() == frame_size_of(args@, envs@)
                &&& f.len() % 2 == 0
                &&& 6 <= f.len() <= total_memory
                &&& args@.len() <= 0xffff
                &&& le16(f, 0) == args@.len()
                &&& le16(f, 2 + 2 * a) == 0
                &&& le16(f, 4 + 2 * a + 2 * e) == 0
                &&& forall|j: int|
                    0 <= j < a ==> le16(f, 2 + 2 * j) == base + hdr + packed_seg(
                        args@.take(j),
                    ).len()
                &&& forall|j: int|
                    0 <= j < e ==> le16(f, 4 + 2 * a + 2 * j) == base + hdr + la + packed_seg(
                        envs@.take(j),
                    ).len()
                &&& f.subrange(hdr, hdr + la) == packed_seg(args@)
                &&& f.subrange(hdr + la, hdr + la + le_) == packed_seg(envs@)
            }),
            r is Err ==> r->Err_0 == LoadError::FrameTooLarge,
            r is Ok <==> args@.len() <= 0xffff && envs@.len() <= 0xffff && frame_size_of(
                args@,
                envs@,
            ) <= total_memory,
    {
        if args.len() > 0xffff || envs.len() > 0xffff {
            return Err(LoadError::FrameTooLarge);
        }
        let args_packed: (Vec<usize>, Vec<u8>) = pack_strings(args, total_memory)?;
        let envs_packed: (Vec<usize>, Vec<u8>) = pack_strings(envs, total_memory)?;
        let args_offset: Vec<usize> = args_packed.0;
        let args_seg: Vec<u8> = args_packed.1;
        let env_offset: Vec<usize> = envs_packed.0;
        let env_seg: Vec<u8> = envs_packed.1;

        let header_size: usize = 2 + 2 * args_offset.len() + 2 + 2 * env_offset.len() + 2;
        if header_size > total_memory {
            return Err(LoadError::FrameTooLarge);
        }
        let mut frame_size: usize = header_size + args_seg.len() + env_seg.len();
        let last_0_required: bool = frame_size % 2 != 0;
        if last_0_required {
            frame_size = frame_size + 1;
        }
        if frame_size > total_memory {
            return Err(LoadError::FrameTooLarge);
        }
        let frame_base: usize = total_memory - frame_size;
        let args_begin: usize = frame_base + header_size;
        let env_begin: usize = args_begin + args_seg.len();

        let mut frame: Vec<u8> = Vec::new();
        let argc: usize = args_offset.len();
        frame.push((argc % 256) as u8);
        frame.push(((argc / 256) % 256) as u8);
        let mut i: usize = 0;
        while i < args_offset.len()
            invariant
                frame@.len() == 2 + 2 * i,
                i <= args_offset@.len(),
                frame@[0] == (args_offset@.len() % 256) as u8,
                frame@[1] == ((args_offset@.len() / 256) % 256) as u8,
                args_begin + args_seg@.len() <= total_memory <= 0x10000,
                forall|j: int| 0 <= j < args_offset@.len() ==> args_offset@[j] < args_seg@.len(),
                forall|j: int|
                    0 <= j < i ==> le16(frame@, 2 + 2 * j) == args_begin + args_offset@[j],
            decreases args_offset@.len() - i,
        {
            let addr: usize = args_begin + args_offset[i];
            frame.push((addr % 256) as u8);
            frame.push(((addr / 256) % 256) as u8);
            i = i + 1;
        }
        frame.push(0);
        frame.push(0);
        let mut i: usize = 0;
        while i < env_offset.len()
            invariant
                frame@.len() == 2 + 2 * args_offset@.len() + 2 + 2 * i,
                i <= env_offset@.len(),
                frame@[0] == (args_offset@.len() % 256) as u8,
                frame@[1] == ((args_offset@.len() / 256) % 256) as u8,
                frame@[2 + 2 * args_offset@.len() as int] == 0,
                frame@[3 + 2 * args_offset@.len() as int] == 0,
                env_begin + env_seg@.len() <= total_memory <= 0x10000,
                forall|j: int| 0 <= j < env_offset@.len() ==> env_offset@[j] < env_seg@.len(),
                forall|j: int|
                    0 <= j < args_offset@.len() ==> le16(frame@, 2 + 2 * j) == args_begin
                        + args_offset@[j],
                forall|j: int|
                    0 <= j < i ==> le16(frame@, 4 + 2 * args_offset@.len() + 2 * j) == env_begin
                        + env_offset@[j],
            decreases env_offset@.len() - i,
        {
            let addr: usize = env_begin + env_offset[i];
            frame.push((addr % 256) as u8);
            frame.push(((addr / 256) % 256) as u8);
            i = i + 1;
        }
        frame.push(0);
        frame.push(0);
        let ghost hdr = 6 + 2 * args_offset@.len() as int + 2 * env_offset@.len() as int;
        let mut i: usize = 0;
        while i < args_seg.len()
            invariant
                frame@.len() == hdr + i,
                hdr == 6 + 2 * args_offset@.len() + 2 * env_offset@.len(),
                i <= args_seg@.len(),
                frame@[0] == (args_offset@.len() % 256) as u8,
                frame@[1] == ((args_offset@.len() / 256) % 256) as u8,
                frame@[2 + 2 * args_offset@.len() as int] == 0,
                frame@[3 + 2 * args_offset@.len() as int] == 0,
                frame@[4 + 2 * args_offset@.len() as int + 2 * env_offset@.len() as int] == 0,
                frame@[5 + 2 * args_offset@.len() as int + 2 * env_offset@.len() as int] == 0,
                forall|j: int|
                    0 <= j < args_offset@.len() ==> le16(frame@, 2 + 2 * j) == args_begin
                        + args_offset@[j],
                forall|j: int|
                    0 <= j < env_offset@.len() ==> le16(frame@, 4 + 2 * args_offset@.len() + 2 * j)
                        == env_begin + env_offset@[j],
                forall|j: int| 0 <= j < i ==> frame@[hdr + j] == args_seg@[j],
            decreases args_seg@.len() - i,
        {
            let b: u8 = args_seg[i];
            frame.push(b);
            i = i + 1;
        }
        let mut i: usize = 0;
        while i < env_seg.len()
            invariant
                frame@.len() == hdr + args_seg@.len() + i,
                hdr == 6 + 2 * args_offset@.len() + 2 * env_offset@.len(),
                i <= env_seg@.len(),
                frame@[0] == (args_offset@.len() % 256) as u8,
                frame@[1] == ((args_offset@.len() / 256) % 256) as u8,
                frame@[2 + 2 * args_offset@.len() as int] == 0,
                frame@[3 + 2 * args_offset@.len() as int] == 0,
                frame@[4 + 2 * args_offset@.len() as int + 2 * env_offset@.len() as int] == 0,
                frame@[5 + 2 * args_offset@.len() as int + 2 * env_offset@.len() as int] == 0,
                forall|j: int|
                    0 <= j < args_offset@.len() ==> le16(frame@, 2 + 2 * j) == args_begin
                        + args_offset@[j],
                forall|j: int|
                    0 <= j < env_offset@.len() ==> le16(frame@, 4 + 2 * args_offset@.len() + 2 * j)
                        == env_begin + env_offset@[j],
                forall|j: int| 0 <= j < args_seg@.len() ==> frame@[hdr + j] == args_seg@[j],
                forall|j: int|
                    0 <= j < i ==> frame@[hdr + args_seg@.len() + j] == env_seg@[j],
            decreases env_seg@.len() - i,
        {
            let b: u8 = env_seg[i];
            frame.push(b);
            i = i + 1;
        }
        let ghost before_pad = frame@;
        if last_0_required {
            frame.push(0);
        }
        proof {
            let la = packed_seg(args@).len() as int;
            let le_ = packed_seg(envs@).len() as int;
            assert(frame@.subrange(hdr, hdr + la) =~= packed_seg(args@));
            assert(frame@.subrange(hdr + la, hdr + la + le_) =~= packed_seg(envs@));
            assert(frame_size == frame_size_of(args@, envs@));
            assert forall|j: int| 0 <= j < args_offset@.len() implies le16(frame@, 2 + 2 * j)
                == args_begin + args_offset@[j] by {
                assert(frame@[2 + 2 * j] == before_pad[2 + 2 * j]);
                assert(frame@[3 + 2 * j] == before_pad[3 + 2 * j]);
            }
            assert forall|j: int| 0 <= j < env_offset@.len() implies le16(
                frame@,
                4 + 2 * args_offset@.len() + 2 * j,
            ) == env_begin + env_offset@[j] by {
                assert(frame@[4 + 2 * args_offset@.len() + 2 * j] == before_pad[4 + 2
                    * args_offset@.len() + 2 * j]);
                assert(frame@[5 + 2 * args_offset@.len() + 2 * j] == before_pad[5 + 2
                    * args_offset@.len() + 2 * j]);
            }
            let base = total_memory - frame_size_of(args@, envs@);
            let spec_hdr = 6 + 2 * args@.len() as int + 2 * envs@.len() as int;
            assert forall|j: int| 0 <= j < args@.len() implies le16(frame@, 2 + 2 * j) == base
                + spec_hdr + packed_seg(args@.take(j)).len() by {
                assert(le16(frame@, 2 + 2 * j) == args_begin + args_offset@[j]);
                assert(args_offset@[j] == packed_seg(args@.take(j)).len());
            }
            assert forall|j: int| 0 <= j < envs@.len() implies le16(
                frame@,
                4 + 2 * args@.len() as int + 2 * j,
            ) == base + spec_hdr + la + packed_seg(envs@.take(j)).len() by {
                assert(le16(frame@, 4 + 2 * args_offset@.len() + 2 * j) == env_begin
                    + env_offset@[j]);
                assert(env_offset@[j] == packed_seg(envs@.take(j)).len());
            }
        }
        Ok(frame)
    }

    /// Loads an executable image and builds the machine: the header is
    /// validated, the text segment is copied aside, initialized data lands
    /// at address zero of a fresh `total`-byte image, and the argument
    /// frame is placed at the top with SP pointing at it (so the word at SP
    /// is argc). Registers and flags start at zero.
    #[verifier::rlimit(100)]
    pub fn new(
        executable: &Vec<u8>,
        args: &Vec<Vec<u8>>,
        envs: &Vec<Vec<u8>>,
        debug: bool,
    ) -> (r: Result<Machine, LoadError>)
        ensures
            r is Ok ==> ({
                let m = r->Ok_0;
                &&& m.wf()
                &&& m.stop == false
                &&& m.exit_status is None
                &&& m.dump.enabled == debug
                &&& m.dump.out@ == Seq::<u8>::empty()
                &&& m.flag == (Flag { carry: false, overflow: false, sign: false, zero: false })
                &&& m.register.ip == 0
                &&& m.register.ax() == 0 && m.register.bx() == 0 && m.register.cx() == 0
                    && m.register.dx() == 0
                &&& m.register.bp == 0 && m.register.si == 0 && m.register.di == 0
                &&& m.register.es == 0 && m.register.cs == 0 && m.register.ss == 0
                    && m.register.ds == 0
                &&& executable@.len() >= 32
                &&& m.metadata.total == le32(executable@, 24)
                &&& m.metadata.text_size == le32(executable@, 8)
                &&& m.metadata.data_size == le32(executable@, 12)
                &&& m.text@ == executable@.subrange(
                    m.metadata.hdr_len as int,
                    m.metadata.hdr_len + m.metadata.text_size,
                )
                &&& forall|j: int|
                    0 <= j < m.metadata.data_size && j < m.register.sp ==> m.memory@[j]
                        == executable@[m.metadata.hdr_len + m.metadata.text_size + j]
                &&& m.register.sp as int <= m.metadata.total - 6
                &&& m.register.sp as int == m.metadata.total - frame_size_of(args@, envs@)
                &&& le16(m.memory@, m.register.sp as int) == args@.len()
                &&& ({
                    let sp = m.register.sp as int;
                    let hdr = 6 + 2 * args@.len() as int + 2 * envs@.len() as int;
                    let la = packed_seg(args@).len() as int;
                    let le_ = packed_seg(envs@).len() as int;
                    &&& forall|j: int|
                        0 <= j < args@.len() ==> le16(m.memory@, sp + 2 + 2 * j) == sp + hdr
                            + packed_seg(args@.take(j)).len()
                    &&& le16(m.memory@, sp + 2 + 2 * args@.len() as int) == 0
                    &&& forall|j: int|
                        0 <= j < envs@.len() ==> le16(m.memory@, sp + 4 + 2 * args@.len() as int + 2
                            * j) == sp + hdr + la + packed_seg(envs@.take(j)).len()
                    &&& le16(m.memory@, sp + 4 + 2 * args@.len() as int + 2 * envs@.len() as int)
                        == 0
                    &&& m.memory@.subrange(sp + hdr, sp + hdr + la) == packed_seg(args@)
                    &&& m.memory@.subrange(sp + hdr + la, sp + hdr + la + le_) == packed_seg(envs@)
                })
            }),
            r == Err::<Machine, LoadError>(LoadError::TooShort) <==> executable@.len() < 32,
            r is Ok <==> ({
                let n = executable@.len() as int;
                let total = le32(executable@, 24);
                let ts = le32(executable@, 8);
                let ds = le32(executable@, 12);
                &&& n >= 32
                &&& total <= 0x10000
                &&& ts <= total
                &&& ds <= total - ts
                &&& executable@[4] + ts + ds <= n
                &&& args@.len() <= 0xffff
                &&& envs@.len() <= 0xffff
                &&& frame_size_of(args@, envs@) <= total
            }),
    {
        if executable.len() < 32 {
            return Err(LoadError::TooShort);
        }
        let metadata: Metadata = Metadata::from_bytes(executable);
        if metadata.total > 0x10000 {
            return Err(LoadError::SizesInvalid);
        }
        if metadata.text_size > metadata.total || metadata.data_size > metadata.total
            - metadata.text_size {
            return Err(LoadError::SizesInvalid);
        }
        let text_begin: usize = metadata.hdr_len as usize;
        if text_begin > executable.len() || metadata.text_size > executable.len() - text_begin
            || metadata.data_size > executable.len() - text_begin - metadata.text_size {
            return Err(LoadError::SizesInvalid);
        }
        let text: Vec<u8> = copy_range(executable, text_begin, text_begin + metadata.text_size);

        let mut memory: Vec<u8> = zero_bytes(metadata.total);
        let data_begin: usize = text_begin + metadata.text_size;
        let data: Vec<u8> = copy_range(executable, data_begin, data_begin + metadata.data_size);
        copy_into(&mut memory, 0, &data);
        proof {
            assert forall|j: int| 0 <= j < metadata.data_size implies memory@[j] == executable@[data_begin + j] by {
                assert(memory@[0 + j] == data@[j]);
            }
        }

        let frame: Vec<u8> = Self::create_args_frame(args, envs, metadata.total)?;
        let frame_base: usize = metadata.total - frame.len();
        let ghost mem_mid = memory@;
        copy_into(&mut memory, frame_base, &frame);
        proof {
            assert forall|j: int|
                0 <= j < metadata.data_size && j < frame_base implies memory@[j] == executable@[data_begin + j] by {
                assert(memory@[j] == mem_mid[j]);
            }
            let fb = frame_base as int;
            let hdr = 6 + 2 * args@.len() as int + 2 * envs@.len() as int;
            let la = packed_seg(args@).len() as int;
            let le_ = packed_seg(envs@).len() as int;
            assert forall|k: int| 0 <= k < frame@.len() implies memory@[fb + k] == frame@[k] by {}
            assert forall|j: int| 0 <= j < args@.len() implies le16(memory@, fb + 2 + 2 * j) == fb
                + hdr + packed_seg(args@.take(j)).len() by {
                assert(memory@[fb + (2 + 2 * j)] == frame@[2 + 2 * j]);
                assert(memory@[fb + (3 + 2 * j)] == frame@[3 + 2 * j]);
                assert(le16(frame@, 2 + 2 * j) == fb + hdr + packed_seg(args@.take(j)).len());
            }
            assert forall|j: int| 0 <= j < envs@.len() implies le16(
                memory@,
                fb + 4 + 2 * args@.len() as int + 2 * j,
            ) == fb + hdr + la + packed_seg(envs@.take(j)).len() by {
                assert(memory@[fb + (4 + 2 * args@.len() as int + 2 * j)] == frame@[4 + 2
                    * args@.len() as int + 2 * j]);
                assert(memory@[fb + (5 + 2 * args@.len() as int + 2 * j)] == frame@[5 + 2
                    * args@.len() as int + 2 * j]);
                assert(le16(frame@, 4 + 2 * args@.len() as int + 2 * j) == fb + hdr + la
                    + packed_seg(envs@.take(j)).len());
            }
            assert(memory@[fb + (2 + 2 * args@.len() as int)] == frame@[2 + 2 * args@.len() as int]);
            assert(memory@[fb + (3 + 2 * args@.len() as int)] == frame@[3 + 2 * args@.len() as int]);
            assert(memory@[fb + (4 + 2 * args@.len() as int + 2 * envs@.len() as int)] == frame@[4
                + 2 * args@.len() as int + 2 * envs@.len() as int]);
            assert(memory@[fb + (5 + 2 * args@.len() as int + 2 * envs@.len() as int)] == frame@[5
                + 2 * args@.len() as int + 2 * envs@.len() as int]);
            assert forall|t: int| 0 <= t < la implies memory@[fb + hdr + t] == packed_seg(
                args@,
            )[t] by {
                assert(memory@[fb + (hdr + t)] == frame@[hdr + t]);
                assert(frame@[hdr + t] == frame@.subrange(hdr, hdr + la)[t]);
            }
            assert(memory@.subrange(fb + hdr, fb + hdr + la) =~= packed_seg(args@));
            assert forall|t: int| 0 <= t < le_ implies memory@[fb + hdr + la + t] == packed_seg(
                envs@,
            )[t] by {
                assert(memory@[fb + (hdr + la + t)] == frame@[hdr + la + t]);
                assert(frame@[hdr + la + t] == frame@.subrange(hdr + la, hdr + la + le_)[t]);
            }
            assert(memory@.subrange(fb + hdr + la, fb + hdr + la + le_) =~= packed_seg(envs@));
        }

        let mut register: Register = Register::new();
        register.sp = frame_base as u16;

        Ok(
            Machine {
                stop: false,
                memory,
                register,
                metadata,
                flag: Flag::new(),
                dump: Dump::new(debug),
                text,
                exit_status: None,
            },
        )
    }
}

/// Packs a list of strings into one segment of NUL-terminated byte runs,
/// returning each string's offset within the segment. A string already
/// ending in NUL is not terminated again. Fails when the segment outgrows
/// the memory image.
fn pack_strings(items: &Vec<Vec<u8>>, total_memory: usize) -> (r: Result<
    (Vec<usize>, Vec<u8>),
    LoadError,
>)
    ensures
        r is Ok ==> ({
            let offsets = r->Ok_0.0;
            let seg = r->Ok_0.1;
            &&& offsets@.len() == items@.len()
            &&& seg@ == packed_seg(items@)
            &&& seg@.len() <= total_memory
            &&& forall|j: int|
                0 <= j < offsets@.len() ==> offsets@[j] == packed_seg(items@.take(j)).len()
            &&& forall|j: int| 0 <= j < offsets@.len() ==> offsets@[j] < seg@.len()
        }),
        r is Err ==> r->Err_0 == LoadError::FrameTooLarge,
        r is Ok <==> packed_seg_size(items@) <= total_memory,
{
    let mut offsets: Vec<usize> = Vec::new();
    let mut seg: Vec<u8> = Vec::new();
    let mut i: usize = 0;
    while i < items.len()
        invariant
            i <= items@.len(),
            offsets@.len() == i,
            seg@ == packed_seg(items@.take(i as int)),
            seg@.len() <= total_memory,
            forall|j: int|
                0 <= j < offsets@.len() ==> offsets@[j] == packed_seg(items@.take(j)).len(),
            forall|j: int| 0 <= j < offsets@.len() ==> offsets@[j] < seg@.len(),
        decreases items@.len() - i,
    {
        let item: &Vec<u8> = &items[i];
        offsets.push(seg.len());
        let ghost seg0 = seg@;
        let mut k: usize = 0;
        while k < item.len()
            invariant
                k <= item@.len(),
                seg@ == seg0 + item@.take(k as int),
            decreases item@.len() - k,
        {
            let b: u8 = item[k];
            seg.push(b);
            proof {
                assert(seg@ =~= seg0 + item@.take(k + 1));
            }
            k = k + 1;
        }
        proof {
            assert(item@.take(item@.len() as int) =~= item@);
        }
        let needs_nul: bool = if item.len() == 0 {
            true
        } else {
            item[item.len() - 1] != 0
        };
        if needs_nul {
            seg.push(0);
            proof {
                assert(seg@ =~= seg0 + item@.push(0));
            }
        }
        if seg.len() > total_memory {
            proof {
                let taken = items@.take(i + 1);
                assert(taken.drop_last() =~= items@.take(i as int));
                assert(taken.last() == items@[i as int]);
                assert(seg@ =~= packed_seg(taken));
                lemma_packed_prefix_le(items@, i + 1);
            }
            return Err(LoadError::FrameTooLarge);
        }
        proof {
            let taken = items@.take(i + 1);
            assert(taken.drop_last() =~= items@.take(i as int));
            assert(taken.last() == items@[i as int]);
            assert(seg@ =~= packed_seg(taken));
        }
        i = i + 1;
    }
    proof {
        assert(items@.take(items@.len() as int) =~= items@);
    }
    Ok((offsets, seg))
}

/// A zero-filled byte vector.
fn zero_bytes(n: usize) -> (r: Vec<u8>)
    ensures
        r@.len() == n,
        forall|j: int| 0 <= j < n ==> r@[j] == 0,
{
    let mut out: Vec<u8> = Vec::new();
    let mut i: usize = 0;
    while i < n
        invariant
            out@.len() == i <= n,
            forall|j: int| 0 <= j < i ==> out@[j] == 0,
        decreases n - i,
    {
        out.push(0);
        i = i + 1;
    }
    out
}

/// The bytes of `src` between `from` and `to`, as a fresh vector.
fn copy_range(src: &Vec<u8>, from: usize, to: usize) -> (r: Vec<u8>)
    requires
        from <= to <= src.len(),
    ensures
        r@ == src@.subrange(from as int, to as int),
{
    let mut out: Vec<u8> = Vec::new();
    let mut i: usize = from;
    while i < to
        invariant
            from <= i <= to <= src@.len(),
            out@ == src@.subrange(from as int, i as int),
        decreases to - i,
    {
        let b: u8 = src[i];
        out.push(b);
        proof {
            assert(out@ =~= src@.subrange(from as int, i + 1));
        }
        i = i + 1;
    }
    out
}

/// Overwrites `dst[at ..]` with the bytes of `src`, leaving the rest of
/// `dst` untouched.
fn copy_into(dst: &mut Vec<u8>, at: usize, src: &Vec<u8>)
    requires
        at + src.len() <= old(dst).len(),
    ensures
        final(dst)@.len() == old(dst)@.len(),
        forall|j: int| 0 <= j < at ==> final(dst)@[j] == old(dst)@[j],
        forall|j: int| 0 <= j < src@.len() ==> final(dst)@[at + j] == src@[j],
        forall|j: int| at + src@.len() <= j < old(dst)@.len() ==> final(dst)@[j] == old(dst)@[j],
{
    let mut i: usize = 0;
    while i < src.len()
        invariant
            i <= src.len(),
            at + src.len() <= dst.len(),
            dst@.len() == old(dst)@.len(),
            forall|j: int| 0 <= j < at ==> dst@[j] == old(dst)@[j],
            forall|j: int| 0 <= j < i ==> dst@[at + j] == src@[j],
            forall|j: int| at + src@.len() <= j < old(dst)@.len() ==> dst@[j] == old(dst)@[j],
        decreases src@.len() - i,
    {
        let b: u8 = src[i];
        dst.set(at + i, b);
        i = i + 1;
    }
}

/// An element-wise copy of a byte vector.
fn clone_bytes(v: &Vec<u8>) -> (r: Vec<u8>)
    ensures
        r@ == v@,
{
    let mut out: Vec<u8> = Vec::new();
    let mut i: usize = 0;
    while i < v.len()
        invariant
            i <= v@.len(),
            out@ == v@.subrange(0, i as int),
        decreases v@.len() - i,
    {
        let b: u8 = v[i];
        out.push(b);
        proof {
            assert(out@ =~= v@.subrange(0, i + 1));
        }
        i = i + 1;
    }
    proof {
        assert(out@ =~= v@);
    }
    out
}

/// CMP leaves the same flags as SUB on the same operands: executing the two
/// from a common state, only the write-back differs.
pub proof fn lemma_cmp_flags_match_sub(
    pre: Machine,
    post_cmp: Machine,
    post_sub: Machine,
    op: Operation,
)
    requires
        Machine::cmp_rel(pre, post_cmp, op),
        Machine::sub_rel(pre, post_sub, op),
    ensures
        post_cmp.flag == post_sub.flag,
{
}

/// PUSH of a register followed by POP of the same register, with no stack
/// write in between, restores both SP and the register.
pub proof fn lemma_push_pop_round_trip(
    m0: Machine,
    m1: Machine,
    m2: Machine,
    push_op: Operation,
    pop_op: Operation,
)
    requires
        push_op.first == OperandType::Reg,
        pop_op.first == OperandType::Reg,
        push_op.reg == pop_op.reg,
        push_op.w == 1,
        pop_op.w == 1,
        Machine::push_rel(m0, m1, m0.operand_value(push_op, OperandType::Reg)),
        Machine::pop_rel(m1, m2, pop_op),
    ensures
        m2.register.sp == m0.register.sp,
        m2.register.value_of(RegisterType::from_bits(pop_op.reg, 1)) == m0.register.value_of(
            RegisterType::from_bits(push_op.reg, 1),
        ),
{
    let v = m0.operand_value(push_op, OperandType::Reg);
    let sp = m0.register.sp;
    assert(m1.memory@[sp - 2] == (v % 256) as u8);
    assert(m1.memory@[sp - 1] == (v / 256) as u8);
    assert(le16(m1.memory@, m1.register.sp as int) == v);
    let t16 = crate::register::Register16Bit::spec_from_u8(pop_op.reg);
    crate::register::lemma_word_set_get(m1.register, t16, v);
}

/// A decoded JNL behaves as the dispatch rules say: its resolved target is
/// the byte position after the instruction plus the sign-extended short
/// displacement, so together with the JNL handler's contract the jump is
/// taken to that target exactly when the sign flag is clear.
pub proof fn lemma_jnl_target(m: Machine, op: Operation)
    requires
        op.wf(),
        op.raws@.len() >= 1,
        op.raws@[0] == 0x7d,
        decoded_ok(m.text@, op.pos as int, op),
        0 <= op.pos < m.text@.len(),
        m.text@[op.pos as int] == 0x7d,
    ensures
        op.operation_type == OperationType::JnlJge,
        op.raws@.len() == 2,
        op.disp == m.text@[op.pos + 1],
        m.target_address(op) == crate::register::spec_relative_disp(op.pos + 2, op.disp, false),
{
}

} // verus!
