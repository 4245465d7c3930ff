//! The execution core: the register file's closed enumeration, the
//! instruction set with its decoder, the signal dispatch table, and the
//! machine that drives the fetch-decode-execute step loop.

use std::collections::HashMap;

use vstd::prelude::*;

use crate::memory::{Addressable, LinearMemory, mem_read2, mem_write2};

verus! {

broadcast use vstd::std_specs::hash::group_hash_axioms;

/// The eight named 16-bit registers. The position in this enumeration
/// (0..7) is both the register file index and the 4-bit operand
/// encoding used by register-addressing instructions.
#[derive(Clone, Copy, Debug, PartialEq, Eq, Structural)]
pub enum Register {
    A,
    B,
    C,
    M,
    SP,
    PC,
    BP,
    FLAGS,
}

impl Register {
    /// The register's ordinal: its register-file index and its binary
    /// encoding in an instruction operand.
    pub open spec fn ordinal(self) -> int {
        match self {
            Register::A => 0,
            Register::B => 1,
            Register::C => 2,
            Register::M => 3,
            Register::SP => 4,
            Register::PC => 5,
            Register::BP => 6,
            Register::FLAGS => 7,
        }
    }

    /// The register with the given ordinal, if there is one: the tag
    /// space is closed, every value above 7 is rejected.
    pub open spec fn spec_from_u8(v: u8) -> Option<Register> {
        if v == 0 {
            Some(Register::A)
        } else if v == 1 {
            Some(Register::B)
        } else if v == 2 {
            Some(Register::C)
        } else if v == 3 {
            Some(Register::M)
        } else if v == 4 {
            Some(Register::SP)
        } else if v == 5 {
            Some(Register::PC)
        } else if v == 6 {
            Some(Register::BP)
        } else if v == 7 {
            Some(Register::FLAGS)
        } else {
            None
        }
    }

    /// Total, bounds-checked conversion from an ordinal.
    pub fn from_u8(v: u8) -> (r: Option<Register>)
        ensures
            r == Register::spec_from_u8(v),
    {
        match v {
            0 => Some(Register::A),
            1 => Some(Register::B),
            2 => Some(Register::C),
            3 => Some(Register::M),
            4 => Some(Register::SP),
            5 => Some(Register::PC),
            6 => Some(Register::BP),
            7 => Some(Register::FLAGS),
            _ => None,
        }
    }

    /// The register-file index of this register.
    pub fn index(self) -> (i: usize)
        ensures
            i == self.ordinal(),
    {
        match self {
            Register::A => 0,
            Register::B => 1,
            Register::C => 2,
            Register::M => 3,
            Register::SP => 4,
            Register::PC => 5,
            Register::BP => 6,
            Register::FLAGS => 7,
        }
    }
}

/// Conversion from an ordinal is a two-sided inverse of `ordinal`:
/// every register is recovered from its own ordinal, and a successful
/// conversion always returns the register carrying that ordinal.
pub proof fn lemma_register_ordinal_roundtrip(r: Register, v: u8)
    ensures
        Register::spec_from_u8(r.ordinal() as u8) == Some(r),
        Register::spec_from_u8(v) matches Some(q) ==> q.ordinal() == v,
{
}

/// Operator byte of `Nop`.
pub const OP_NOP: u8 = 0;

/// Operator byte of `Push`.
pub const OP_PUSH: u8 = 1;

/// Operator byte of `PopRegister`.
pub const OP_POP_REGISTER: u8 = 2;

/// Operator byte of `AddStack`.
pub const OP_ADD_STACK: u8 = 3;

/// Operator byte of `AddRegister`.
pub const OP_ADD_REGISTER: u8 = 4;

/// Operator byte of `Signal`.
pub const OP_SIGNAL: u8 = 5;

/// The executable instruction set, one tagged variant per operation.
/// The tag space is closed: the decoder rejects any operator byte that
/// matches no variant here.
#[derive(Clone, Copy, Debug, PartialEq, Eq, Structural)]
pub enum Op {
    /// No operand, no effect beyond the PC advance.
    Nop,
    /// Push the zero-extended 8-bit literal onto the stack.
    Push(u8),
    /// Pop one 16-bit value into the named register.
    PopRegister(Register),
    /// Pop two 16-bit values and push their wrapping sum.
    AddStack,
    /// Wrapping add of the source register into the destination, in
    /// place. The decoder never produces this variant: its encoding is
    /// an open inconsistency of the instruction set, kept as such.
    AddRegister(Register, Register),
    /// Invoke the handler registered for the 8-bit signal code.
    Signal(u8),
}

/// Everything a core operation can fail with. Each variant carries the
/// offending raw byte, code or address for diagnostics.
#[derive(Clone, Copy, Debug, PartialEq, Eq, Structural)]
pub enum VmError {
    /// The operator byte of a fetched word matches no known operation.
    UnknownOperator(u8),
    /// A register operand's ordinal is outside the closed enumeration.
    UnknownRegister(u8),
    /// A `Signal` found no handler registered for its code.
    UnknownSignal(u8),
    /// The instruction fetch at PC fell out of the address range.
    PcReadFault(u16),
    /// A stack read fell out of the address range.
    ReadFault(u16),
    /// A stack or handler write fell out of the address range.
    WriteFault(u16),
    /// SP was below 2 before a pop's implicit subtraction.
    StackUnderflow,
}

/// The operator byte: the low 8 bits of an instruction word.
pub open spec fn op_byte(word: u16) -> u8 {
    (word & 0xff) as u8
}

/// The full operand field: the high 8 bits of an instruction word.
pub open spec fn arg_byte(word: u16) -> u8 {
    ((word & 0xff00) >> 8) as u8
}

/// A register operand: the low nibble of the operand field.
pub open spec fn reg_nibble(word: u16) -> u8 {
    ((word & 0xf00) >> 8) as u8
}

impl Op {
    /// The operation's fixed operator byte, independent of any
    /// in-memory representation of the variant.
    pub open spec fn spec_value(&self) -> u8 {
        match self {
            Op::Nop => OP_NOP,
            Op::Push(_) => OP_PUSH,
            Op::PopRegister(_) => OP_POP_REGISTER,
            Op::AddStack => OP_ADD_STACK,
            Op::AddRegister(_, _) => OP_ADD_REGISTER,
            Op::Signal(_) => OP_SIGNAL,
        }
    }

    /// The operation's operator byte.
    #[verifier::when_used_as_spec(spec_value)]
    pub fn value(&self) -> (b: u8)
        ensures
            b == self.spec_value(),
    {
        match self {
            Op::Nop => OP_NOP,
            Op::Push(_) => OP_PUSH,
            Op::PopRegister(_) => OP_POP_REGISTER,
            Op::AddStack => OP_ADD_STACK,
            Op::AddRegister(_, _) => OP_ADD_REGISTER,
            Op::Signal(_) => OP_SIGNAL,
        }
    }

    /// The operation's instruction word: the operator byte in the low
    /// half, the variant-specific operand encoding in the high half.
    pub open spec fn spec_encode(self) -> u16 {
        match self {
            Op::Nop => OP_NOP as u16,
            Op::Push(v) => (OP_PUSH as u16) | ((v as u16) << 8),
            Op::PopRegister(r) => (OP_POP_REGISTER as u16) | ((r.ordinal() as u16) << 8),
            Op::AddStack => OP_ADD_STACK as u16,
            Op::AddRegister(dst, src) => (OP_ADD_REGISTER as u16) | ((dst.ordinal() as u16) << 8)
                | ((src.ordinal() as u16) << 12),
            Op::Signal(code) => (OP_SIGNAL as u16) | ((code as u16) << 8),
        }
    }

    /// Encode the operation as an instruction word.
    pub fn encode(&self) -> (word: u16)
        ensures
            word == self.spec_encode(),
    {
        match self {
            Op::Nop => OP_NOP as u16,
            Op::Push(v) => (OP_PUSH as u16) | ((*v as u16) << 8u16),
            Op::PopRegister(r) => (OP_POP_REGISTER as u16) | ((r.index() as u16) << 8u16),
            Op::AddStack => OP_ADD_STACK as u16,
            Op::AddRegister(dst, src) => (OP_ADD_REGISTER as u16) | ((dst.index() as u16) << 8u16)
                | ((src.index() as u16) << 12u16),
            Op::Signal(code) => (OP_SIGNAL as u16) | ((*code as u16) << 8u16),
        }
    }
}

/// What decoding an instruction word yields: the operation, or the
/// decode error carrying the offending byte. The low 8 bits pick the
/// operation; the high 8 bits (or their low nibble, for a register
/// operand) carry the operand.
pub open spec fn spec_decode(word: u16) -> Result<Op, VmError> {
    if op_byte(word) == OP_NOP {
        Ok(Op::Nop)
    } else if op_byte(word) == OP_PUSH {
        Ok(Op::Push(arg_byte(word)))
    } else if op_byte(word) == OP_POP_REGISTER {
        match Register::spec_from_u8(reg_nibble(word)) {
            Some(r) => Ok(Op::PopRegister(r)),
            None => Err(VmError::UnknownRegister(reg_nibble(word))),
        }
    } else if op_byte(word) == OP_ADD_STACK {
        Ok(Op::AddStack)
    } else if op_byte(word) == OP_SIGNAL {
        Ok(Op::Signal(arg_byte(word)))
    } else {
        Err(VmError::UnknownOperator(op_byte(word)))
    }
}

/// The operand field of an instruction word.
pub fn parse_instruction_arg(inst: u16) -> (arg: u8)
    ensures
        arg == arg_byte(inst),
{
    ((inst & 0xff00) >> 8u16) as u8
}

/// Decode one instruction word. Pure: reads nothing but the word given,
/// and fails descriptively on every unrecognized encoding.
pub fn parse_instruction(inst: u16) -> (r: Result<Op, VmError>)
    ensures
        r == spec_decode(inst),
{
    let op = (inst & 0xff) as u8;
    if op == OP_NOP {
        Ok(Op::Nop)
    } else if op == OP_PUSH {
        Ok(Op::Push(parse_instruction_arg(inst)))
    } else if op == OP_POP_REGISTER {
        let reg = ((inst & 0xf00) >> 8u16) as u8;
        match Register::from_u8(reg) {
            Some(r) => Ok(Op::PopRegister(r)),
            None => Err(VmError::UnknownRegister(reg)),
        }
    } else if op == OP_ADD_STACK {
        Ok(Op::AddStack)
    } else if op == OP_SIGNAL {
        Ok(Op::Signal(parse_instruction_arg(inst)))
    } else {
        Err(VmError::UnknownOperator(op))
    }
}

/// Decoding is a left inverse of encoding: every operation the decoder
/// can produce round-trips through its instruction word, over the whole
/// operand range. `AddRegister` is the one exception: the decoder never
/// produces it, so its word decodes to an unknown-operator error.
pub proof fn lemma_decode_encode(op: Op)
    requires
        !(op is AddRegister),
    ensures
        spec_decode(op.spec_encode()) == Ok::<Op, VmError>(op),
{
    match op {
        Op::Nop => {
            assert(op_byte(0) == 0) by (bit_vector);
        },
        Op::Push(v) => {
            let w = (OP_PUSH as u16) | ((v as u16) << 8);
            assert((w & 0xff) as u8 == 1 && ((w & 0xff00) >> 8) as u8 == v) by (bit_vector)
                requires
                    w == (1u16 | ((v as u16) << 8)),
            ;
        },
        Op::PopRegister(r) => {
            let n = r.ordinal() as u16;
            let w = (OP_POP_REGISTER as u16) | (n << 8);
            assert((w & 0xff) as u8 == 2 && ((w & 0xf00) >> 8) as u8 == n) by (bit_vector)
                requires
                    w == (2u16 | (n << 8)) && n < 8,
            ;
            lemma_register_ordinal_roundtrip(r, 0);
        },
        Op::AddStack => {
            assert(op_byte(3) == 3) by (bit_vector);
        },
        Op::AddRegister(_, _) => {},
        Op::Signal(code) => {
            let w = (OP_SIGNAL as u16) | ((code as u16) << 8);
            assert((w & 0xff) as u8 == 5 && ((w & 0xff00) >> 8) as u8 == code) by (bit_vector)
                requires
                    w == (5u16 | ((code as u16) << 8)),
            ;
        },
    }
}

/// Every unrecognized operator byte is rejected with a decode error
/// naming that byte; the decoder never guesses.
pub proof fn lemma_unknown_operator(word: u16)
    requires
        op_byte(word) != OP_NOP,
        op_byte(word) != OP_PUSH,
        op_byte(word) != OP_POP_REGISTER,
        op_byte(word) != OP_ADD_STACK,
        op_byte(word) != OP_SIGNAL,
    ensures
        spec_decode(word) == Err::<Op, VmError>(VmError::UnknownOperator(op_byte(word))),
{
}

/// A handler registered for a signal code. A handler gets exclusive
/// access to the machine: it may write any register or memory cell, or
/// request halt.
#[derive(Clone, Copy, Debug, PartialEq, Eq, Structural)]
pub enum SignalHandler {
    /// Set the halt flag.
    Halt,
    /// Store the value into the register.
    SetRegister(Register, u16),
    /// Store the byte at the address; faults when it is out of range.
    WriteByte(u16, u8),
}

/// The machine's whole observable state: the register file, the memory
/// contents, the signal table and the halt flag.
#[verifier::ext_equal]
pub ghost struct MachineState {
    pub regs: Seq<u16>,
    pub mem: Seq<u8>,
    pub handlers: Map<u8, SignalHandler>,
    pub halt: bool,
}

impl MachineState {
    /// Every machine built through this library satisfies this: eight
    /// registers, and a bounded address range.
    pub open spec fn wf(self) -> bool {
        self.regs.len() == 8 && self.mem.len() <= 0xffff
    }

    /// The value held by a register.
    pub open spec fn reg(self, r: Register) -> u16 {
        self.regs[r.ordinal()]
    }

    /// The state with one register replaced.
    pub open spec fn with_reg(self, r: Register, v: u16) -> MachineState {
        MachineState { regs: self.regs.update(r.ordinal(), v), ..self }
    }
}

/// What `push` does: write the word at SP and advance SP by 2, or fail
/// with a write fault, naming SP, and change nothing.
pub open spec fn spec_push(m: MachineState, v: u16) -> (MachineState, Result<(), VmError>) {
    let sp = m.reg(Register::SP);
    if sp as int + 1 < m.mem.len() {
        (
            MachineState { mem: mem_write2(m.mem, sp, v), ..m }.with_reg(
                Register::SP,
                (sp + 2) as u16,
            ),
            Ok(()),
        )
    } else {
        (m, Err(VmError::WriteFault(sp)))
    }
}

/// What `pop` does: read the word two below SP and lower SP by 2, or
/// fail — with an underflow when SP is already below 2, or with a read
/// fault naming the address — and change nothing.
pub open spec fn spec_pop(m: MachineState) -> (MachineState, Result<u16, VmError>) {
    let sp = m.reg(Register::SP);
    if sp < 2 {
        (m, Err(VmError::StackUnderflow))
    } else {
        let addr = (sp - 2) as u16;
        match mem_read2(m.mem, addr) {
            Some(v) => (m.with_reg(Register::SP, addr), Ok(v)),
            None => (m, Err(VmError::ReadFault(addr))),
        }
    }
}

/// What running a handler does to the machine.
pub open spec fn spec_run_handler(m: MachineState, h: SignalHandler) -> (
    MachineState,
    Result<(), VmError>,
) {
    match h {
        SignalHandler::Halt => (MachineState { halt: true, ..m }, Ok(())),
        SignalHandler::SetRegister(r, v) => (m.with_reg(r, v), Ok(())),
        SignalHandler::WriteByte(addr, b) => {
            if (addr as int) < m.mem.len() {
                (MachineState { mem: m.mem.update(addr as int, b), ..m }, Ok(()))
            } else {
                (m, Err(VmError::WriteFault(addr)))
            }
        },
    }
}

/// What executing one already-decoded operation does, after the PC
/// advance. Failure leaves exactly the state the partially applied
/// rules produced: a failed pop or push never moves SP.
pub open spec fn spec_exec_op(m: MachineState, op: Op) -> (MachineState, Result<(), VmError>) {
    match op {
        Op::Nop => (m, Ok(())),
        Op::Push(v) => spec_push(m, v as u16),
        Op::PopRegister(r) => {
            let (m1, res) = spec_pop(m);
            match res {
                Ok(v) => (m1.with_reg(r, v), Ok(())),
                Err(e) => (m1, Err(e)),
            }
        },
        Op::AddStack => {
            let (m1, first) = spec_pop(m);
            match first {
                Err(e) => (m1, Err(e)),
                Ok(a) => {
                    let (m2, second) = spec_pop(m1);
                    match second {
                        Err(e) => (m2, Err(e)),
                        Ok(b) => spec_push(m2, vstd::wrapping::u16_specs::wrapping_add(a, b)),
                    }
                },
            }
        },
        Op::AddRegister(dst, src) => (
            m.with_reg(dst, vstd::wrapping::u16_specs::wrapping_add(m.reg(dst), m.reg(src))),
            Ok(()),
        ),
        Op::Signal(code) => {
            if m.handlers.contains_key(code) {
                spec_run_handler(m, m.handlers[code])
            } else {
                (m, Err(VmError::UnknownSignal(code)))
            }
        },
    }
}

/// What one `step` does: fetch the word at PC (or fail with a PC-read
/// fault and change nothing), advance PC by exactly 2, decode (a decode
/// failure propagates unchanged, leaving the advanced PC), and execute.
pub open spec fn spec_step(m: MachineState) -> (MachineState, Result<(), VmError>) {
    let pc = m.reg(Register::PC);
    match mem_read2(m.mem, pc) {
        None => (m, Err(VmError::PcReadFault(pc))),
        Some(word) => {
            let fetched = m.with_reg(Register::PC, (pc + 2) as u16);
            match spec_decode(word) {
                Err(e) => (fetched, Err(e)),
                Ok(op) => spec_exec_op(fetched, op),
            }
        },
    }
}

/// Push then pop is the identity on everything but the written memory
/// cells: whenever the push succeeds, the pop that follows it succeeds,
/// returns the pushed word, and brings SP — indeed the whole register
/// file, the signal table and the halt flag — back to where they stood
/// before the push.
pub proof fn lemma_push_pop(m: MachineState, v: u16)
    requires
        m.wf(),
        spec_push(m, v).1 is Ok,
    ensures
        spec_pop(spec_push(m, v).0).1 == Ok::<u16, VmError>(v),
        spec_pop(spec_push(m, v).0).0 == (MachineState { mem: spec_push(m, v).0.mem, ..m }),
{
    let sp = m.reg(Register::SP);
    let m1 = spec_push(m, v).0;
    crate::memory::lemma_word_bytes_roundtrip(v);
    assert(m1.regs.update(Register::SP.ordinal(), sp) =~= m.regs);
    assert(spec_pop(m1).0 =~= (MachineState { mem: m1.mem, ..m }));
}

/// Whether an operation, executed after the fetch's own PC advance,
/// leaves PC alone. Only an operation that names PC as its written
/// register — a pop into PC, a register add into PC, or a dispatched
/// handler that sets PC — writes it.
pub open spec fn op_leaves_pc(m: MachineState, op: Op) -> bool {
    match op {
        Op::PopRegister(r) => r != Register::PC,
        Op::AddRegister(dst, _) => dst != Register::PC,
        Op::Signal(code) => m.handlers.contains_key(code) ==> (match m.handlers[code] {
            SignalHandler::SetRegister(r, _) => r != Register::PC,
            _ => true,
        }),
        _ => true,
    }
}

/// After any successful step whose operation does not itself write PC,
/// PC has advanced by exactly 2 relative to its value at the start of
/// that step, whatever the operation was. (An operation that pops into
/// PC or dispatches a handler that sets PC overwrites the advance; no
/// decodable operation other than those touches PC.)
pub proof fn lemma_step_advances_pc(m: MachineState, w: u16, op: Op)
    requires
        m.wf(),
        mem_read2(m.mem, m.reg(Register::PC)) == Some(w),
        spec_decode(w) == Ok::<Op, VmError>(op),
        op_leaves_pc(m, op),
        spec_step(m).1 is Ok,
    ensures
        spec_step(m).0.reg(Register::PC) == m.reg(Register::PC) + 2,
{
}

/// Dispatching a signal with no registered handler for its code fails
/// with an unknown-signal error naming the code, and mutates nothing
/// beyond the fetch's own PC advance.
pub proof fn lemma_unknown_signal(m: MachineState, w: u16, code: u8)
    requires
        m.wf(),
        mem_read2(m.mem, m.reg(Register::PC)) == Some(w),
        spec_decode(w) == Ok::<Op, VmError>(Op::Signal(code)),
        !m.handlers.contains_key(code),
    ensures
        spec_step(m).1 == Err::<(), VmError>(VmError::UnknownSignal(code)),
        spec_step(m).0 == m.with_reg(Register::PC, ((m.reg(Register::PC) + 2) as u16)),
{
}

/// Dispatching a signal whose registered handler requests halt makes
/// the step succeed and leaves the machine reporting halted, with no
/// other change beyond the fetch's own PC advance.
pub proof fn lemma_signal_halt_handler(m: MachineState, w: u16, code: u8)
    requires
        m.wf(),
        mem_read2(m.mem, m.reg(Register::PC)) == Some(w),
        spec_decode(w) == Ok::<Op, VmError>(Op::Signal(code)),
        m.handlers.contains_key(code),
        m.handlers[code] == SignalHandler::Halt,
    ensures
        spec_step(m).1 == Ok::<(), VmError>(()),
        spec_step(m).0.halt,
        spec_step(m).0 == (MachineState {
            halt: true,
            ..m.with_reg(Register::PC, ((m.reg(Register::PC) + 2) as u16))
        }),
{
}

/// The unit of execution state: the register file, the owned memory,
/// the signal table and the halt flag. Mutated in place by every
/// `step`; the sole mutator of register and memory state during
/// execution.
pub struct Machine<M: Addressable> {
    registers: [u16; 8],
    signal_handlers: HashMap<u8, SignalHandler>,
    pub halt: bool,
    pub memory: M,
}

impl<M: Addressable> View for Machine<M> {
    type V = MachineState;

    closed spec fn view(&self) -> MachineState {
        MachineState {
            regs: self.registers@,
            mem: self.memory.mem(),
            handlers: self.signal_handlers@,
            halt: self.halt,
        }
    }
}

impl Machine<LinearMemory> {
    /// A fresh machine: zeroed registers, 8192 zeroed memory cells, an
    /// empty signal table, and the halt flag clear.
    pub fn new() -> (m: Machine<LinearMemory>)
        ensures
            m@.wf(),
            m@.regs =~= Seq::new(8, |i: int| 0u16),
            m@.mem.len() == 8192,
            forall|i: int| 0 <= i < 8192 ==> m@.mem[i] == 0,
            m@.handlers =~= Map::<u8, SignalHandler>::empty(),
            !m@.halt,
    {
        Machine::with_memory(LinearMemory::new(8 * 1024))
    }
}

impl<M: Addressable> Machine<M> {
    /// A fresh machine over any backing memory: zeroed registers, an
    /// empty signal table, and the halt flag clear.
    pub fn with_memory(memory: M) -> (m: Machine<M>)
        ensures
            m@.regs =~= Seq::new(8, |i: int| 0u16),
            m@.mem == memory.mem(),
            m@.handlers =~= Map::<u8, SignalHandler>::empty(),
            !m@.halt,
    {
        Machine { registers: [0u16; 8], signal_handlers: HashMap::new(), halt: false, memory }
    }
}

impl<M: Addressable> Machine<M> {
    /// The value a register currently holds; changes nothing.
    pub fn get_register(&mut self, r: Register) -> (v: u16)
        ensures
            v == old(self)@.reg(r),
            final(self)@ == old(self)@,
    {
        self.registers[r.index()]
    }

    /// Register (or overwrite: the last registration wins) the handler
    /// for a signal code.
    pub fn define_handler(&mut self, code: u8, handler: SignalHandler)
        ensures
            final(self)@ == (MachineState {
                handlers: old(self)@.handlers.insert(code, handler),
                ..old(self)@
            }),
    {
        self.signal_handlers.insert(code, handler);
    }

    /// Push a word onto the stack: write it at SP, then advance SP by
    /// 2. A write fault is reported without moving SP.
    pub fn push(&mut self, v: u16) -> (r: Result<(), VmError>)
        ensures
            final(self)@ == spec_push(old(self)@, v).0,
            r == spec_push(old(self)@, v).1,
    {
        let sp = self.registers[Register::SP.index()];
        if !self.memory.write2(sp, v) {
            return Err(VmError::WriteFault(sp));
        }
        self.registers[Register::SP.index()] = sp + 2;
        Ok(())
    }

    /// Pop a word off the stack: read it two below SP, then lower SP by
    /// 2. An underflow or read fault is reported without moving SP.
    pub fn pop(&mut self) -> (r: Result<u16, VmError>)
        ensures
            final(self)@ == spec_pop(old(self)@).0,
            r == spec_pop(old(self)@).1,
    {
        let sp = self.registers[Register::SP.index()];
        if sp < 2 {
            return Err(VmError::StackUnderflow);
        }
        let addr = sp - 2;
        match self.memory.read2(addr) {
            Some(v) => {
                self.registers[Register::SP.index()] = addr;
                Ok(v)
            },
            None => Err(VmError::ReadFault(addr)),
        }
    }

    /// Run one handler with exclusive access to the machine.
    pub fn run_handler(&mut self, h: SignalHandler) -> (r: Result<(), VmError>)
        ensures
            final(self)@ == spec_run_handler(old(self)@, h).0,
            r == spec_run_handler(old(self)@, h).1,
    {
        match h {
            SignalHandler::Halt => {
                self.halt = true;
                Ok(())
            },
            SignalHandler::SetRegister(r, v) => {
                self.registers[r.index()] = v;
                Ok(())
            },
            SignalHandler::WriteByte(addr, b) => {
                if self.memory.write1(addr, b) {
                    Ok(())
                } else {
                    Err(VmError::WriteFault(addr))
                }
            },
        }
    }

    /// One fetch-decode-execute step: read the word at PC, advance PC
    /// by exactly 2, decode, and execute. Every failure is surfaced to
    /// the caller; the machine never recovers on its own.
    pub fn step(&mut self) -> (r: Result<(), VmError>)
        ensures
            final(self)@ == spec_step(old(self)@).0,
            r == spec_step(old(self)@).1,
    {
        let pc = self.registers[Register::PC.index()];
        let inst = match self.memory.read2(pc) {
            Some(w) => w,
            None => {
                return Err(VmError::PcReadFault(pc));
            },
        };
        self.registers[Register::PC.index()] = pc + 2;
        let op = match parse_instruction(inst) {
            Ok(op) => op,
            Err(e) => {
                return Err(e);
            },
        };
        match op {
            Op::Nop => Ok(()),
            Op::Push(v) => self.push(v as u16),
            Op::PopRegister(r) => {
                match self.pop() {
                    Ok(value) => {
                        self.registers[r.index()] = value;
                        Ok(())
                    },
                    Err(e) => Err(e),
                }
            },
            Op::AddStack => {
                let a = match self.pop() {
                    Ok(a) => a,
                    Err(e) => {
                        return Err(e);
                    },
                };
                let b = match self.pop() {
                    Ok(b) => b,
                    Err(e) => {
                        return Err(e);
                    },
                };
                self.push(a.wrapping_add(b))
            },
            Op::AddRegister(dst, src) => {
                let sum = self.registers[dst.index()].wrapping_add(self.registers[src.index()]);
                self.registers[dst.index()] = sum;
                Ok(())
            },
            Op::Signal(code) => {
                let h = match self.signal_handlers.get(&code) {
                    Some(h) => *h,
                    None => {
                        return Err(VmError::UnknownSignal(code));
                    },
                };
                self.run_handler(h)
            },
        }
    }
}

} // verus!

