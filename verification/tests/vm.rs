use simplevm::memory::{Addressable, LinearMemory};
use simplevm::vm::{Machine, Op, Register, SignalHandler, VmError};
use simplevm::vm::{parse_instruction, parse_instruction_arg};

// Round trip for every decodable Op variant, over the operand range edges.
#[test]
fn decode_encode_roundtrip() {
    let ops = vec![
        Op::Nop,
        Op::Push(0),
        Op::Push(5),
        Op::Push(0xff),
        Op::AddStack,
        Op::Signal(0),
        Op::Signal(0xf0),
        Op::Signal(0xff),
        Op::PopRegister(Register::A),
        Op::PopRegister(Register::B),
        Op::PopRegister(Register::C),
        Op::PopRegister(Register::M),
        Op::PopRegister(Register::SP),
        Op::PopRegister(Register::PC),
        Op::PopRegister(Register::BP),
        Op::PopRegister(Register::FLAGS),
    ];
    for op in ops {
        assert_eq!(parse_instruction(op.encode()), Ok(op));
    }
}

#[test]
fn encode_fixed_words() {
    assert_eq!(Op::Nop.encode(), 0x0000);
    assert_eq!(Op::Push(0x05).encode(), 0x0501);
    assert_eq!(Op::PopRegister(Register::C).encode(), 0x0202);
    assert_eq!(Op::AddStack.encode(), 0x0003);
    assert_eq!(Op::Signal(0xf0).encode(), 0xf005);
}

#[test]
fn operator_bytes() {
    assert_eq!(Op::Nop.value(), 0);
    assert_eq!(Op::Push(9).value(), 1);
    assert_eq!(Op::PopRegister(Register::A).value(), 2);
    assert_eq!(Op::AddStack.value(), 3);
    assert_eq!(Op::AddRegister(Register::A, Register::B).value(), 4);
    assert_eq!(Op::Signal(7).value(), 5);
}

// Every unrecognized operator byte decodes to an error, never a crash.
#[test]
fn decode_unknown_operator() {
    // 0x04 is AddRegister's operator byte: the decoder never produces it.
    assert_eq!(parse_instruction(0x0004), Err(VmError::UnknownOperator(0x04)));
    assert_eq!(parse_instruction(0x0006), Err(VmError::UnknownOperator(0x06)));
    assert_eq!(parse_instruction(0xabcd), Err(VmError::UnknownOperator(0xcd)));
    for byte in 6..=0xff_u16 {
        let word = 0x1100 | byte;
        assert_eq!(
            parse_instruction(word),
            Err(VmError::UnknownOperator(byte as u8))
        );
    }
}

#[test]
fn decode_unknown_register() {
    // operator 2 with register nibbles 8..15: outside the closed set.
    for nibble in 8..=0xf_u16 {
        let word = 0x0002 | (nibble << 8);
        assert_eq!(
            parse_instruction(word),
            Err(VmError::UnknownRegister(nibble as u8))
        );
    }
    // the top nibble of the operand byte is ignored for registers
    assert_eq!(parse_instruction(0xf302), Ok(Op::PopRegister(Register::M)));
}

#[test]
fn instruction_arg_is_high_byte() {
    assert_eq!(parse_instruction_arg(0xab01), 0xab);
    assert_eq!(parse_instruction_arg(0x0001), 0x00);
    assert_eq!(parse_instruction_arg(0xff00), 0xff);
}

#[test]
fn register_from_u8_closed() {
    assert_eq!(Register::from_u8(0), Some(Register::A));
    assert_eq!(Register::from_u8(1), Some(Register::B));
    assert_eq!(Register::from_u8(2), Some(Register::C));
    assert_eq!(Register::from_u8(3), Some(Register::M));
    assert_eq!(Register::from_u8(4), Some(Register::SP));
    assert_eq!(Register::from_u8(5), Some(Register::PC));
    assert_eq!(Register::from_u8(6), Some(Register::BP));
    assert_eq!(Register::from_u8(7), Some(Register::FLAGS));
    assert_eq!(Register::from_u8(8), None);
    assert_eq!(Register::from_u8(0xff), None);
}

// Push then pop returns the pushed value and leaves SP where it stood.
#[test]
fn push_pop_inverse() {
    let mut vm = Machine::new();
    assert_eq!(vm.get_register(Register::SP), 0);
    assert_eq!(vm.push(0x1234), Ok(()));
    assert_eq!(vm.get_register(Register::SP), 2);
    assert_eq!(vm.pop(), Ok(0x1234));
    assert_eq!(vm.get_register(Register::SP), 0);
}

#[test]
fn pop_on_empty_stack_underflows() {
    let mut vm = Machine::new();
    assert_eq!(vm.pop(), Err(VmError::StackUnderflow));
    assert_eq!(vm.get_register(Register::SP), 0);
}

#[test]
fn push_at_end_of_memory_faults_without_moving_sp() {
    let mut vm = Machine::with_memory(LinearMemory::new(8));
    vm.define_handler(1, SignalHandler::SetRegister(Register::SP, 7));
    assert!(vm.memory.load_from_vec(&vec![0x05, 0x01], 0));
    assert_eq!(vm.step(), Ok(()));
    assert_eq!(vm.get_register(Register::SP), 7);
    // the second cell of the word would sit at address 8: out of range
    assert_eq!(vm.push(0xbeef), Err(VmError::WriteFault(7)));
    assert_eq!(vm.get_register(Register::SP), 7);
}

#[test]
fn pop_out_of_range_faults_without_moving_sp() {
    let mut vm = Machine::with_memory(LinearMemory::new(3));
    vm.define_handler(1, SignalHandler::SetRegister(Register::SP, 4));
    assert!(vm.memory.load_from_vec(&vec![0x05, 0x01], 0));
    assert_eq!(vm.step(), Ok(()));
    assert_eq!(vm.pop(), Err(VmError::ReadFault(2)));
    assert_eq!(vm.get_register(Register::SP), 4);
}

#[test]
fn step_fetch_out_of_range_is_pc_fault() {
    let mut vm = Machine::with_memory(LinearMemory::new(1));
    assert_eq!(vm.step(), Err(VmError::PcReadFault(0)));
    assert_eq!(vm.get_register(Register::PC), 0);
}

// AddStack pops 3 then 5 and pushes their sum 8.
#[test]
fn add_stack_sums_top_two() {
    let mut vm = Machine::new();
    // Push 5, Push 3, AddStack
    assert!(vm
        .memory
        .load_from_vec(&vec![0x01, 0x05, 0x01, 0x03, 0x03, 0x00], 0));
    assert_eq!(vm.step(), Ok(()));
    assert_eq!(vm.step(), Ok(()));
    assert_eq!(vm.step(), Ok(()));
    assert_eq!(vm.get_register(Register::SP), 2);
    assert_eq!(vm.pop(), Ok(8));
}

#[test]
fn add_stack_wraps_on_overflow() {
    let mut vm = Machine::new();
    vm.define_handler(1, SignalHandler::SetRegister(Register::SP, 8));
    // program: Signal(1) to lift SP above the seeded stack, then AddStack
    assert!(vm.memory.load_from_vec(&vec![0x05, 0x01, 0x03, 0x00], 0));
    assert!(vm.memory.write2(4, 0xffff));
    assert!(vm.memory.write2(6, 0x0002));
    assert_eq!(vm.step(), Ok(()));
    assert_eq!(vm.get_register(Register::SP), 8);
    assert_eq!(vm.step(), Ok(()));
    assert_eq!(vm.get_register(Register::SP), 6);
    assert_eq!(vm.pop(), Ok(0x0001));
}

// After any successful step, PC has advanced by exactly 2.
#[test]
fn pc_advances_by_two_each_step() {
    let mut vm = Machine::new();
    assert!(vm
        .memory
        .load_from_vec(&vec![0x00, 0x00, 0x01, 0x09, 0x05, 0xf0], 0));
    vm.define_handler(0xf0, SignalHandler::Halt);
    assert_eq!(vm.get_register(Register::PC), 0);
    assert_eq!(vm.step(), Ok(())); // Nop
    assert_eq!(vm.get_register(Register::PC), 2);
    assert_eq!(vm.step(), Ok(())); // Push 9
    assert_eq!(vm.get_register(Register::PC), 4);
    assert_eq!(vm.step(), Ok(())); // Signal -> Halt
    assert_eq!(vm.get_register(Register::PC), 6);
}

// An unregistered signal fails and mutates nothing beyond the PC advance.
#[test]
fn unknown_signal_is_an_error() {
    let mut vm = Machine::new();
    assert!(vm.memory.load_from_vec(&vec![0x05, 0x22], 0));
    assert_eq!(vm.step(), Err(VmError::UnknownSignal(0x22)));
    assert_eq!(vm.get_register(Register::PC), 2);
    assert_eq!(vm.get_register(Register::SP), 0);
    assert_eq!(vm.get_register(Register::A), 0);
    assert!(!vm.halt);
}

// A registered halt handler makes the step succeed and the machine halt.
#[test]
fn halt_handler_halts_machine() {
    let mut vm = Machine::new();
    vm.define_handler(0xf0, SignalHandler::Halt);
    assert!(vm.memory.load_from_vec(&vec![0x05, 0xf0], 0));
    assert!(!vm.halt);
    assert_eq!(vm.step(), Ok(()));
    assert!(vm.halt);
    assert_eq!(vm.get_register(Register::PC), 2);
}

#[test]
fn last_handler_registration_wins() {
    let mut vm = Machine::new();
    vm.define_handler(7, SignalHandler::Halt);
    vm.define_handler(7, SignalHandler::SetRegister(Register::A, 42));
    assert!(vm.memory.load_from_vec(&vec![0x05, 0x07], 0));
    assert_eq!(vm.step(), Ok(()));
    assert!(!vm.halt);
    assert_eq!(vm.get_register(Register::A), 42);
}

#[test]
fn handler_may_write_memory_and_faults_cleanly() {
    let mut vm = Machine::new();
    vm.define_handler(1, SignalHandler::WriteByte(100, 0xaa));
    vm.define_handler(2, SignalHandler::WriteByte(9000, 0xaa));
    assert!(vm.memory.load_from_vec(&vec![0x05, 0x01, 0x05, 0x02], 0));
    assert_eq!(vm.step(), Ok(()));
    assert_eq!(vm.memory.read1(100), Some(0xaa));
    // 9000 lies outside the 8192-byte space
    assert_eq!(vm.step(), Err(VmError::WriteFault(9000)));
    assert_eq!(vm.memory.read1(100), Some(0xaa));
}

// A pop into a register stores the popped value there.
#[test]
fn pop_register_stores_value() {
    let mut vm = Machine::new();
    // Push 77, then PopRegister(A) (register nibble 0)
    assert!(vm.memory.load_from_vec(&vec![0x01, 0x4d, 0x02, 0x00], 0));
    assert_eq!(vm.step(), Ok(()));
    assert_eq!(vm.step(), Ok(()));
    assert_eq!(vm.get_register(Register::A), 77);
    assert_eq!(vm.get_register(Register::SP), 0);
}

// A decode failure propagates out of step unchanged.
#[test]
fn step_propagates_decode_errors() {
    let mut vm = Machine::new();
    assert!(vm.memory.load_from_vec(&vec![0x2a, 0x00], 0));
    assert_eq!(vm.step(), Err(VmError::UnknownOperator(0x2a)));
    let mut vm = Machine::new();
    assert!(vm.memory.load_from_vec(&vec![0x02, 0x0b], 0));
    assert_eq!(vm.step(), Err(VmError::UnknownRegister(0x0b)));
}

// Example end-to-end: Push 5, Push 3, AddStack.
#[test]
fn push_push_add_program() {
    let mut vm = Machine::new();
    let initial_sp = vm.get_register(Register::SP);
    assert!(vm
        .memory
        .load_from_vec(&vec![0x01, 0x05, 0x01, 0x03, 0x03, 0x00], 0));
    assert_eq!(vm.step(), Ok(()));
    assert_eq!(vm.step(), Ok(()));
    assert_eq!(vm.step(), Ok(()));
    let sp = vm.get_register(Register::SP);
    assert_eq!(sp, initial_sp + 2);
    assert_eq!(vm.memory.read2(sp - 2), Some(8));
}

#[test]
fn memory_words_are_little_endian_pairs() {
    let mut mem = LinearMemory::new(16);
    assert!(mem.write2(4, 0x1234));
    assert_eq!(mem.read1(4), Some(0x34));
    assert_eq!(mem.read1(5), Some(0x12));
    assert_eq!(mem.read2(4), Some(0x1234));
}

#[test]
fn memory_accesses_fail_out_of_range() {
    let mut mem = LinearMemory::new(4);
    assert_eq!(mem.read1(4), None);
    assert_eq!(mem.read2(3), None, "a word read within 1 byte of the end fails");
    assert!(!mem.write1(4, 1));
    assert!(!mem.write2(3, 0xffff));
    assert!(mem.write2(2, 0xffff));
    assert_eq!(mem.read2(2), Some(0xffff));
}

#[test]
fn load_from_vec_rejects_images_that_do_not_fit() {
    let mut mem = LinearMemory::new(4);
    assert!(!mem.load_from_vec(&vec![1, 2, 3], 2));
    assert_eq!(mem.read1(2), Some(0));
    assert!(mem.load_from_vec(&vec![1, 2, 3], 1));
    assert_eq!(mem.read1(0), Some(0));
    assert_eq!(mem.read1(1), Some(1));
    assert_eq!(mem.read1(3), Some(3));
}
