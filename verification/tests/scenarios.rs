use minix86::disassembler::Disassembler;
use minix86::machine::{read_16, LoadError, Machine, MachineError, Resolved, RunExit};
use minix86::register::{Register16Bit, RegisterType};

/// Assembles a minimal a.out image: 32-byte header, then text, then data.
fn build_exe(text: &[u8], data: &[u8], total: u32) -> Vec<u8> {
    let mut exe = Vec::new();
    exe.push(0x01); // magic
    exe.push(0x03);
    exe.push(0x00); // flags
    exe.push(0x04); // cpu
    exe.push(32); // hdr_len
    exe.push(0x00); // unused
    exe.extend_from_slice(&0u16.to_le_bytes()); // version
    exe.extend_from_slice(&(text.len() as u32).to_le_bytes()); // text_size
    exe.extend_from_slice(&(data.len() as u32).to_le_bytes()); // data_size
    exe.extend_from_slice(&0u32.to_le_bytes()); // bss_size
    exe.extend_from_slice(&0u32.to_le_bytes()); // entry
    exe.extend_from_slice(&total.to_le_bytes()); // total
    exe.extend_from_slice(&0u32.to_le_bytes()); // syms
    exe.extend_from_slice(text);
    exe.extend_from_slice(data);
    exe
}

fn machine(text: &[u8], data: &[u8], total: u32) -> Machine {
    let exe = build_exe(text, data, total);
    Machine::new(&exe, &Vec::new(), &Vec::new(), false).unwrap()
}

#[test]
fn minimal_exit() {
    // MOV BX,0; MOV AX,1; INT 20h with a type-1 message, status 7
    let text = [0xbb, 0x00, 0x00, 0xb8, 0x01, 0x00, 0xcd, 0x20];
    let mut data = vec![0u8; 16];
    data[2] = 1; // type = 1 (exit)
    data[4] = 7; // m1i1 = 7
    let mut m = machine(&text, &data, 0x1000);
    let exit = m.run(1000).unwrap();
    assert_eq!(exit, RunExit::Exited(7));
    assert_eq!(m.exit_status, Some(7));
}

#[test]
fn hello_write() {
    // Type-4 message: fd 1, five bytes at 0x10; text just raises INT 20h
    let text = [0xbb, 0x00, 0x00, 0xcd, 0x20];
    let mut data = vec![0u8; 0x15];
    data[2] = 4; // type = 4 (write)
    data[4] = 1; // m1i1 = fd 1
    data[6] = 5; // m1i2 = length 5
    data[10] = 0x10; // m1p1 = address 0x0010
    data[0x10..0x15].copy_from_slice(b"Hello");
    let mut m = machine(&text, &data, 0x1000);
    let exit = m.run(1000).unwrap();
    assert_eq!(exit, RunExit::Stopped);
    assert_eq!(m.dump.out, b"Hello".to_vec());
    assert_eq!(read_16(&m.memory, 0), 0); // result at [BX]
    assert_eq!(read_16(&m.memory, 2), 5); // errno carries the byte count
    assert_eq!(m.register.get_ax(), 0);
}

#[test]
fn write_of_invalid_utf8_is_fatal() {
    let text = [0xbb, 0x00, 0x00, 0xcd, 0x20];
    let mut data = vec![0u8; 0x15];
    data[2] = 4;
    data[4] = 1;
    data[6] = 2; // two bytes
    data[10] = 0x10;
    data[0x10] = 0xff; // never valid in UTF-8
    data[0x11] = 0xfe;
    let mut m = machine(&text, &data, 0x1000);
    assert!(matches!(m.run(1000), Err(MachineError::InvalidUtf8 { .. })));
}

#[test]
fn add_flag_matrix_word() {
    // MOV AX,0xFFFF; MOV BX,1; ADD AX,BX
    let text = [0xb8, 0xff, 0xff, 0xbb, 0x01, 0x00, 0x01, 0xd8];
    let mut m = machine(&text, &[], 0x1000);
    let exit = m.run(1000).unwrap();
    assert_eq!(exit, RunExit::Stopped);
    assert_eq!(m.register.get_ax(), 0x0000);
    assert!(m.flag.carry);
    assert!(m.flag.zero);
    assert!(!m.flag.sign);
    assert!(!m.flag.overflow);
}

#[test]
fn signed_compare_and_jnl() {
    // MOV AX,1; MOV BX,0xFFFF; CMP AX,BX; JNL +3 over MOV CX,1
    let text = [
        0xb8, 0x01, 0x00, // MOV AX, 1
        0xbb, 0xff, 0xff, // MOV BX, 0xFFFF
        0x39, 0xd8, // CMP AX, BX
        0x7d, 0x03, // JNL +3
        0xb9, 0x01, 0x00, // MOV CX, 1 (skipped when the jump is taken)
    ];
    let mut m = machine(&text, &[], 0x1000);
    let exit = m.run(1000).unwrap();
    assert_eq!(exit, RunExit::Stopped);
    assert!(!m.flag.zero);
    assert!(!m.flag.sign);
    assert!(m.flag.carry);
    assert!(!m.flag.overflow);
    assert_eq!(m.register.get_cx(), 0, "JNL must jump: AX > BX signed");
    assert_eq!(m.register.get_ax(), 0x0001);
    assert_eq!(m.register.get_bx(), 0xffff);
}

#[test]
fn short_jump_target() {
    // Text at 0x0100: JMP short +5; after execution IP = 0x0107
    let mut text = vec![0x90u8; 0x107];
    text[0x100] = 0xeb;
    text[0x101] = 0x05;
    let mut m = machine(&text, &[], 0x1000);
    m.register.ip = 0x0100;
    let exit = m.run(1000).unwrap();
    assert_eq!(exit, RunExit::Stopped);
    assert_eq!(m.register.ip, 0x0107);
}

#[test]
fn call_ret_round_trip() {
    // CALL +5 at 0x0100, RET at the callee (0x0108)
    let mut text = vec![0x90u8; 0x109];
    text[0x100] = 0xe8;
    text[0x101] = 0x05;
    text[0x102] = 0x00;
    text[0x108] = 0xc3;
    let mut m = machine(&text, &[], 0x1000);
    m.register.ip = 0x0100;
    let sp0 = m.register.sp;

    let exit = m.run(1).unwrap();
    assert_eq!(exit, RunExit::OutOfFuel);
    assert_eq!(m.register.ip, 0x0108);
    assert_eq!(m.register.sp, sp0 - 2);
    assert_eq!(read_16(&m.memory, m.register.sp as usize), 0x0103);

    let exit = m.run(1).unwrap();
    assert_eq!(exit, RunExit::OutOfFuel);
    assert_eq!(m.register.ip, 0x0103);
    assert_eq!(m.register.sp, sp0);
}

#[test]
fn push_pop_restores_register_and_sp() {
    // MOV BX,0x1234; PUSH BX; MOV BX,0; POP BX
    let text = [0xbb, 0x34, 0x12, 0x53, 0xbb, 0x00, 0x00, 0x5b];
    let mut m = machine(&text, &[], 0x1000);
    let sp0 = m.register.sp;
    let exit = m.run(1000).unwrap();
    assert_eq!(exit, RunExit::Stopped);
    assert_eq!(m.register.get_bx(), 0x1234);
    assert_eq!(m.register.sp, sp0);
}

#[test]
fn mov_leaves_flags_unchanged() {
    // ADD AX,BX sets flags; the following MOVs must not disturb them
    let text = [
        0xb8, 0xff, 0xff, // MOV AX, 0xFFFF
        0xbb, 0x01, 0x00, // MOV BX, 1
        0x01, 0xd8, // ADD AX, BX (carry and zero set)
        0xb9, 0x42, 0x00, // MOV CX, 0x42
        0x89, 0xca, // MOV DX, CX
    ];
    let mut m = machine(&text, &[], 0x1000);
    m.run(1000).unwrap();
    assert!(m.flag.carry && m.flag.zero && !m.flag.sign && !m.flag.overflow);
    assert_eq!(m.register.get_dx(), 0x42);
}

#[test]
fn brk_accepts_room_below_stack() {
    // INT with a type-17 message: requested address in m1p1's slot (BX+10)
    let text = [0xbb, 0x00, 0x00, 0xcd, 0x20];
    let mut data = vec![0u8; 16];
    data[2] = 17;
    data[10] = 0x00;
    data[11] = 0x20; // request 0x2000
    let mut m = machine(&text, &data, 0x8000);
    m.run(1000).unwrap();
    // SP starts at 0x8000 - frame; bound is (SP & ~0x3FF) - 0x400
    assert_eq!(read_16(&m.memory, 0), 0);
    assert_eq!(read_16(&m.memory, 2), 0, "brk within bounds must succeed");
    assert_eq!(m.register.get_ax(), 0);
}

#[test]
fn brk_rejects_request_into_stack() {
    let text = [0xbb, 0x00, 0x00, 0xcd, 0x20];
    let mut data = vec![0u8; 16];
    data[2] = 17;
    data[10] = 0xff;
    data[11] = 0x7f; // request 0x7fff: collides with the stack
    let mut m = machine(&text, &data, 0x8000);
    m.run(1000).unwrap();
    assert_eq!(read_16(&m.memory, 0), 0);
    assert_eq!(read_16(&m.memory, 2), 12, "brk into the stack returns ENOMEM");
}

#[test]
fn ioctl_returns_einval() {
    let text = [0xbb, 0x00, 0x00, 0xcd, 0x20];
    let mut data = vec![0u8; 20];
    data[2] = 54;
    let mut m = machine(&text, &data, 0x1000);
    m.run(1000).unwrap();
    assert_eq!(read_16(&m.memory, 0), 0);
    assert_eq!(read_16(&m.memory, 2), (-22i16) as u16);
    assert_eq!(m.register.get_ax(), 0);
}

#[test]
fn unknown_syscall_is_fatal() {
    let text = [0xbb, 0x00, 0x00, 0xcd, 0x20];
    let mut data = vec![0u8; 16];
    data[2] = 99;
    let mut m = machine(&text, &data, 0x1000);
    assert!(matches!(m.run(1000), Err(MachineError::UnknownSyscall { syscall: 99 })));
}

#[test]
fn argument_frame_holds_argc_at_sp() {
    let text = [0x90u8];
    let exe = build_exe(&text, &[], 0x1000);
    let args: Vec<Vec<u8>> = vec![b"prog".to_vec(), b"arg1".to_vec()];
    let envs: Vec<Vec<u8>> = vec![b"PATH=/usr:/usr/bin".to_vec()];
    let m = Machine::new(&exe, &args, &envs, false).unwrap();
    let sp = m.register.sp as usize;
    assert_eq!(read_16(&m.memory, sp), 2, "argc sits at the frame base");
    // argv[0] is an absolute address of a NUL-terminated string
    let argv0 = read_16(&m.memory, sp + 2) as usize;
    assert_eq!(&m.memory[argv0..argv0 + 5], b"prog\0");
    let argv1 = read_16(&m.memory, sp + 4) as usize;
    assert_eq!(&m.memory[argv1..argv1 + 5], b"arg1\0");
    assert_eq!(read_16(&m.memory, sp + 6), 0, "argv terminator");
    let envp0 = read_16(&m.memory, sp + 8) as usize;
    assert_eq!(&m.memory[envp0..envp0 + 19], b"PATH=/usr:/usr/bin\0");
}

#[test]
fn load_rejects_short_file() {
    let exe = vec![0u8; 31];
    assert!(Machine::new(&exe, &Vec::new(), &Vec::new(), false).is_err());
}

#[test]
fn load_rejects_oversized_total() {
    let mut exe = build_exe(&[0x90], &[], 0x1000);
    exe[24..28].copy_from_slice(&0x20000u32.to_le_bytes());
    assert!(Machine::new(&exe, &Vec::new(), &Vec::new(), false).is_err());
}

#[test]
fn division_by_zero_is_fatal() {
    // MOV AX,5; MOV BX,0; DIV BX
    let text = [0xb8, 0x05, 0x00, 0xbb, 0x00, 0x00, 0xf7, 0xf3];
    let mut m = machine(&text, &[], 0x1000);
    assert!(matches!(m.run(1000), Err(MachineError::DivideByZero)));
}

#[test]
fn unimplemented_mnemonic_is_fatal() {
    // AAA decodes but does not execute
    let text = [0x37];
    let mut m = machine(&text, &[], 0x1000);
    assert!(matches!(m.run(1000), Err(MachineError::Unimplemented { .. })));
}

#[test]
fn trace_lines_carry_state_and_listing() {
    let text = [0xb8, 0x01, 0x00];
    let exe = build_exe(&text, &[], 0x1000);
    let mut m = Machine::new(&exe, &Vec::new(), &Vec::new(), true).unwrap();
    m.run(1000).unwrap();
    let trace = String::from_utf8(m.dump.out).unwrap();
    let mut lines = trace.lines();
    assert_eq!(lines.next(), Some(" AX   BX   CX   DX   SP   BP   SI   DI  FLAGS IP"));
    let step = lines.next().unwrap();
    assert!(step.starts_with("0000 0000 0000 0000"), "zeroed registers: {}", step);
    assert!(step.contains("---- "), "flags all clear: {}", step);
    assert!(step.ends_with("0000: b80100        MOV AX, 0001"), "listing: {}", step);
}

#[test]
fn non_control_execution_leaves_ip_past_instruction() {
    // ADD AX,BX is two bytes at position 6; IP lands on the next byte
    let text = [0xb8, 0x02, 0x00, 0xbb, 0x03, 0x00, 0x01, 0xd8];
    let mut m = machine(&text, &[], 0x1000);
    m.run(1000).unwrap();
    assert_eq!(m.register.ip as usize, text.len());
    assert_eq!(m.register.get_ax(), 5);
}

#[test]
fn cmp_flags_equal_sub_flags() {
    // Same operands through CMP and through SUB: the four flags agree
    let pairs: [(u16, u16); 5] = [(1, 0xffff), (0, 0), (0x8000, 1), (0x1234, 0x1234), (5, 9)];
    for (x, y) in pairs {
        let mut setup = vec![0xb8];
        setup.extend_from_slice(&x.to_le_bytes()); // MOV AX, x
        setup.push(0xbb);
        setup.extend_from_slice(&y.to_le_bytes()); // MOV BX, y
        let mut text_cmp = setup.clone();
        let mut text_sub = setup.clone();
        text_cmp.extend_from_slice(&[0x39, 0xd8]); // CMP AX, BX
        text_sub.extend_from_slice(&[0x29, 0xd8]); // SUB AX, BX
        let mut m_cmp = machine(&text_cmp, &[], 0x1000);
        let mut m_sub = machine(&text_sub, &[], 0x1000);
        m_cmp.run(1000).unwrap();
        m_sub.run(1000).unwrap();
        assert_eq!(m_cmp.flag, m_sub.flag, "operands {:#x}, {:#x}", x, y);
        assert_eq!(m_cmp.register.get_ax(), x, "CMP discards the result");
    }
}

#[test]
fn mod_11_resolves_to_a_register() {
    let mut d = Disassembler::new(vec![0x01, 0xd8], false);
    let op = d.next_operation().unwrap();
    assert_eq!(op.mod_rm, 0b11);
    let m = machine(&[0x90], &[], 0x1000);
    match m.calc_effective_address(&op) {
        Resolved::Reg(t) => assert_eq!(t, RegisterType::Word(Register16Bit::AX)),
        other => panic!("mod=11 must name a register, got {:?}", other),
    }
}

#[test]
fn memory_write_past_total_is_fatal() {
    // MOV [0x0FFF], AX needs two bytes but only one is inside the image
    let text = [0xa3, 0xff, 0x0f];
    let mut m = machine(&text, &[], 0x1000);
    assert!(matches!(m.run(1000), Err(MachineError::MemoryOutOfBounds { .. })));
}

#[test]
fn push_below_bottom_is_stack_overflow() {
    let text = [0x50]; // PUSH AX
    let mut m = machine(&text, &[], 0x1000);
    m.register.sp = 1;
    assert!(matches!(m.run(1000), Err(MachineError::StackOverflow)));
}

#[test]
fn decode_fault_surfaces_through_run() {
    let text = [0x60];
    let mut m = machine(&text, &[], 0x1000);
    assert!(matches!(m.run(1000), Err(MachineError::Decode(_))));
}

#[test]
fn oversized_argument_frame_is_rejected() {
    let exe = build_exe(&[0x90], &[], 0x100);
    let args: Vec<Vec<u8>> = vec![vec![b'a'; 0x200]];
    assert!(matches!(
        Machine::new(&exe, &args, &Vec::new(), false),
        Err(LoadError::FrameTooLarge)
    ));
}

#[test]
fn largest_memory_image_loads_and_runs() {
    // total at the full 16-bit address space
    let text = [0xb8, 0x2a, 0x00]; // MOV AX, 42
    let mut m = machine(&text, &[], 0x10000);
    assert_eq!(m.memory.len(), 0x10000);
    let exit = m.run(10).unwrap();
    assert_eq!(exit, RunExit::Stopped);
    assert_eq!(m.register.get_ax(), 42);
}

#[test]
fn empty_text_stops_immediately() {
    let mut m = machine(&[], &[], 0x1000);
    assert_eq!(m.run(10).unwrap(), RunExit::Stopped);
}

#[test]
fn jump_beyond_text_is_fatal() {
    // JMP short +0x50 lands far past the text segment
    let text = [0xeb, 0x50, 0x90, 0x90];
    let mut m = machine(&text, &[], 0x1000);
    assert!(matches!(m.run(1000), Err(MachineError::MemoryOutOfBounds { .. })));
}

#[test]
fn jump_to_text_end_stops_gracefully() {
    // A target exactly at the end of the text is the orderly way out
    let text = [0xeb, 0x00];
    let mut m = machine(&text, &[], 0x1000);
    assert_eq!(m.run(1000).unwrap(), RunExit::Stopped);
    assert_eq!(m.register.ip, 2);
}
