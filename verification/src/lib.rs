//! A user-mode emulator and disassembler for 16-bit Intel 8086 executables in
//! the classic MINIX a.out format.
//!
//! The crate decodes a byte stream into structured instructions, models the
//! CPU state (register file, flags, memory image), executes instructions with
//! 8086 flag semantics, and services a small set of MINIX-style system calls
//! (exit, write, brk, ioctl). Host I/O stays outside: the machine collects
//! everything it would print in a byte buffer that the caller drains.

pub mod alu;
pub mod args;
pub mod disassembler;
pub mod dump;
pub mod flag;
pub mod machine;
pub mod message;
pub mod metadata;
pub mod operation;
pub mod register;
pub mod utf8;
