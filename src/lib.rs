// Devices on the address space and the bus that routes between them.
pub mod io;
pub mod mem;
pub mod cart;
pub mod ppu;
pub mod rng;
pub mod bus;
pub mod rom;
pub mod mapper;
pub mod stdin;
pub mod stdout;

// The processor: opcode table, status register, execution and its
// mathematical model, and the laws proved of it.
pub mod instruction;
pub mod status;
pub mod cpu;
pub mod cpu_spec;
pub mod laws;

// Views and drivers: disassembly text and the executor's decisions.
pub mod text;
pub mod disasm;
pub mod machine;
