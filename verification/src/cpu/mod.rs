pub mod physical_address;
pub mod virtual_address;
pub mod opcode;
pub mod registers;
pub mod instruction;
pub mod cp0;
pub mod pipeline;
pub mod cpu;
pub mod interpreter;
