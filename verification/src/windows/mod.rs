pub mod listen;
