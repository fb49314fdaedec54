pub mod codes;
pub mod devices;
pub mod filter;
pub mod filter_answers;
pub mod filter_laws;
pub mod grab;
pub mod keymap;
pub mod setup;
pub mod watch;
