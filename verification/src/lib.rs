pub mod chip8;
pub mod config;
pub mod display;
pub mod fault;
pub mod keypad;
pub mod laws;
pub mod machine;
pub mod registers;
mod rng;
pub mod stack;
