//! A register-based virtual CPU: a fetch-decode-execute engine over an
//! address space made of memory-mapped devices.

pub mod cpu;
pub mod device;
pub mod device_mapper;
pub mod fault;
pub mod handlers;
pub mod image;
pub mod laws;
pub mod model;
pub mod opcodes;
pub mod parser;
pub mod peripheral;
pub mod ram;
pub mod register;
pub mod registers;
pub mod rom;
pub mod stdout;
pub mod table;
