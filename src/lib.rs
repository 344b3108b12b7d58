pub mod addressing_modes;
pub mod cpu;
pub mod file_format;
pub mod memory_dump;
pub mod model;
pub mod theorems;
pub mod util;
