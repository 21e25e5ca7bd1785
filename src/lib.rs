pub mod audio;
pub mod bus;
pub mod cpu;
pub mod decode;
pub mod ines;
pub mod memory;
pub mod nes;
pub mod ppu;

pub use ines::Rom;
pub use nes::Nes;
