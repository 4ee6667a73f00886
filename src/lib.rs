//! An Intel 8080 emulator core with the Taito Space Invaders I/O bridge
//! and frame scheduler, specified and proved with Verus.
pub mod registers;
pub mod alu;
pub mod isa;
pub mod machine;
pub mod cpu;
pub mod space_invader;
