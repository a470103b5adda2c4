//! What holds of the machine whatever its state: the laws that the
//! contracts of the executable functions add up to.

pub mod addressing;
pub mod bus;
pub mod decimal;
pub mod failures;
pub mod ppu;
pub mod results;
pub mod running;
pub mod stack;
pub mod status;
pub mod table;
