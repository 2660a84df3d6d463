//! Hardware abstraction for the STM32F7 family, with the register logic verified.
//!
//! The peripherals are modelled as plain values: every register that the
//! library writes is a [`reg::Reg`], which holds the contents of the hardware
//! register and the words that are still to be carried out to it. The code
//! that touches the memory-mapped hardware lives outside this library: it
//! flushes the pending words in order and hands back what it reads.
//!
//! A register can be stored to only through its capability, a value that
//! cannot be copied and that only the split of its peripheral hands out. A
//! pin carries its electrical mode in its type, and every change of mode
//! consumes the pin and stores the matching fields.

pub mod delay;
pub mod flash;
pub mod gpio;
pub mod prelude;
pub mod rcc;
pub mod reg;
pub mod time;
