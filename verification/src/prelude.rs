//! Prelude: the extension traits of the library.

pub use crate::flash::FlashExt as _stm32f7_hal_FlashExt;
pub use crate::gpio::GpioExt as _stm32f7_hal_GpioExt;
pub use crate::rcc::RccExt as _stm32f7_hal_RccExt;
pub use crate::time::U32Ext as _stm32f7_hal_time_U32Ext;
