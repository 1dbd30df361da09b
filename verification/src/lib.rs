//! Verified core of the Zephyr device drivers and ODP service glue: sensor
//! value types, Zephyr error codes, smart-battery unit conversions, PWM fan
//! bookkeeping, UART configuration and ring-buffer handling, RTC date
//! conversion and the battery polling schedule.

pub mod math;
pub mod sensor;
pub mod error;
pub mod fuel_gauge;
pub mod battery;
pub mod ring;
pub mod uart_interrupt;
pub mod uart;
pub mod pwm_fan;
pub mod fan;
pub mod rtc;
