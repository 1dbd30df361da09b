//! UART line settings and the configuration record handed to Zephyr's
//! `uart_configure`.

use vstd::prelude::*;

verus! {

/// Number of stop bits (Zephyr's `uart_config_stop_bits`).
#[allow(non_camel_case_types)]
#[derive(Debug, Clone, Copy, PartialEq, Eq, Structural)]
pub enum UartConfigStopBits {
    /// 0.5 stop bit.
    UART_CFG_STOP_BITS_0_5,
    /// 1 stop bit.
    UART_CFG_STOP_BITS_1,
    /// 1.5 stop bits.
    UART_CFG_STOP_BITS_1_5,
    /// 2 stop bits.
    UART_CFG_STOP_BITS_2,
}

/// Parity modes (Zephyr's `uart_config_parity`).
#[allow(non_camel_case_types)]
#[derive(Debug, Clone, Copy, PartialEq, Eq, Structural)]
pub enum UartConfigParity {
    /// No parity.
    UART_CFG_PARITY_NONE,
    /// Odd parity.
    UART_CFG_PARITY_ODD,
    /// Even parity.
    UART_CFG_PARITY_EVEN,
    /// Mark parity.
    UART_CFG_PARITY_MARK,
    /// Space parity.
    UART_CFG_PARITY_SPACE,
}

/// Number of data bits (Zephyr's `uart_config_data_bits`).
#[allow(non_camel_case_types)]
#[derive(Debug, Clone, Copy, PartialEq, Eq, Structural)]
pub enum UartConfigDataBits {
    /// 5 data bits.
    UART_CFG_DATA_BITS_5,
    /// 6 data bits.
    UART_CFG_DATA_BITS_6,
    /// 7 data bits.
    UART_CFG_DATA_BITS_7,
    /// 8 data bits.
    UART_CFG_DATA_BITS_8,
    /// 9 data bits.
    UART_CFG_DATA_BITS_9,
}

/// Hardware flow control options (Zephyr's `uart_config_flow_control`).
#[allow(non_camel_case_types)]
#[derive(Debug, Clone, Copy, PartialEq, Eq, Structural)]
pub enum UartConfigFlowControl {
    /// No flow control.
    UART_CFG_FLOW_CTRL_NONE,
    /// RTS/CTS flow control.
    UART_CFG_FLOW_CTRL_RTS_CTS,
    /// DTR/DSR flow control.
    UART_CFG_FLOW_CTRL_DTR_DSR,
    /// RS485 flow control.
    UART_CFG_FLOW_CTRL_RS485,
}

/// Zephyr's value of each stop-bits setting.
pub open spec fn stop_bits_code(s: UartConfigStopBits) -> u8 {
    match s {
        UartConfigStopBits::UART_CFG_STOP_BITS_0_5 => 0,
        UartConfigStopBits::UART_CFG_STOP_BITS_1 => 1,
        UartConfigStopBits::UART_CFG_STOP_BITS_1_5 => 2,
        UartConfigStopBits::UART_CFG_STOP_BITS_2 => 3,
    }
}

/// Zephyr's value of each parity setting.
pub open spec fn parity_code(p: UartConfigParity) -> u8 {
    match p {
        UartConfigParity::UART_CFG_PARITY_NONE => 0,
        UartConfigParity::UART_CFG_PARITY_ODD => 1,
        UartConfigParity::UART_CFG_PARITY_EVEN => 2,
        UartConfigParity::UART_CFG_PARITY_MARK => 3,
        UartConfigParity::UART_CFG_PARITY_SPACE => 4,
    }
}

/// Zephyr's value of each data-bits setting.
pub open spec fn data_bits_code(d: UartConfigDataBits) -> u8 {
    match d {
        UartConfigDataBits::UART_CFG_DATA_BITS_5 => 0,
        UartConfigDataBits::UART_CFG_DATA_BITS_6 => 1,
        UartConfigDataBits::UART_CFG_DATA_BITS_7 => 2,
        UartConfigDataBits::UART_CFG_DATA_BITS_8 => 3,
        UartConfigDataBits::UART_CFG_DATA_BITS_9 => 4,
    }
}

/// Zephyr's value of each flow-control setting.
pub open spec fn flow_ctrl_code(f: UartConfigFlowControl) -> u8 {
    match f {
        UartConfigFlowControl::UART_CFG_FLOW_CTRL_NONE => 0,
        UartConfigFlowControl::UART_CFG_FLOW_CTRL_RTS_CTS => 1,
        UartConfigFlowControl::UART_CFG_FLOW_CTRL_DTR_DSR => 2,
        UartConfigFlowControl::UART_CFG_FLOW_CTRL_RS485 => 3,
    }
}

/// A UART configuration as Zephyr's `struct uart_config` holds it.
#[derive(Debug, Clone, Copy, PartialEq, Eq, Structural)]
pub struct UartConfig {
    /// Baud rate.
    pub baudrate: u32,
    /// Parity, as a `uart_config_parity` value.
    pub parity: u8,
    /// Stop bits, as a `uart_config_stop_bits` value.
    pub stop_bits: u8,
    /// Data bits, as a `uart_config_data_bits` value.
    pub data_bits: u8,
    /// Flow control, as a `uart_config_flow_control` value.
    pub flow_ctrl: u8,
}

impl UartConfig {
    /// The configuration record for the given line settings, each setting
    /// stored as its Zephyr value.
    pub fn new(
        baudrate: u32,
        parity: UartConfigParity,
        stop_bits: UartConfigStopBits,
        data_bits: UartConfigDataBits,
        flow_ctrl: UartConfigFlowControl,
    ) -> (r: Self)
        ensures
            r.baudrate == baudrate,
            r.parity == parity_code(parity),
            r.stop_bits == stop_bits_code(stop_bits),
            r.data_bits == data_bits_code(data_bits),
            r.flow_ctrl == flow_ctrl_code(flow_ctrl),
    {
        let parity: u8 = match parity {
            UartConfigParity::UART_CFG_PARITY_NONE => 0,
            UartConfigParity::UART_CFG_PARITY_ODD => 1,
            UartConfigParity::UART_CFG_PARITY_EVEN => 2,
            UartConfigParity::UART_CFG_PARITY_MARK => 3,
            UartConfigParity::UART_CFG_PARITY_SPACE => 4,
        };
        let stop_bits: u8 = match stop_bits {
            UartConfigStopBits::UART_CFG_STOP_BITS_0_5 => 0,
            UartConfigStopBits::UART_CFG_STOP_BITS_1 => 1,
            UartConfigStopBits::UART_CFG_STOP_BITS_1_5 => 2,
            UartConfigStopBits::UART_CFG_STOP_BITS_2 => 3,
        };
        let data_bits: u8 = match data_bits {
            UartConfigDataBits::UART_CFG_DATA_BITS_5 => 0,
            UartConfigDataBits::UART_CFG_DATA_BITS_6 => 1,
            UartConfigDataBits::UART_CFG_DATA_BITS_7 => 2,
            UartConfigDataBits::UART_CFG_DATA_BITS_8 => 3,
            UartConfigDataBits::UART_CFG_DATA_BITS_9 => 4,
        };
        let flow_ctrl: u8 = match flow_ctrl {
            UartConfigFlowControl::UART_CFG_FLOW_CTRL_NONE => 0,
            UartConfigFlowControl::UART_CFG_FLOW_CTRL_RTS_CTS => 1,
            UartConfigFlowControl::UART_CFG_FLOW_CTRL_DTR_DSR => 2,
            UartConfigFlowControl::UART_CFG_FLOW_CTRL_RS485 => 3,
        };
        UartConfig { baudrate, parity, stop_bits, data_bits, flow_ctrl }
    }
}

/// Each line setting is stored as its value in Zephyr's enums: stop bits
/// 0.5 -> 0, 1 -> 1, 1.5 -> 2, 2 -> 3; parity none 0, odd 1, even 2, mark 3,
/// space 4; data bits 5 -> 0, 6 -> 1, 7 -> 2, 8 -> 3, 9 -> 4; flow control
/// none 0, RTS/CTS 1, DTR/DSR 2, RS485 3.
pub proof fn lemma_config_values()
    ensures
        stop_bits_code(UartConfigStopBits::UART_CFG_STOP_BITS_0_5) == 0,
        stop_bits_code(UartConfigStopBits::UART_CFG_STOP_BITS_1) == 1,
        stop_bits_code(UartConfigStopBits::UART_CFG_STOP_BITS_1_5) == 2,
        stop_bits_code(UartConfigStopBits::UART_CFG_STOP_BITS_2) == 3,
        parity_code(UartConfigParity::UART_CFG_PARITY_NONE) == 0,
        parity_code(UartConfigParity::UART_CFG_PARITY_ODD) == 1,
        parity_code(UartConfigParity::UART_CFG_PARITY_EVEN) == 2,
        parity_code(UartConfigParity::UART_CFG_PARITY_MARK) == 3,
        parity_code(UartConfigParity::UART_CFG_PARITY_SPACE) == 4,
        data_bits_code(UartConfigDataBits::UART_CFG_DATA_BITS_5) == 0,
        data_bits_code(UartConfigDataBits::UART_CFG_DATA_BITS_6) == 1,
        data_bits_code(UartConfigDataBits::UART_CFG_DATA_BITS_7) == 2,
        data_bits_code(UartConfigDataBits::UART_CFG_DATA_BITS_8) == 3,
        data_bits_code(UartConfigDataBits::UART_CFG_DATA_BITS_9) == 4,
        flow_ctrl_code(UartConfigFlowControl::UART_CFG_FLOW_CTRL_NONE) == 0,
        flow_ctrl_code(UartConfigFlowControl::UART_CFG_FLOW_CTRL_RTS_CTS) == 1,
        flow_ctrl_code(UartConfigFlowControl::UART_CFG_FLOW_CTRL_DTR_DSR) == 2,
        flow_ctrl_code(UartConfigFlowControl::UART_CFG_FLOW_CTRL_RS485) == 3,
{
}

/// Distinct line settings give distinct configuration records: each Zephyr
/// value stands for one setting.
pub proof fn lemma_config_codes_injective(
    p1: UartConfigParity,
    p2: UartConfigParity,
    s1: UartConfigStopBits,
    s2: UartConfigStopBits,
    d1: UartConfigDataBits,
    d2: UartConfigDataBits,
    f1: UartConfigFlowControl,
    f2: UartConfigFlowControl,
)
    ensures
        parity_code(p1) == parity_code(p2) ==> p1 == p2,
        stop_bits_code(s1) == stop_bits_code(s2) ==> s1 == s2,
        data_bits_code(d1) == data_bits_code(d2) ==> d1 == d2,
        flow_ctrl_code(f1) == flow_ctrl_code(f2) ==> f1 == f2,
{
}

} // verus!
