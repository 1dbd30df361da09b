use heapless::spsc::Queue;
use zephyr::ring::{
    discard, drain_into, fill_from, held, is_drained, receive_byte, stage_chunk, RingBuffer,
};
use zephyr::uart::{
    UartConfig, UartConfigDataBits, UartConfigFlowControl, UartConfigParity, UartConfigStopBits,
};
use zephyr::uart_interrupt::{
    fifo_fill_outcome, fifo_read_outcome, irq_flag_from_code, tx_ready_from_code, TX_CHUNK_SIZE,
};

#[test]
fn write_then_read_gives_bytes_back_in_order() {
    let mut ring: RingBuffer = Queue::new();
    let data: Vec<u8> = (0..100u8).collect();
    assert_eq!(fill_from(&mut ring, &data), 100);
    assert_eq!(held(&ring), 100);
    let mut buf = [0u8; 128];
    let n = drain_into(&mut ring, &mut buf);
    assert_eq!(n, 100);
    assert_eq!(&buf[..100], &data[..]);
    assert!(buf[100..].iter().all(|&b| b == 0));
    assert!(is_drained(&ring));
}

#[test]
fn fill_stops_when_full() {
    let mut ring: RingBuffer = Queue::new();
    let data = [7u8; 300];
    assert_eq!(fill_from(&mut ring, &data), 255);
    assert_eq!(fill_from(&mut ring, &data), 0);
    assert!(!receive_byte(&mut ring, 1));
    assert_eq!(held(&ring), 255);
}

#[test]
fn drain_into_small_buffer_leaves_rest() {
    let mut ring: RingBuffer = Queue::new();
    fill_from(&mut ring, &[1, 2, 3, 4, 5]);
    let mut buf = [9u8; 2];
    assert_eq!(drain_into(&mut ring, &mut buf), 2);
    assert_eq!(buf, [1, 2]);
    let mut rest = [0u8; 8];
    assert_eq!(drain_into(&mut ring, &mut rest), 3);
    assert_eq!(&rest[..3], &[3, 4, 5]);
    let mut none = [0u8; 4];
    assert_eq!(drain_into(&mut ring, &mut none), 0);
}

#[test]
fn transmit_stage_and_discard() {
    let mut ring: RingBuffer = Queue::new();
    let data: Vec<u8> = (0..100u8).collect();
    fill_from(&mut ring, &data);
    let mut chunk = [0u8; TX_CHUNK_SIZE];
    let staged = stage_chunk(&ring, &mut chunk);
    assert_eq!(staged, 64);
    assert_eq!(&chunk[..], &data[..64]);
    assert_eq!(held(&ring), 100);
    assert!(discard(&mut ring, 10));
    let mut rest = [0u8; 128];
    let n = drain_into(&mut ring, &mut rest);
    assert_eq!(n, 90);
    assert_eq!(&rest[..90], &data[10..]);
    assert!(!discard(&mut ring, 1));
}

#[test]
fn receive_bytes_in_order() {
    let mut ring: RingBuffer = Queue::new();
    assert!(receive_byte(&mut ring, 0xAB));
    assert!(receive_byte(&mut ring, 0xCD));
    let mut buf = [0u8; 1];
    assert_eq!(drain_into(&mut ring, &mut buf), 1);
    assert_eq!(buf[0], 0xAB);
}

#[test]
fn irq_codes() {
    assert_eq!(irq_flag_from_code(1), Ok(true));
    assert_eq!(irq_flag_from_code(0), Ok(false));
    assert_eq!(irq_flag_from_code(2), Err(()));
    assert_eq!(irq_flag_from_code(-88), Err(()));
    assert_eq!(fifo_read_outcome(1, 0x42), Ok(Some(0x42)));
    assert_eq!(fifo_read_outcome(0, 0x42), Ok(None));
    assert_eq!(fifo_read_outcome(2, 0x42), Err(()));
    assert_eq!(fifo_read_outcome(-134, 0x42), Err(()));
    assert_eq!(tx_ready_from_code(0), Ok(None));
    assert_eq!(tx_ready_from_code(16), Ok(Some(16)));
    assert_eq!(tx_ready_from_code(-1), Err(()));
    assert_eq!(fifo_fill_outcome(10, 64), Ok(10));
    assert_eq!(fifo_fill_outcome(64, 64), Ok(64));
    assert_eq!(fifo_fill_outcome(65, 64), Err(()));
    assert_eq!(fifo_fill_outcome(-5, 64), Err(()));
}

#[test]
fn uart_config_codes() {
    let c = UartConfig::new(
        115_200,
        UartConfigParity::UART_CFG_PARITY_SPACE,
        UartConfigStopBits::UART_CFG_STOP_BITS_2,
        UartConfigDataBits::UART_CFG_DATA_BITS_8,
        UartConfigFlowControl::UART_CFG_FLOW_CTRL_RS485,
    );
    assert_eq!(
        c,
        UartConfig { baudrate: 115_200, parity: 4, stop_bits: 3, data_bits: 3, flow_ctrl: 3 }
    );
    let d = UartConfig::new(
        9600,
        UartConfigParity::UART_CFG_PARITY_NONE,
        UartConfigStopBits::UART_CFG_STOP_BITS_0_5,
        UartConfigDataBits::UART_CFG_DATA_BITS_5,
        UartConfigFlowControl::UART_CFG_FLOW_CTRL_NONE,
    );
    assert_eq!(d, UartConfig { baudrate: 9600, parity: 0, stop_bits: 0, data_bits: 0, flow_ctrl: 0 });
}
