use heapless::spsc::Queue;
use zephyr::ring::{drain_into, fill_from, held, RingBuffer};
use zephyr::uart_interrupt::{isr_start, isr_step, IsrAction, IsrPhase, TX_CHUNK_SIZE};

#[test]
fn isr_receives_bytes_then_transmits_and_finishes() {
    let mut rx: RingBuffer = Queue::new();
    let mut tx: RingBuffer = Queue::new();
    let out: Vec<u8> = (0..70u8).collect();
    fill_from(&mut tx, &out);
    let mut chunk = [0u8; TX_CHUNK_SIZE];

    let (phase, action) = isr_start();
    assert_eq!((phase, action), (IsrPhase::Pending, IsrAction::UpdateAndQueryPending));
    // an interrupt is pending
    let (phase, action) = isr_step(phase, 1, 0, &mut rx, &mut tx, &mut chunk);
    assert_eq!(action, IsrAction::QueryRxReady);
    // RX ready, one byte read
    let (phase, action) = isr_step(phase, 1, 0, &mut rx, &mut tx, &mut chunk);
    assert_eq!(action, IsrAction::ReadByte);
    let (phase, action) = isr_step(phase, 1, 0x5A, &mut rx, &mut tx, &mut chunk);
    assert_eq!(action, IsrAction::QueryRxReady);
    // RX no longer ready
    let (phase, action) = isr_step(phase, 0, 0, &mut rx, &mut tx, &mut chunk);
    assert_eq!(action, IsrAction::WakeRxAndQueryTxReady);
    // TX ready: the first 64 bytes are staged
    let (phase, action) = isr_step(phase, 16, 0, &mut rx, &mut tx, &mut chunk);
    assert_eq!(action, IsrAction::FillFifo(64));
    assert_eq!(&chunk[..], &out[..64]);
    // the FIFO took 16 bytes: they leave the ring, which is not empty yet
    let (phase, action) = isr_step(phase, 16, 0, &mut rx, &mut tx, &mut chunk);
    assert_eq!(action, IsrAction::FinishTx(false));
    assert_eq!(held(&tx), 54);
    // nothing pending any more
    let (_, action) = isr_step(phase, 0, 0, &mut rx, &mut tx, &mut chunk);
    assert_eq!(action, IsrAction::Finished);

    let mut got = [0u8; 4];
    assert_eq!(drain_into(&mut rx, &mut got), 1);
    assert_eq!(got[0], 0x5A);
    let mut rest = [0u8; 64];
    assert_eq!(drain_into(&mut tx, &mut rest), 54);
    assert_eq!(&rest[..54], &out[16..]);
}

#[test]
fn isr_disables_tx_once_ring_drained() {
    let mut rx: RingBuffer = Queue::new();
    let mut tx: RingBuffer = Queue::new();
    fill_from(&mut tx, &[1, 2, 3]);
    let mut chunk = [0u8; TX_CHUNK_SIZE];
    let (phase, action) = isr_step(IsrPhase::TxReady, 8, 0, &mut rx, &mut tx, &mut chunk);
    assert_eq!(action, IsrAction::FillFifo(3));
    let (phase, action) = isr_step(phase, 3, 0, &mut rx, &mut tx, &mut chunk);
    assert_eq!((phase, action), (IsrPhase::Pending, IsrAction::FinishTx(true)));
    // TX ready with nothing to send also finishes TX
    let (_, action) = isr_step(IsrPhase::TxReady, 8, 0, &mut rx, &mut tx, &mut chunk);
    assert_eq!(action, IsrAction::FinishTx(true));
}

#[test]
fn isr_fails_on_bad_codes() {
    let mut rx: RingBuffer = Queue::new();
    let mut tx: RingBuffer = Queue::new();
    fill_from(&mut tx, &[1, 2, 3]);
    let mut chunk = [0u8; TX_CHUNK_SIZE];
    assert_eq!(isr_step(IsrPhase::Pending, -88, 0, &mut rx, &mut tx, &mut chunk).1, IsrAction::Failed);
    assert_eq!(isr_step(IsrPhase::RxReady, 2, 0, &mut rx, &mut tx, &mut chunk).1, IsrAction::Failed);
    assert_eq!(isr_step(IsrPhase::Read, 2, 0, &mut rx, &mut tx, &mut chunk).1, IsrAction::Failed);
    assert_eq!(isr_step(IsrPhase::TxReady, -1, 0, &mut rx, &mut tx, &mut chunk).1, IsrAction::Failed);
    assert_eq!(isr_step(IsrPhase::Filled(3), 4, 0, &mut rx, &mut tx, &mut chunk).1, IsrAction::Failed);
    assert_eq!(held(&tx), 3);
    assert_eq!(held(&rx), 0);
    // TX not ready goes back to look for pending interrupts
    assert_eq!(
        isr_step(IsrPhase::TxReady, 0, 0, &mut rx, &mut tx, &mut chunk),
        (IsrPhase::Pending, IsrAction::UpdateAndQueryPending)
    );
}
