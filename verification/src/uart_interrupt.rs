//! The decisions of the interrupt-driven UART driver: how it reads the return
//! codes of Zephyr's interrupt-driven UART calls.

use vstd::prelude::*;

use crate::error::to_result;
use crate::ring::{
    discard, is_drained, receive_byte, ring_capacity, ring_contents, spec_drain_count, stage_chunk,
    RingBuffer,
};

verus! {

/// Size of the staging chunk handed to one `uart_fifo_fill` call.
pub const TX_CHUNK_SIZE: usize = 64;

/// The reading of a yes/no query's code: 1 is yes, 0 is no, anything else a failure.
pub open spec fn irq_flag_spec(code: i32) -> Result<bool, ()> {
    if code == 1 {
        Ok(true)
    } else if code == 0 {
        Ok(false)
    } else {
        Err(())
    }
}

/// A yes/no code reads as yes only for 1, as no only for 0, and as a failure
/// for every other value.
pub proof fn lemma_irq_flag_codes()
    ensures
        irq_flag_spec(1) == Ok::<bool, ()>(true),
        irq_flag_spec(0) == Ok::<bool, ()>(false),
        forall|code: i32| code != 0 && code != 1 ==> #[trigger] irq_flag_spec(code) is Err,
        TX_CHUNK_SIZE == 64,
{
}

/// Reads the code of a yes/no query (`uart_irq_is_pending`,
/// `uart_irq_rx_ready`): 1 is yes, 0 is no; any other success value and any
/// error code are failures.
pub fn irq_flag_from_code(code: i32) -> (r: Result<bool, ()>)
    ensures
        r == irq_flag_spec(code),
{
    match to_result(code) {
        Ok(1) => Ok(true),
        Ok(0) => Ok(false),
        Ok(_) => Err(()),
        Err(_) => Err(()),
    }
}

/// Reads the code of a one-byte `uart_fifo_read` into `byte`: 1 means the
/// byte was read, 0 that the FIFO is empty; more bytes than asked for and any
/// error code are failures.
pub fn fifo_read_outcome(code: i32, byte: u8) -> (r: Result<Option<u8>, ()>)
    ensures
        code == 1 ==> r == Ok::<Option<u8>, ()>(Some(byte)),
        code == 0 ==> r == Ok::<Option<u8>, ()>(None),
        code != 0 && code != 1 ==> r is Err,
{
    match to_result(code) {
        Ok(1) => Ok(Some(byte)),
        Ok(0) => Ok(None),
        Ok(_) => Err(()),
        Err(_) => Err(()),
    }
}

/// Reads the code of `uart_irq_tx_ready`: 0 means not ready, a positive code
/// the number of bytes the FIFO takes at least, an error code a failure.
pub fn tx_ready_from_code(code: i32) -> (r: Result<Option<usize>, ()>)
    ensures
        code == 0 ==> r == Ok::<Option<usize>, ()>(None),
        code > 0 ==> r == Ok::<Option<usize>, ()>(Some(code as usize)),
        code < 0 ==> r is Err,
{
    match to_result(code) {
        Ok(0) => Ok(None),
        Ok(n) => Ok(Some(n as usize)),
        Err(_) => Err(()),
    }
}

/// Reads the code of `uart_fifo_fill` offered `offered` bytes: the number of
/// bytes the FIFO took, which must not exceed the offer; a larger count and
/// any error code are failures.
pub fn fifo_fill_outcome(code: i32, offered: usize) -> (r: Result<usize, ()>)
    ensures
        0 <= code <= offered ==> r == Ok::<usize, ()>(code as usize),
        !(0 <= code <= offered) ==> r is Err,
{
    match to_result(code) {
        Ok(n) => {
            if (n as usize) <= offered {
                Ok(n as usize)
            } else {
                Err(())
            }
        },
        Err(_) => Err(()),
    }
}


/// Where the interrupt handler stands: which call's return code it awaits.
#[derive(Debug, Clone, Copy, PartialEq, Eq, Structural)]
pub enum IsrPhase {
    /// Awaits the code of `uart_irq_is_pending` (after `uart_irq_update`).
    Pending,
    /// Awaits the code of `uart_irq_rx_ready`.
    RxReady,
    /// Awaits the code (and the byte) of a one-byte `uart_fifo_read`.
    Read,
    /// Awaits the code of `uart_irq_tx_ready`.
    TxReady,
    /// Awaits the code of `uart_fifo_fill` offered this many staged bytes.
    Filled(usize),
}

/// What the interrupt handler does next on the UART; each action but the last two
/// ends with the call whose code the next phase awaits.
#[derive(Debug, Clone, Copy, PartialEq, Eq, Structural)]
pub enum IsrAction {
    /// Call `uart_irq_update`, then `uart_irq_is_pending`.
    UpdateAndQueryPending,
    /// Call `uart_irq_rx_ready`.
    QueryRxReady,
    /// Call `uart_fifo_read` for one byte.
    ReadByte,
    /// Wake the reader, then call `uart_irq_tx_ready`.
    WakeRxAndQueryTxReady,
    /// Call `uart_fifo_fill` with the first this-many bytes of the chunk.
    FillFifo(usize),
    /// Disable the TX interrupt where asked (the TX ring is empty), wake the
    /// writer, then call `uart_irq_update` and `uart_irq_is_pending`.
    FinishTx(bool),
    /// Return from the interrupt: no interrupt is pending any more.
    Finished,
    /// Return from the interrupt: a call failed or reported what it cannot.
    Failed,
}

/// The first step of the interrupt handler.
pub fn isr_start() -> (r: (IsrPhase, IsrAction))
    ensures
        r == (IsrPhase::Pending, IsrAction::UpdateAndQueryPending),
{
    (IsrPhase::Pending, IsrAction::UpdateAndQueryPending)
}

/// The step after the TX ring buffer has been served: disable the TX
/// interrupt where the ring is empty, then look for more pending interrupts.
fn finish_tx(tx: &RingBuffer) -> (r: (IsrPhase, IsrAction))
    ensures
        r == (IsrPhase::Pending, IsrAction::FinishTx(ring_contents(*tx).len() == 0)),
{
    (IsrPhase::Pending, IsrAction::FinishTx(is_drained(tx)))
}

/// One step of the interrupt handler: given the phase and the return `code`
/// of the call it awaits (with the `byte` a FIFO read produced), updates the
/// RX and TX ring buffers and the TX staging `chunk`, and says what to do next.
///
/// - `Pending`: no interrupt pending ends the handler; a pending one queries RX.
/// - `RxReady`: a ready RX reads a byte; otherwise the reader is woken and TX queried.
/// - `Read`: a byte read goes to the back of the RX ring (dropped when full)
///   and RX is queried again; an empty FIFO wakes the reader and queries TX.
/// - `TxReady`: TX not ready looks for more pending interrupts; TX ready
///   stages the front of the TX ring into `chunk` and fills the FIFO with it,
///   or, with nothing staged, finishes TX.
/// - `Filled(n)`: the bytes the FIFO took are removed from the TX ring, then TX
///   is finished.
///
/// A failed call, or one that reports what it cannot, ends the handler (`Failed`).
pub fn isr_step(
    phase: IsrPhase,
    code: i32,
    byte: u8,
    rx: &mut RingBuffer,
    tx: &mut RingBuffer,
    chunk: &mut [u8],
) -> (r: (IsrPhase, IsrAction))
    requires
        old(chunk)@.len() == TX_CHUNK_SIZE,
        phase matches IsrPhase::Filled(n) ==> n <= TX_CHUNK_SIZE && n <= ring_contents(
            *old(tx),
        ).len(),
    ensures
        final(chunk)@.len() == TX_CHUNK_SIZE,
        !(phase is Read) ==> ring_contents(*final(rx)) == ring_contents(*old(rx)),
        !(phase is TxReady) ==> final(chunk)@ == old(chunk)@,
        !(phase is Filled) ==> ring_contents(*final(tx)) == ring_contents(*old(tx)),
        phase is Pending ==> r == (match irq_flag_spec(code) {
            Ok(true) => (IsrPhase::RxReady, IsrAction::QueryRxReady),
            Ok(false) => (IsrPhase::Pending, IsrAction::Finished),
            Err(_) => (IsrPhase::Pending, IsrAction::Failed),
        }),
        phase is RxReady ==> r == (match irq_flag_spec(code) {
            Ok(true) => (IsrPhase::Read, IsrAction::ReadByte),
            Ok(false) => (IsrPhase::TxReady, IsrAction::WakeRxAndQueryTxReady),
            Err(_) => (IsrPhase::RxReady, IsrAction::Failed),
        }),
        phase is Read ==> ({
            let old_rx = ring_contents(*old(rx));
            if code == 1 {
                &&& r == (IsrPhase::RxReady, IsrAction::QueryRxReady)
                &&& ring_contents(*final(rx)) == (if old_rx.len() < ring_capacity() {
                    old_rx.push(byte)
                } else {
                    old_rx
                })
            } else if code == 0 {
                &&& r == (IsrPhase::TxReady, IsrAction::WakeRxAndQueryTxReady)
                &&& ring_contents(*final(rx)) == old_rx
            } else {
                &&& r == (IsrPhase::Read, IsrAction::Failed)
                &&& ring_contents(*final(rx)) == old_rx
            }
        }),
        phase is TxReady ==> ({
            let old_tx = ring_contents(*old(tx));
            let n = spec_drain_count(old_tx, TX_CHUNK_SIZE as int);
            if code < 0 {
                r == (IsrPhase::TxReady, IsrAction::Failed) && final(chunk)@ == old(chunk)@
            } else if code == 0 {
                r == (IsrPhase::Pending, IsrAction::UpdateAndQueryPending) && final(chunk)@ == old(
                    chunk,
                )@
            } else {
                &&& final(chunk)@.take(n) == old_tx.take(n)
                &&& final(chunk)@.skip(n) == old(chunk)@.skip(n)
                &&& n > 0 ==> r == (IsrPhase::Filled(n as usize), IsrAction::FillFifo(n as usize))
                &&& n == 0 ==> r == (IsrPhase::Pending, IsrAction::FinishTx(true))
            }
        }),
        phase matches IsrPhase::Filled(n) ==> ({
            let old_tx = ring_contents(*old(tx));
            if 0 <= code <= n {
                &&& ring_contents(*final(tx)) == old_tx.skip(code as int)
                &&& r == (IsrPhase::Pending, IsrAction::FinishTx(old_tx.len() == code))
            } else {
                &&& ring_contents(*final(tx)) == old_tx
                &&& r == (IsrPhase::Filled(n), IsrAction::Failed)
            }
        }),
{
    match phase {
        IsrPhase::Pending => match irq_flag_from_code(code) {
            Ok(true) => (IsrPhase::RxReady, IsrAction::QueryRxReady),
            Ok(false) => (IsrPhase::Pending, IsrAction::Finished),
            Err(_) => (IsrPhase::Pending, IsrAction::Failed),
        },
        IsrPhase::RxReady => match irq_flag_from_code(code) {
            Ok(true) => (IsrPhase::Read, IsrAction::ReadByte),
            Ok(false) => (IsrPhase::TxReady, IsrAction::WakeRxAndQueryTxReady),
            Err(_) => (IsrPhase::RxReady, IsrAction::Failed),
        },
        IsrPhase::Read => match fifo_read_outcome(code, byte) {
            Ok(Some(b)) => {
                let _accepted = receive_byte(rx, b);
                (IsrPhase::RxReady, IsrAction::QueryRxReady)
            },
            Ok(None) => (IsrPhase::TxReady, IsrAction::WakeRxAndQueryTxReady),
            Err(_) => (IsrPhase::Read, IsrAction::Failed),
        },
        IsrPhase::TxReady => match tx_ready_from_code(code) {
            Ok(Some(_)) => {
                let n = stage_chunk(tx, chunk);
                if n > 0 {
                    (IsrPhase::Filled(n), IsrAction::FillFifo(n))
                } else {
                    finish_tx(tx)
                }
            },
            Ok(None) => (IsrPhase::Pending, IsrAction::UpdateAndQueryPending),
            Err(_) => (IsrPhase::TxReady, IsrAction::Failed),
        },
        IsrPhase::Filled(n) => match fifo_fill_outcome(code, n) {
            Ok(sent) => {
                let _all = discard(tx, sent);
                finish_tx(tx)
            },
            Err(_) => (IsrPhase::Filled(n), IsrAction::Failed),
        },
    }
}

} // verus!
