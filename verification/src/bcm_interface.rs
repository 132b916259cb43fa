//! The bus transport as the protocol driver sees it: the operations it can
//! ask for, one at a time, and what comes back.
//!
//! The driver never touches the bus. It hands out sequences of [`BusOp`];
//! whoever owns the hardware performs them in order and hands back the bytes
//! that the transfers among them received.

use vstd::prelude::*;

verus! {

/// One blocking operation of the bus transport.
#[derive(Clone, Copy, Debug, PartialEq, Eq, Structural)]
pub enum BusOp {
    /// Takes over the serial pins.
    SpiBegin,
    /// Sets the order in which the bits of a byte go out.
    SpiSetBitOrder { order: u8 },
    /// Sets clock polarity and phase.
    SpiSetDataMode { mode: u8 },
    /// Sets the divisor of the serial clock.
    SpiSetClockDivider { divider: u16 },
    /// Sets the direction of a pin.
    GpioFsel { pin: u8, mode: u8 },
    /// Drives a pin to a level.
    GpioWrite { pin: u8, on: u8 },
    /// Waits for a number of milliseconds.
    Delay { millis: u16 },
    /// Sends one byte; one byte is received in exchange.
    SpiTransfer { value: u8 },
    /// Reads a pin again and again until it is high. Whoever performs the
    /// operation lets the protocol driver judge each level that was read.
    WaitHigh { pin: u8 },
}

/// Why the bus transport could not be brought up.
#[derive(Clone, Copy, Debug, PartialEq, Eq, Structural)]
pub enum BCMError {
    InitFailed,
}

impl BCMError {
    /// The error in words.
    pub fn message(&self) -> (text: String)
        ensures
            text@ == "BCM init failed."@,
    {
        "BCM init failed.".to_owned()
    }
}

/// The bytes that performing `ops` hands back: one for each transfer.
pub open spec fn reply_count(ops: Seq<BusOp>) -> nat
    decreases ops.len(),
{
    if ops.len() == 0 {
        0
    } else {
        reply_count(ops.drop_last()) + if ops.last() is SpiTransfer {
            1nat
        } else {
            0nat
        }
    }
}

/// Performing one sequence of operations after another hands back the
/// bytes of the first followed by the bytes of the second.
pub proof fn lemma_reply_count_concat(first: Seq<BusOp>, second: Seq<BusOp>)
    ensures
        reply_count(first + second) == reply_count(first) + reply_count(second),
    decreases second.len(),
{
    if second.len() == 0 {
        assert(first + second =~= first);
    } else {
        lemma_reply_count_concat(first, second.drop_last());
        assert((first + second).drop_last() =~= first + second.drop_last());
    }
}

/// Operations none of which is a transfer hand back nothing.
pub proof fn lemma_reply_count_none(ops: Seq<BusOp>)
    requires
        forall|i: int| 0 <= i < ops.len() ==> !(#[trigger] ops[i] is SpiTransfer),
    ensures
        reply_count(ops) == 0,
    decreases ops.len(),
{
    if ops.len() > 0 {
        assert forall|i: int| 0 <= i < ops.drop_last().len() implies !(
        #[trigger] ops.drop_last()[i] is SpiTransfer) by {
            assert(ops.drop_last()[i] == ops[i]);
        }
        lemma_reply_count_none(ops.drop_last());
    }
}

/// A single operation hands back one byte where it is a transfer, and none
/// where it is not.
pub proof fn lemma_reply_count_single(op: BusOp)
    ensures
        reply_count(seq![op]) == if op is SpiTransfer {
            1nat
        } else {
            0nat
        },
{
    assert(seq![op].drop_last() =~= Seq::<BusOp>::empty());
    assert(reply_count(Seq::<BusOp>::empty()) == 0);
}

/// Judges the status with which the hardware-access library answered its
/// initialisation: zero is failure, anything else is handed on.
pub fn bcm2835_init(status: u8) -> (result: Result<u8, BCMError>)
    ensures
        status == 0 ==> result == Err::<u8, BCMError>(BCMError::InitFailed),
        status != 0 ==> result == Ok::<u8, BCMError>(status),
{
    if status == 0 {
        return Err(BCMError::InitFailed);
    }
    Ok(status)
}

} // verus!
