//! RAIL radio support logic.
//!
//! The radio is driven through the RAIL library, which the caller invokes; this
//! module keeps the event word shared with the RAIL event callback and turns RAIL
//! status codes into results.
use vstd::prelude::*;

verus! {

/// RAIL event bit: packet transmitted successfully.
pub const EVENT_TX_PACKET_SENT: u32 = 1 << 24;

/// RAIL event bit: transmit aborted.
pub const EVENT_TX_ABORTED: u32 = 1 << 26;

/// RAIL event bit: TX FIFO underflow.
pub const EVENT_TX_UNDERFLOW: u32 = 1 << 30;

/// The IEEE 802.15.4 channel of the legacy helpers.
pub const DEFAULT_CHANNEL: u16 = 11;

/// A RAIL status as a result: 0 is success, any other value is the error.
pub open spec fn spec_status(status: u32) -> Result<(), u32> {
    if status == 0 {
        Ok(())
    } else {
        Err(status)
    }
}

/// Turn a RAIL status into a result.
pub fn status_result(status: u32) -> (r: Result<(), u32>)
    ensures
        r == spec_status(status),
{
    if status == 0 {
        Ok(())
    } else {
        Err(status)
    }
}

/// Initialise the platform once: returns whether this call must run the platform
/// initialisation (the first call), and marks it done.
pub fn init(initialized: &mut bool) -> (run: bool)
    ensures
        *final(initialized),
        run == !*old(initialized),
{
    let was = *initialized;
    *initialized = true;
    !was
}

/// Record events reported by the RAIL callback (ORed into the event word).
pub fn record_events(events: &mut u32, new: u32)
    ensures
        *final(events) == *old(events) | new,
{
    *events = *events | new;
}

/// Take and clear the accumulated events.
pub fn take_events(events: &mut u32) -> (r: u32)
    ensures
        r == *old(events),
        *final(events) == 0,
{
    let r = *events;
    *events = 0;
    r
}

/// The length handed to RAIL for a packet: the buffer length truncated to 16 bits.
pub fn tx_length(data: &[u8]) -> (r: u16)
    ensures
        r == (data@.len() as u16),
{
    data.len() as u16
}

/// Transmit a packet: `send` writes the TX FIFO and starts the transmit on a channel
/// with a length, returning the RAIL status.
pub fn tx_packet<F: Fn(u16, &[u8], u16) -> u32>(channel: u16, data: &[u8], send: F) -> (r: Result<(), u32>)
    requires
        call_requires(send, (channel, data, data@.len() as u16)),
    ensures
        exists|s: u32| call_ensures(send, (channel, data, data@.len() as u16), s) && r == spec_status(s),
{
    let len = tx_length(data);
    let s = send(channel, data, len);
    status_result(s)
}

/// Transmit a packet on channel 11 (legacy helper).
pub fn write_tx_fifo<F: Fn(u16, &[u8], u16) -> u32>(data: &[u8], send: F) -> (r: Result<(), u32>)
    requires
        call_requires(send, (DEFAULT_CHANNEL, data, data@.len() as u16)),
    ensures
        exists|s: u32| call_ensures(send, (DEFAULT_CHANNEL, data, data@.len() as u16), s) && r == spec_status(s),
{
    tx_packet(DEFAULT_CHANNEL, data, send)
}

/// Events recorded one after the other into a cleared word accumulate as their
/// union, and every event recorded is still present in it.
pub proof fn lemma_events_roundtrip(a: u32, b: u32)
    ensures
        (0u32 | a) | b == a | b,
        (a | b) & a == a,
{
    assert((0u32 | a) | b == a | b && (a | b) & a == a) by (bit_vector);
}

} // verus!
