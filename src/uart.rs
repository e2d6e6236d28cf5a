//! The controller handle, the register writes it asks for, and the bounded
//! polls that move a byte in or out.
//!
//! Each operation is a decision on values: the caller reads the register the
//! operation names, hands the word over, and stores the word the operation
//! hands back. A transfer is a poll: the caller reads the data register and
//! passes the word to `send_byte` or `read_byte` until it returns `Some`.
//! Within `POLL_LIMIT` reads it always does.

use vstd::prelude::*;
use crate::regs::{
    enabled_with_watermark, ie_with, status_flag, IE_RXWM, IE_TXWM, REG_DIV, REG_IE, REG_RXCTRL,
    REG_SPAN, REG_TXCTRL, REG_TXDATA, RXCTRL_RXCNT, RXCTRL_RXEN, RXDATA_EMPTY, TXCTRL_TXCNT,
    TXCTRL_TXEN, TXDATA_FULL,
};

verus! {

/// A transfer gives up after reading its FIFO status bit this many times.
pub const POLL_LIMIT: usize = 1000;

/// Why a transfer did not take place.
#[derive(Debug, Clone, Copy, PartialEq, Eq, Structural)]
pub enum Fault {
    /// The transmit FIFO stayed full for the whole poll budget; the byte was not sent.
    TxNotEmpty,
    /// No received byte turned up within the poll budget; none is returned.
    DataNotReady,
}

/// One 32-bit store of `value` at the address `addr`.
#[derive(Debug, Clone, Copy, PartialEq, Eq, Structural)]
pub struct RegWrite {
    pub addr: usize,
    pub value: u32,
}

/// Handle on one controller: the base address of its register block.
///
/// The caller guarantees that the block is mapped and owned by this handle
/// alone; dropping the handle leaves the hardware as it is.
#[derive(Debug)]
pub struct UART {
    base_addr: usize,
}

/// Progress of one transfer: how many status words it has read.
#[derive(Debug)]
pub struct Poll {
    reads: usize,
}

impl View for UART {
    type V = nat;

    /// The base address of the register block.
    closed spec fn view(&self) -> nat {
        self.base_addr as nat
    }
}

impl View for Poll {
    type V = nat;

    /// The number of status words read so far.
    closed spec fn view(&self) -> nat {
        self.reads as nat
    }
}

/// The poll count after one more status read: it stops growing at the limit.
pub open spec fn next_reads(reads: nat) -> nat {
    if reads < POLL_LIMIT {
        reads + 1
    } else {
        reads
    }
}

/// What a receive decides on the RXDATA word `rxdata`, read after `reads`
/// earlier reads: the low byte when the empty bit is clear and the budget is
/// not spent, `DataNotReady` once the budget is spent, and `None` (read
/// again) otherwise.
pub open spec fn receive_step(reads: nat, rxdata: u32) -> Option<Result<u8, Fault>> {
    if reads < POLL_LIMIT && !status_flag(rxdata) {
        Some(Ok((rxdata % 256) as u8))
    } else if reads + 1 >= POLL_LIMIT {
        Some(Err(Fault::DataNotReady))
    } else {
        None
    }
}

impl Poll {
    /// A transfer that has read nothing yet.
    pub fn new() -> (p: Poll)
        ensures
            p@ == 0,
    {
        Poll { reads: 0 }
    }

    /// How many status words the transfer has read.
    pub fn reads(&self) -> (n: usize)
        ensures
            n == self@,
    {
        self.reads
    }
}

impl UART {
    /// The block lies wholly within the address space.
    #[verifier::type_invariant]
    spec fn inv(&self) -> bool {
        self.base_addr + REG_SPAN <= usize::MAX + 1
    }

    /// The store of `value` into the register at `offset`.
    pub open spec fn write_of(&self, offset: usize, value: u32) -> RegWrite {
        RegWrite { addr: (self@ + offset) as usize, value }
    }

    /// What a send of `to_send` decides on the TXDATA word `txdata`, read
    /// after `reads` earlier reads: store the byte into TXDATA when the full
    /// bit is clear and the budget is not spent, give up with `TxNotEmpty`
    /// once the budget is spent, and otherwise read again (`None`).
    pub open spec fn send_step(&self, reads: nat, to_send: u8, txdata: u32) -> Option<
        Result<RegWrite, Fault>,
    > {
        if reads < POLL_LIMIT && !status_flag(txdata) {
            Some(Ok(self.write_of(REG_TXDATA, to_send as u32)))
        } else if reads + 1 >= POLL_LIMIT {
            Some(Err(Fault::TxNotEmpty))
        } else {
            None
        }
    }

    /// A handle on the block at `base_addr`.
    ///
    /// The result is a `Result` so that it reads like the other drivers of
    /// its kind, but nothing is checked: it is always `Ok`. The block must
    /// fit below the top of the address space. The handle alone configures
    /// nothing; `init_writes` gives the stores that set the controller up.
    pub fn new(base_addr: usize) -> (r: Result<UART, Fault>)
        requires
            base_addr + REG_SPAN <= usize::MAX + 1,
        ensures
            r matches Ok(u) && u@ == base_addr,
    {
        Ok(UART { base_addr })
    }

    /// The stores that set the controller up, in order: transmit enabled with
    /// watermark 1, then receive enabled with watermark 6. No other register
    /// is touched; the baud rate is left to `set_baud`.
    pub fn init_writes(&self) -> (w: Vec<RegWrite>)
        ensures
            w.len() == 2,
            w[0] == self.write_of(REG_TXCTRL, enabled_with_watermark(1) as u32),
            w[1] == self.write_of(REG_RXCTRL, enabled_with_watermark(6) as u32),
    {
        proof {
            use_type_invariant(self);
        }
        assert(TXCTRL_TXCNT | TXCTRL_TXEN == 0x0001_0001u32) by (bit_vector);
        assert(RXCTRL_RXCNT | RXCTRL_RXEN == 0x0006_0001u32) by (bit_vector);
        let mut w: Vec<RegWrite> = Vec::new();
        w.push(RegWrite { addr: self.base_addr + REG_TXCTRL, value: TXCTRL_TXCNT | TXCTRL_TXEN });
        w.push(RegWrite { addr: self.base_addr + REG_RXCTRL, value: RXCTRL_RXCNT | RXCTRL_RXEN });
        w
    }

    /// The address of the register at `offset`.
    pub fn reg_addr(&self, offset: usize) -> (a: usize)
        requires
            offset < REG_SPAN,
        ensures
            a == self@ + offset,
    {
        proof {
            use_type_invariant(self);
        }
        self.base_addr + offset
    }

    /// The store that enables (or disables) the transmit watermark interrupt,
    /// given the IE word `ie` just read: bit 0 set or cleared, the rest kept.
    pub fn enable_tx_watermark_irq(&self, ie: u32, enable: bool) -> (w: RegWrite)
        ensures
            w == self.write_of(REG_IE, ie_with(ie, IE_TXWM, enable)),
    {
        proof {
            use_type_invariant(self);
        }
        let flags = if enable {
            ie | IE_TXWM
        } else {
            ie & !IE_TXWM
        };
        RegWrite { addr: self.base_addr + REG_IE, value: flags }
    }

    /// The store that enables (or disables) the receive watermark interrupt,
    /// given the IE word `ie` just read: bit 1 set or cleared, the rest kept.
    pub fn enable_rx_watermark_irq(&self, ie: u32, enable: bool) -> (w: RegWrite)
        ensures
            w == self.write_of(REG_IE, ie_with(ie, IE_RXWM, enable)),
    {
        proof {
            use_type_invariant(self);
        }
        let flags = if enable {
            ie | IE_RXWM
        } else {
            ie & !IE_RXWM
        };
        RegWrite { addr: self.base_addr + REG_IE, value: flags }
    }

    /// The store of the baud divisor for `baud` Hz on a bus clocked at
    /// `bus_freq` Hz: their quotient, truncated. A zero baud rate has no
    /// divisor and is the caller's to rule out.
    pub fn set_baud(&self, baud: u32, bus_freq: u32) -> (w: RegWrite)
        requires
            baud > 0,
        ensures
            w == self.write_of(REG_DIV, (bus_freq / baud) as u32),
    {
        proof {
            use_type_invariant(self);
        }
        RegWrite { addr: self.base_addr + REG_DIV, value: bus_freq / baud }
    }

    /// The size in bytes of the register block, whatever its state.
    pub fn size(&self) -> (n: usize)
        ensures
            n == REG_SPAN,
    {
        REG_SPAN
    }

    /// Whether the TXDATA word `txdata` says the transmit FIFO is full.
    pub fn is_transmit_full(txdata: u32) -> (r: bool)
        ensures
            r == status_flag(txdata),
    {
        assert((txdata & 0x8000_0000u32 != 0) == (txdata >= 0x8000_0000u32)) by (bit_vector);
        txdata & TXDATA_FULL != 0
    }

    /// Whether the RXDATA word `rxdata` says the receive FIFO is empty.
    pub fn is_data_empty(rxdata: u32) -> (r: bool)
        ensures
            r == status_flag(rxdata),
    {
        assert((rxdata & 0x8000_0000u32 != 0) == (rxdata >= 0x8000_0000u32)) by (bit_vector);
        rxdata & RXDATA_EMPTY != 0
    }

    /// One step of sending `to_send`: `txdata` is the word just read from
    /// TXDATA. `Some(Ok(w))` asks the caller to store `w` and report
    /// success; `Some(Err(TxNotEmpty))` ends the send with nothing stored;
    /// `None` asks for another read.
    pub fn send_byte(&self, poll: &mut Poll, to_send: u8, txdata: u32) -> (r: Option<
        Result<RegWrite, Fault>,
    >)
        ensures
            r == self.send_step(old(poll)@, to_send, txdata),
            final(poll)@ == next_reads(old(poll)@),
    {
        proof {
            use_type_invariant(self);
        }
        if poll.reads >= POLL_LIMIT {
            return Some(Err(Fault::TxNotEmpty));
        }
        poll.reads = poll.reads + 1;
        if !Self::is_transmit_full(txdata) {
            Some(Ok(RegWrite { addr: self.base_addr + REG_TXDATA, value: to_send as u32 }))
        } else if poll.reads >= POLL_LIMIT {
            Some(Err(Fault::TxNotEmpty))
        } else {
            None
        }
    }

    /// One step of receiving: `rxdata` is the word just read from RXDATA.
    /// The received byte comes from that same word, never from a second
    /// read. `None` asks for another read.
    pub fn read_byte(&self, poll: &mut Poll, rxdata: u32) -> (r: Option<Result<u8, Fault>>)
        ensures
            r == receive_step(old(poll)@, rxdata),
            final(poll)@ == next_reads(old(poll)@),
    {
        if poll.reads >= POLL_LIMIT {
            return Some(Err(Fault::DataNotReady));
        }
        poll.reads = poll.reads + 1;
        if !Self::is_data_empty(rxdata) {
            assert(rxdata & 0xffu32 == rxdata % 256) by (bit_vector);
            Some(Ok((rxdata & 0xff) as u8))
        } else if poll.reads >= POLL_LIMIT {
            Some(Err(Fault::DataNotReady))
        } else {
            None
        }
    }
}

/// A send whose every TXDATA read finds the FIFO full reads exactly
/// `POLL_LIMIT` words: it asks for another read after each of the first
/// `POLL_LIMIT - 1` and gives up with `TxNotEmpty` on the last, and at no
/// point does it store the byte.
pub proof fn lemma_send_gives_up_when_always_full(uart: &UART, to_send: u8, words: Seq<u32>)
    requires
        words.len() == POLL_LIMIT,
        forall|k: int| 0 <= k < words.len() ==> status_flag(#[trigger] words[k]),
    ensures
        forall|k: int|
            0 <= k < POLL_LIMIT - 1 ==> uart.send_step(k as nat, to_send, #[trigger] words[k])
                is None,
        uart.send_step((POLL_LIMIT - 1) as nat, to_send, words[POLL_LIMIT - 1]) == Some(
            Err::<RegWrite, Fault>(Fault::TxNotEmpty),
        ),
{
}

/// A receive whose every RXDATA read finds the FIFO empty reads exactly
/// `POLL_LIMIT` words: it asks for another read after each of the first
/// `POLL_LIMIT - 1` and gives up with `DataNotReady` on the last, and at no
/// point does it return a byte.
pub proof fn lemma_receive_gives_up_when_always_empty(words: Seq<u32>)
    requires
        words.len() == POLL_LIMIT,
        forall|k: int| 0 <= k < words.len() ==> status_flag(#[trigger] words[k]),
    ensures
        forall|k: int|
            0 <= k < POLL_LIMIT - 1 ==> receive_step(k as nat, #[trigger] words[k]) is None,
        receive_step((POLL_LIMIT - 1) as nat, words[POLL_LIMIT - 1]) == Some(
            Err::<u8, Fault>(Fault::DataNotReady),
        ),
{
}

/// No transfer waits forever: whatever the status words, a send or a
/// receive reaches its outcome by its `POLL_LIMIT`-th read.
pub proof fn lemma_transfer_ends_within_limit(uart: &UART, to_send: u8, txdata: u32, rxdata: u32)
    ensures
        uart.send_step((POLL_LIMIT - 1) as nat, to_send, txdata) is Some,
        receive_step((POLL_LIMIT - 1) as nat, rxdata) is Some,
{
}

/// A status word with its flag bit clear ends the transfer at once and
/// successfully, on any read within the budget: a send stores exactly the
/// byte into TXDATA, a receive returns exactly the word's low byte.
pub proof fn lemma_transfer_succeeds_when_ready(uart: &UART, reads: nat, to_send: u8, word: u32)
    requires
        reads < POLL_LIMIT,
        !status_flag(word),
    ensures
        uart.send_step(reads, to_send, word) == Some(
            Ok::<RegWrite, Fault>(uart.write_of(REG_TXDATA, to_send as u32)),
        ),
        receive_step(reads, word) == Some(Ok::<u8, Fault>((word % 256) as u8)),
{
}

} // verus!
