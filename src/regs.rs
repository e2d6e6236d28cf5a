//! The register map of the controller and the bit-level meaning of its words.

use vstd::prelude::*;

verus! {

/// Bytes of address space covered by the seven 32-bit registers.
pub const REG_SPAN: usize = 28;

/// Transmit data: write the byte to send in bits 0-7; bit 31 reads as "FIFO full".
pub const REG_TXDATA: usize = 0;

/// Receive data: bits 0-7 hold the received byte; bit 31 reads as "FIFO empty".
pub const REG_RXDATA: usize = 4;

/// Transmit control: bit 0 enables transmission, bits 16 and up hold the watermark.
pub const REG_TXCTRL: usize = 8;

/// Receive control: bit 0 enables reception, bits 16 and up hold the watermark.
pub const REG_RXCTRL: usize = 12;

/// Interrupt enable: bit 0 for the transmit watermark, bit 1 for the receive watermark.
pub const REG_IE: usize = 16;

/// Interrupt pending flags; this driver never touches them.
pub const REG_IP: usize = 20;

/// Baud-rate divisor.
pub const REG_DIV: usize = 24;

/// Transmit watermark interrupt enable (IE bit 0).
pub const IE_TXWM: u32 = 0x1;

/// Receive watermark interrupt enable (IE bit 1).
pub const IE_RXWM: u32 = 0x2;

/// Transmit enable (TXCTRL bit 0).
pub const TXCTRL_TXEN: u32 = 0x1;

/// Transmit watermark level 1, in TXCTRL bits 16 and up.
pub const TXCTRL_TXCNT: u32 = 0x0001_0000;

/// Receive enable (RXCTRL bit 0).
pub const RXCTRL_RXEN: u32 = 0x1;

/// Receive watermark level 6, in RXCTRL bits 16 and up.
pub const RXCTRL_RXCNT: u32 = 0x0006_0000;

/// Transmit FIFO full (TXDATA bit 31).
pub const TXDATA_FULL: u32 = 0x8000_0000;

/// Receive FIFO empty (RXDATA bit 31).
pub const RXDATA_EMPTY: u32 = 0x8000_0000;

/// Bit `i` of the word `w`.
pub open spec fn bit(w: u32, i: u32) -> bool {
    (w >> i) & 1 == 1
}

/// Bit 31 of `w`, where TXDATA and RXDATA carry their FIFO status flag:
/// it is set exactly when `w` is at least 2^31.
pub open spec fn status_flag(w: u32) -> bool {
    w >= 0x8000_0000
}

/// A TXCTRL or RXCTRL word with the enable bit (bit 0) set and the FIFO
/// watermark `level` in bits 16 and up.
pub open spec fn enabled_with_watermark(level: nat) -> nat {
    level * 0x1_0000 + 1
}

/// The interrupt-enable word `ie` with the bits of `mask` set when `enable`
/// holds, and cleared otherwise.
pub open spec fn ie_with(ie: u32, mask: u32, enable: bool) -> u32 {
    if enable {
        ie | mask
    } else {
        ie & !mask
    }
}

/// Toggling one watermark interrupt sets or clears exactly its own IE bit
/// and keeps every other bit of the word.
pub proof fn lemma_irq_toggle_touches_one_bit(ie: u32, enable: bool)
    ensures
        bit(ie_with(ie, IE_TXWM, enable), 0) == enable,
        ie_with(ie, IE_TXWM, enable) & !IE_TXWM == ie & !IE_TXWM,
        bit(ie_with(ie, IE_RXWM, enable), 1) == enable,
        ie_with(ie, IE_RXWM, enable) & !IE_RXWM == ie & !IE_RXWM,
{
    assert(bit(ie | 1, 0) && !bit(ie & !1u32, 0)) by (bit_vector);
    assert((ie | 1) & !1u32 == ie & !1u32) by (bit_vector);
    assert((ie & !1u32) & !1u32 == ie & !1u32) by (bit_vector);
    assert(bit(ie | 2, 1) && !bit(ie & !2u32, 1)) by (bit_vector);
    assert((ie | 2) & !2u32 == ie & !2u32) by (bit_vector);
    assert((ie & !2u32) & !2u32 == ie & !2u32) by (bit_vector);
}

/// Enabling (or disabling) an interrupt twice in a row leaves IE as doing it once.
pub proof fn lemma_irq_toggle_idempotent(ie: u32, mask: u32, enable: bool)
    ensures
        ie_with(ie_with(ie, mask, enable), mask, enable) == ie_with(ie, mask, enable),
{
    assert((ie | mask) | mask == ie | mask) by (bit_vector);
    assert((ie & !mask) & !mask == ie & !mask) by (bit_vector);
}

/// Disabling an interrupt that is already disabled, or enabling one that is
/// already enabled, leaves IE unchanged.
pub proof fn lemma_irq_toggle_no_change(ie: u32, mask: u32)
    ensures
        ie & mask == 0 ==> ie_with(ie, mask, false) == ie,
        ie & mask == mask ==> ie_with(ie, mask, true) == ie,
{
    assert(ie & mask == 0 ==> ie & !mask == ie) by (bit_vector);
    assert(ie & mask == mask ==> ie | mask == ie) by (bit_vector);
}

/// The transmit and receive interrupt enables are independent: toggling one
/// keeps the other's bit, and the order of the two toggles does not matter.
pub proof fn lemma_irq_toggles_independent(ie: u32, tx: bool, rx: bool)
    ensures
        ie_with(ie_with(ie, IE_TXWM, tx), IE_RXWM, rx) == ie_with(
            ie_with(ie, IE_RXWM, rx),
            IE_TXWM,
            tx,
        ),
        bit(ie_with(ie_with(ie, IE_TXWM, tx), IE_RXWM, rx), 0) == tx,
        bit(ie_with(ie_with(ie, IE_TXWM, tx), IE_RXWM, rx), 1) == rx,
        ie_with(ie_with(ie, IE_TXWM, tx), IE_RXWM, rx) & !3u32 == ie & !3u32,
{
    assert(((ie | 1) | 2) == ((ie | 2) | 1)) by (bit_vector);
    assert(((ie | 1) & !2u32) == ((ie & !2u32) | 1)) by (bit_vector);
    assert(((ie & !1u32) | 2) == ((ie | 2) & !1u32)) by (bit_vector);
    assert(((ie & !1u32) & !2u32) == ((ie & !2u32) & !1u32)) by (bit_vector);
    assert(bit((ie | 1) | 2, 0) && bit((ie | 1) | 2, 1)) by (bit_vector);
    assert(((ie | 1) | 2) & !3u32 == ie & !3u32) by (bit_vector);
    assert(bit((ie | 1) & !2u32, 0) && !bit((ie | 1) & !2u32, 1)) by (bit_vector);
    assert(((ie | 1) & !2u32) & !3u32 == ie & !3u32) by (bit_vector);
    assert(!bit((ie & !1u32) | 2, 0) && bit((ie & !1u32) | 2, 1)) by (bit_vector);
    assert(((ie & !1u32) | 2) & !3u32 == ie & !3u32) by (bit_vector);
    assert(!bit((ie & !1u32) & !2u32, 0) && !bit((ie & !1u32) & !2u32, 1)) by (bit_vector);
    assert(((ie & !1u32) & !2u32) & !3u32 == ie & !3u32) by (bit_vector);
}

} // verus!
