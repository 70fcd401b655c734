//! UDS diagnostic trouble code status bits.

use vstd::prelude::*;

verus! {

/// Standard UDS diagnostic status bits for a trouble code.
#[derive(Clone, Copy, Debug, Default, PartialEq, Eq)]
pub struct DtcStatus {
    /// The DTC test is failed now.
    pub test_failed: bool,
    /// The DTC test failed during the current operation cycle.
    pub test_failed_this_operation_cycle: bool,
    /// The DTC is pending confirmation.
    pub pending: bool,
    /// The DTC is confirmed.
    pub confirmed: bool,
    /// The DTC has not completed since the last clear operation.
    pub test_not_completed_since_clear: bool,
    /// The DTC failed at least once since the last clear operation.
    pub test_failed_since_clear: bool,
    /// The DTC test has not completed in the current operation cycle.
    pub test_not_completed_this_operation_cycle: bool,
    /// The warning indicator is requested.
    pub warning_indicator: bool,
}

/// Whether bit `i` of `byte` is set.
pub open spec fn bit_set(byte: u8, i: u8) -> bool {
    (byte >> i) & 1u8 == 1u8
}

/// The status a byte decodes to: bit `i` of the byte gives field `i`.
pub open spec fn spec_status_from_byte(byte: u8) -> DtcStatus {
    DtcStatus {
        test_failed: bit_set(byte, 0),
        test_failed_this_operation_cycle: bit_set(byte, 1),
        pending: bit_set(byte, 2),
        confirmed: bit_set(byte, 3),
        test_not_completed_since_clear: bit_set(byte, 4),
        test_failed_since_clear: bit_set(byte, 5),
        test_not_completed_this_operation_cycle: bit_set(byte, 6),
        warning_indicator: bit_set(byte, 7),
    }
}

/// One bit as a number.
pub open spec fn bit(b: bool) -> int {
    if b { 1 } else { 0 }
}

/// The byte a status encodes to: field `i` gives bit `i`.
pub open spec fn spec_status_to_byte(s: DtcStatus) -> int {
    bit(s.test_failed) + 2 * bit(s.test_failed_this_operation_cycle) + 4 * bit(s.pending) + 8
        * bit(s.confirmed) + 16 * bit(s.test_not_completed_since_clear) + 32 * bit(
        s.test_failed_since_clear,
    ) + 64 * bit(s.test_not_completed_this_operation_cycle) + 128 * bit(s.warning_indicator)
}

impl DtcStatus {
    /// Decodes a UDS DTC status byte.
    pub fn from_byte(byte: u8) -> (r: Self)
        ensures
            r == spec_status_from_byte(byte),
    {
        assert(((byte & 0x01) != 0) == bit_set(byte, 0)) by (bit_vector);
        assert(((byte & 0x02) != 0) == bit_set(byte, 1)) by (bit_vector);
        assert(((byte & 0x04) != 0) == bit_set(byte, 2)) by (bit_vector);
        assert(((byte & 0x08) != 0) == bit_set(byte, 3)) by (bit_vector);
        assert(((byte & 0x10) != 0) == bit_set(byte, 4)) by (bit_vector);
        assert(((byte & 0x20) != 0) == bit_set(byte, 5)) by (bit_vector);
        assert(((byte & 0x40) != 0) == bit_set(byte, 6)) by (bit_vector);
        assert(((byte & 0x80) != 0) == bit_set(byte, 7)) by (bit_vector);
        DtcStatus {
            test_failed: byte & 0x01 != 0,
            test_failed_this_operation_cycle: byte & 0x02 != 0,
            pending: byte & 0x04 != 0,
            confirmed: byte & 0x08 != 0,
            test_not_completed_since_clear: byte & 0x10 != 0,
            test_failed_since_clear: byte & 0x20 != 0,
            test_not_completed_this_operation_cycle: byte & 0x40 != 0,
            warning_indicator: byte & 0x80 != 0,
        }
    }

    /// Encodes the status bits back to a UDS status byte.
    pub fn to_byte(self) -> (r: u8)
        ensures
            r == spec_status_to_byte(self),
    {
        let mut r: u8 = 0;
        if self.test_failed { r = r + 1; }
        if self.test_failed_this_operation_cycle { r = r + 2; }
        if self.pending { r = r + 4; }
        if self.confirmed { r = r + 8; }
        if self.test_not_completed_since_clear { r = r + 16; }
        if self.test_failed_since_clear { r = r + 32; }
        if self.test_not_completed_this_operation_cycle { r = r + 64; }
        if self.warning_indicator { r = r + 128; }
        r
    }
}

/// Decoding a status byte and encoding the result gives the byte back.
pub proof fn lemma_status_byte_round_trip(byte: u8)
    ensures
        spec_status_to_byte(spec_status_from_byte(byte)) == byte as int,
{
    let b = byte;
    assert(b == ((b >> 0u8) & 1u8) + 2 * ((b >> 1u8) & 1u8) + 4 * ((b >> 2u8) & 1u8) + 8 * ((b
        >> 3u8) & 1u8) + 16 * ((b >> 4u8) & 1u8) + 32 * ((b >> 5u8) & 1u8) + 64 * ((b >> 6u8)
        & 1u8) + 128 * ((b >> 7u8) & 1u8)) by (bit_vector);
    assert(forall|i: u8| i < 8 ==> ((b >> i) & 1u8 == 1u8 || (b >> i) & 1u8 == 0u8)) by (bit_vector);
}

/// Encoding a status and decoding the byte gives the status back.
pub proof fn lemma_status_round_trip(s: DtcStatus)
    ensures
        spec_status_to_byte(s) <= 255,
        spec_status_from_byte(spec_status_to_byte(s) as u8) == s,
{
    let b0 = s.test_failed;
    let b1 = s.test_failed_this_operation_cycle;
    let b2 = s.pending;
    let b3 = s.confirmed;
    let b4 = s.test_not_completed_since_clear;
    let b5 = s.test_failed_since_clear;
    let b6 = s.test_not_completed_this_operation_cycle;
    let b7 = s.warning_indicator;
    let v: u8 = spec_status_to_byte(s) as u8;
    let x0: u8 = if b0 { 1 } else { 0 };
    let x1: u8 = if b1 { 1 } else { 0 };
    let x2: u8 = if b2 { 1 } else { 0 };
    let x3: u8 = if b3 { 1 } else { 0 };
    let x4: u8 = if b4 { 1 } else { 0 };
    let x5: u8 = if b5 { 1 } else { 0 };
    let x6: u8 = if b6 { 1 } else { 0 };
    let x7: u8 = if b7 { 1 } else { 0 };
    assert(v == x0 + 2 * x1 + 4 * x2 + 8 * x3 + 16 * x4 + 32 * x5 + 64 * x6 + 128 * x7);
    assert(x0 <= 1 && x1 <= 1 && x2 <= 1 && x3 <= 1 && x4 <= 1 && x5 <= 1 && x6 <= 1 && x7 <= 1
        && v == x0 + 2 * x1 + 4 * x2 + 8 * x3 + 16 * x4 + 32 * x5 + 64 * x6 + 128 * x7 ==> (
    ((v >> 0u8) & 1u8 == 1u8) == (x0 == 1) && ((v >> 1u8) & 1u8 == 1u8) == (x1 == 1) && ((v
        >> 2u8) & 1u8 == 1u8) == (x2 == 1) && ((v >> 3u8) & 1u8 == 1u8) == (x3 == 1) && ((v
        >> 4u8) & 1u8 == 1u8) == (x4 == 1) && ((v >> 5u8) & 1u8 == 1u8) == (x5 == 1) && ((v
        >> 6u8) & 1u8 == 1u8) == (x6 == 1) && ((v >> 7u8) & 1u8 == 1u8) == (x7 == 1)))
        by (bit_vector);
}

/// Decodes a UDS DTC status byte into the automotive status record.
pub fn decode_dtc_status(byte: u8) -> (r: DtcStatus)
    ensures
        r == spec_status_from_byte(byte),
{
    DtcStatus::from_byte(byte)
}

} // verus!
