//! UDS and OBD-II byte frames: decoding, encoding, and the names the codec
//! attaches to identifiers, modes and trouble codes.

use vstd::prelude::*;

use crate::kernel::{CodecId, Error, Result};
use crate::numtext::{digit, hex_upper, hex_upper_chars, zero_pad};
use crate::text::string_of;

verus! {

/// A raw DTC plus its status byte.
#[derive(Clone, Copy, Debug, PartialEq, Eq)]
pub struct DtcFrame {
    /// Three raw UDS DTC bytes.
    pub raw_code: [u8; 3],
    /// Standard UDS DTC status byte.
    pub status: u8,
}

/// A decoded diagnostic frame supported by the UDS codec.
#[derive(Clone, Debug, PartialEq, Eq)]
pub enum UdsFrame {
    /// UDS ReadDataByIdentifier request, service `0x22`.
    ReadDataByIdentifierRequest {
        /// Data identifier.
        did: u16,
    },
    /// UDS positive ReadDataByIdentifier response, service `0x62`.
    ReadDataByIdentifierResponse {
        /// Data identifier.
        did: u16,
        /// Opaque payload bytes.
        data: Vec<u8>,
    },
    /// OBD-II mode request with an optional PID.
    ObdModeRequest {
        /// OBD-II mode byte.
        mode: u8,
        /// Optional PID byte.
        pid: Option<u8>,
    },
    /// UDS ReadDTCInformation request, service `0x19`.
    ReadDtcRequest {
        /// Subfunction byte.
        subfunction: u8,
        /// Optional status mask byte.
        status_mask: Option<u8>,
    },
    /// UDS positive ReadDTCInformation response, service `0x59`.
    ReadDtcResponse {
        /// Response subfunction byte.
        subfunction: u8,
        /// Status availability mask byte.
        status_availability_mask: u8,
        /// Decoded DTC entries.
        dtcs: Vec<DtcFrame>,
    },
}

/// The mathematical content of a DTC entry.
pub struct DtcFrameView {
    /// The three code bytes.
    pub raw_code: Seq<u8>,
    /// The status byte.
    pub status: u8,
}

/// The mathematical content of a frame.
pub enum UdsFrameView {
    /// Service `0x22`.
    ReadDataByIdentifierRequest { did: u16 },
    /// Service `0x62`.
    ReadDataByIdentifierResponse { did: u16, data: Seq<u8> },
    /// OBD-II modes `0x01`-`0x0A`.
    ObdModeRequest { mode: u8, pid: Option<u8> },
    /// Service `0x19`.
    ReadDtcRequest { subfunction: u8, status_mask: Option<u8> },
    /// Service `0x59`.
    ReadDtcResponse { subfunction: u8, status_availability_mask: u8, dtcs: Seq<DtcFrameView> },
}

impl View for DtcFrame {
    type V = DtcFrameView;

    open spec fn view(&self) -> DtcFrameView {
        DtcFrameView { raw_code: self.raw_code@, status: self.status }
    }
}

impl View for UdsFrame {
    type V = UdsFrameView;

    open spec fn view(&self) -> UdsFrameView {
        match *self {
            UdsFrame::ReadDataByIdentifierRequest { did } => UdsFrameView::ReadDataByIdentifierRequest {
                did,
            },
            UdsFrame::ReadDataByIdentifierResponse { did, data } => UdsFrameView::ReadDataByIdentifierResponse {
                did,
                data: data@,
            },
            UdsFrame::ObdModeRequest { mode, pid } => UdsFrameView::ObdModeRequest { mode, pid },
            UdsFrame::ReadDtcRequest { subfunction, status_mask } => UdsFrameView::ReadDtcRequest {
                subfunction,
                status_mask,
            },
            UdsFrame::ReadDtcResponse { subfunction, status_availability_mask, dtcs } => UdsFrameView::ReadDtcResponse {
                subfunction,
                status_availability_mask,
                dtcs: dtcs@.map_values(|d: DtcFrame| d@),
            },
        }
    }
}

/// Whether `service` is an OBD-II mode byte (`0x01`-`0x0A`).
pub open spec fn spec_is_obd_mode(service: u8) -> bool {
    0x01 <= service <= 0x0A
}

/// The two big-endian bytes of a data identifier.
pub open spec fn be_bytes(did: u16) -> Seq<u8> {
    seq![(did / 256) as u8, (did % 256) as u8]
}

/// A data identifier read from two big-endian bytes.
pub open spec fn be_value(high: u8, low: u8) -> u16 {
    (high * 256 + low) as u16
}

/// The four bytes of each DTC entry, in order.
pub open spec fn dtc_bytes(dtcs: Seq<DtcFrameView>) -> Seq<u8>
    decreases dtcs.len(),
{
    if dtcs.len() == 0 {
        seq![]
    } else {
        dtc_bytes(dtcs.drop_last()) + dtcs.last().raw_code + seq![dtcs.last().status]
    }
}

/// The bytes a frame encodes to.
pub open spec fn spec_encode(f: UdsFrameView) -> Seq<u8> {
    match f {
        UdsFrameView::ReadDataByIdentifierRequest { did } => seq![0x22u8] + be_bytes(did),
        UdsFrameView::ReadDataByIdentifierResponse { did, data } => seq![0x62u8] + be_bytes(did) + data,
        UdsFrameView::ObdModeRequest { mode, pid } => match pid {
            Some(p) => seq![mode, p],
            None => seq![mode],
        },
        UdsFrameView::ReadDtcRequest { subfunction, status_mask } => match status_mask {
            Some(m) => seq![0x19u8, subfunction, m],
            None => seq![0x19u8, subfunction],
        },
        UdsFrameView::ReadDtcResponse { subfunction, status_availability_mask, dtcs } => seq![
            0x59u8,
            subfunction,
            status_availability_mask,
        ] + dtc_bytes(dtcs),
    }
}

/// The DTC entries of a response payload: one per four bytes.
pub open spec fn dtc_entries(payload: Seq<u8>) -> Seq<DtcFrameView> {
    Seq::new(
        payload.len() / 4,
        |i: int|
            DtcFrameView {
                raw_code: payload.subrange(4 * i, 4 * i + 3),
                status: payload[4 * i + 3],
            },
    )
}

/// The frame that `bytes` decodes to, or `None` where the codec rejects them.
pub open spec fn spec_decode(bytes: Seq<u8>) -> Option<UdsFrameView> {
    if bytes.len() == 0 {
        None
    } else {
        let service = bytes[0];
        let rest = bytes.drop_first();
        if service == 0x22 {
            if rest.len() == 2 {
                Some(UdsFrameView::ReadDataByIdentifierRequest { did: be_value(rest[0], rest[1]) })
            } else {
                None
            }
        } else if service == 0x62 {
            if rest.len() >= 2 {
                Some(
                    UdsFrameView::ReadDataByIdentifierResponse {
                        did: be_value(rest[0], rest[1]),
                        data: rest.subrange(2, rest.len() as int),
                    },
                )
            } else {
                None
            }
        } else if service == 0x19 {
            if rest.len() == 1 {
                Some(UdsFrameView::ReadDtcRequest { subfunction: rest[0], status_mask: None })
            } else if rest.len() == 2 {
                Some(UdsFrameView::ReadDtcRequest { subfunction: rest[0], status_mask: Some(rest[1]) })
            } else {
                None
            }
        } else if service == 0x59 {
            if rest.len() >= 2 && (rest.len() - 2) % 4 == 0 {
                Some(
                    UdsFrameView::ReadDtcResponse {
                        subfunction: rest[0],
                        status_availability_mask: rest[1],
                        dtcs: dtc_entries(rest.subrange(2, rest.len() as int)),
                    },
                )
            } else {
                None
            }
        } else if spec_is_obd_mode(service) {
            if rest.len() == 0 {
                Some(UdsFrameView::ObdModeRequest { mode: service, pid: None })
            } else if rest.len() == 1 {
                Some(UdsFrameView::ObdModeRequest { mode: service, pid: Some(rest[0]) })
            } else {
                None
            }
        } else {
            None
        }
    }
}

/// The message the codec refuses `bytes` with, for bytes `spec_decode`
/// rejects: one message per service, and the service byte in hex for a
/// service it does not know.
pub open spec fn decode_message(bytes: Seq<u8>) -> Seq<char> {
    if bytes.len() == 0 {
        "empty UDS frame"@
    } else {
        let service = bytes[0];
        if service == 0x22 {
            "read-DID request must be exactly three bytes"@
        } else if service == 0x62 {
            "read-DID response must include a two-byte DID"@
        } else if service == 0x19 {
            "read-DTC request must be service, subfunction, and optional status mask"@
        } else if service == 0x59 {
            if bytes.len() < 3 {
                "read-DTC response must include subfunction and availability mask"@
            } else {
                "read-DTC response DTC payload must be four-byte entries"@
            }
        } else if spec_is_obd_mode(service) {
            "OBD-II mode request supports at most one PID byte"@
        } else {
            "unsupported UDS/OBD-II service 0x"@ + zero_pad(hex_upper(service as nat), 2)
        }
    }
}

/// Whether the frame is one the codec can produce: OBD-II requests carry a
/// mode byte `0x01`-`0x0A`, and every DTC entry has three code bytes.
pub open spec fn frame_well_formed(f: UdsFrameView) -> bool {
    match f {
        UdsFrameView::ObdModeRequest { mode, .. } => spec_is_obd_mode(mode),
        UdsFrameView::ReadDtcResponse { dtcs, .. } => forall|i: int| 0 <= i < dtcs.len() ==> (#[trigger] dtcs[i]).raw_code.len() == 3,
        _ => true,
    }
}

/// Whether `service` is an OBD-II mode byte.
pub fn is_obd_mode(service: u8) -> (r: bool)
    ensures
        r == spec_is_obd_mode(service),
{
    0x01 <= service && service <= 0x0A
}

/// Builds a codec error.
pub fn codec_error(codec: CodecId, message: &str) -> (e: Error)
    ensures
        e matches Error::CodecError { codec: c, message: m } && c == codec && m@ == message@,
{
    Error::CodecError { codec, message: message.to_owned() }
}

proof fn lemma_be(did: u16)
    ensures
        be_value((did / 256) as u8, (did % 256) as u8) == did,
{
}

/// Decodes supported diagnostic bytes into a frame.
pub fn decode_frame(codec: CodecId, bytes: &[u8]) -> (r: Result<UdsFrame>)
    ensures
        match spec_decode(bytes@) {
            Some(f) => r is Ok && r->Ok_0@ == f,
            None => r matches Err(Error::CodecError { codec: c, message: m }) && c == codec
                && m@ == decode_message(bytes@),
        },
{
    if bytes.len() == 0 {
        return Err(codec_error(codec, "empty UDS frame"));
    }
    let service = bytes[0];
    let n = bytes.len();
    proof {
        let rest = bytes@.drop_first();
        assert forall|k: int| 0 <= k < rest.len() implies rest[k] == bytes@[k + 1] by {}
    }
    if service == 0x22 {
        if n != 3 {
            return Err(codec_error(codec, "read-DID request must be exactly three bytes"));
        }
        let did: u16 = (bytes[1] as u16) * 256 + (bytes[2] as u16);
        Ok(UdsFrame::ReadDataByIdentifierRequest { did })
    } else if service == 0x62 {
        if n < 3 {
            return Err(codec_error(codec, "read-DID response must include a two-byte DID"));
        }
        let did: u16 = (bytes[1] as u16) * 256 + (bytes[2] as u16);
        let mut data: Vec<u8> = Vec::new();
        let mut i: usize = 3;
        while i < n
            invariant
                n == bytes@.len(),
                3 <= i <= n,
                data@ == bytes@.subrange(3, i as int),
            decreases n - i,
        {
            data.push(bytes[i]);
            i = i + 1;
            assert(data@ =~= bytes@.subrange(3, i as int));
        }
        proof {
            assert(data@ =~= bytes@.drop_first().subrange(2, bytes@.drop_first().len() as int));
        }
        Ok(UdsFrame::ReadDataByIdentifierResponse { did, data })
    } else if service == 0x19 {
        if n == 2 {
            Ok(UdsFrame::ReadDtcRequest { subfunction: bytes[1], status_mask: None })
        } else if n == 3 {
            Ok(UdsFrame::ReadDtcRequest { subfunction: bytes[1], status_mask: Some(bytes[2]) })
        } else {
            Err(
                codec_error(
                    codec,
                    "read-DTC request must be service, subfunction, and optional status mask",
                ),
            )
        }
    } else if service == 0x59 {
        if n < 3 {
            return Err(
                codec_error(codec, "read-DTC response must include subfunction and availability mask"),
            );
        }
        if (n - 3) % 4 != 0 {
            return Err(
                codec_error(codec, "read-DTC response DTC payload must be four-byte entries"),
            );
        }
        let ghost payload = bytes@.subrange(3, n as int);
        let mut dtcs: Vec<DtcFrame> = Vec::new();
        let mut i: usize = 3;
        while i < n
            invariant
                n == bytes@.len(),
                3 <= i <= n,
                (i - 3) % 4 == 0,
                (n - 3) % 4 == 0,
                payload == bytes@.subrange(3, n as int),
                dtcs@.len() == (i - 3) / 4,
                forall|k: int| 0 <= k < dtcs@.len() ==> (#[trigger] dtcs@[k])@ == dtc_entries(payload)[k],
            decreases n - i,
        {
            let d = DtcFrame { raw_code: [bytes[i], bytes[i + 1], bytes[i + 2]], status: bytes[i + 3] };
            proof {
                let k = (i - 3) / 4;
                assert(4 * k == i - 3);
                assert(d.raw_code@ =~= payload.subrange(4 * k, 4 * k + 3));
            }
            dtcs.push(d);
            i = i + 4;
        }
        let f = UdsFrame::ReadDtcResponse {
            subfunction: bytes[1],
            status_availability_mask: bytes[2],
            dtcs,
        };
        proof {
            let rest = bytes@.drop_first();
            assert(rest.subrange(2, rest.len() as int) =~= payload);
            assert(f@->dtcs =~= dtc_entries(payload));
        }
        Ok(f)
    } else if is_obd_mode(service) {
        if n == 1 {
            Ok(UdsFrame::ObdModeRequest { mode: service, pid: None })
        } else if n == 2 {
            Ok(UdsFrame::ObdModeRequest { mode: service, pid: Some(bytes[1]) })
        } else {
            Err(codec_error(codec, "OBD-II mode request supports at most one PID byte"))
        }
    } else {
        let mut message = crate::text::chars_of("unsupported UDS/OBD-II service 0x");
        let mut digits = hex_upper_chars(service as u64, 2);
        message.append(&mut digits);
        let message = string_of(message.as_slice());
        Err(Error::CodecError { codec, message })
    }
}

/// Encodes a supported diagnostic frame to bytes.
pub fn encode_frame(frame: &UdsFrame) -> (r: Vec<u8>)
    ensures
        r@ == spec_encode(frame@),
{
    match frame {
        UdsFrame::ReadDataByIdentifierRequest { did } => {
            let high: u8 = (*did / 256) as u8;
            let low: u8 = (*did % 256) as u8;
            let r = vec![0x22u8, high, low];
            assert(r@ =~= spec_encode(frame@));
            r
        },
        UdsFrame::ReadDataByIdentifierResponse { did, data } => {
            let high: u8 = (*did / 256) as u8;
            let low: u8 = (*did % 256) as u8;
            let mut bytes = vec![0x62u8, high, low];
            let mut i: usize = 0;
            while i < data.len()
                invariant
                    i <= data@.len(),
                    bytes@ == seq![0x62u8, high, low] + data@.subrange(0, i as int),
                decreases data@.len() - i,
            {
                bytes.push(data[i]);
                i = i + 1;
                assert(bytes@ =~= seq![0x62u8, high, low] + data@.subrange(0, i as int));
            }
            assert(data@.subrange(0, data@.len() as int) =~= data@);
            assert(bytes@ =~= spec_encode(frame@));
            bytes
        },
        UdsFrame::ObdModeRequest { mode, pid } => {
            let mut bytes = vec![*mode];
            if let Some(p) = pid {
                bytes.push(*p);
            }
            assert(bytes@ =~= spec_encode(frame@));
            bytes
        },
        UdsFrame::ReadDtcRequest { subfunction, status_mask } => {
            let mut bytes = vec![0x19u8, *subfunction];
            if let Some(m) = status_mask {
                bytes.push(*m);
            }
            assert(bytes@ =~= spec_encode(frame@));
            bytes
        },
        UdsFrame::ReadDtcResponse { subfunction, status_availability_mask, dtcs } => {
            let mut bytes = vec![0x59u8, *subfunction, *status_availability_mask];
            let ghost views = dtcs@.map_values(|d: DtcFrame| d@);
            let mut i: usize = 0;
            while i < dtcs.len()
                invariant
                    i <= dtcs@.len(),
                    views == dtcs@.map_values(|d: DtcFrame| d@),
                    bytes@ == seq![0x59u8, *subfunction, *status_availability_mask] + dtc_bytes(
                        views.subrange(0, i as int),
                    ),
                decreases dtcs@.len() - i,
            {
                let d = dtcs[i];
                bytes.push(d.raw_code[0]);
                bytes.push(d.raw_code[1]);
                bytes.push(d.raw_code[2]);
                bytes.push(d.status);
                proof {
                    let next = views.subrange(0, i + 1);
                    assert(next.drop_last() =~= views.subrange(0, i as int));
                    assert(next.last() == d@);
                    assert(d.raw_code@ =~= seq![d.raw_code[0], d.raw_code[1], d.raw_code[2]]);
                }
                i = i + 1;
                assert(bytes@ =~= seq![0x59u8, *subfunction, *status_availability_mask] + dtc_bytes(
                    views.subrange(0, i as int),
                ));
            }
            assert(views.subrange(0, dtcs@.len() as int) =~= views);
            bytes
        },
    }
}

/// Each entry spans four bytes.
proof fn lemma_dtc_bytes_len(dtcs: Seq<DtcFrameView>)
    requires
        forall|i: int| 0 <= i < dtcs.len() ==> (#[trigger] dtcs[i]).raw_code.len() == 3,
    ensures
        dtc_bytes(dtcs).len() == 4 * dtcs.len(),
    decreases dtcs.len(),
{
    if dtcs.len() > 0 {
        lemma_dtc_bytes_len(dtcs.drop_last());
        assert(dtcs.last() == dtcs[dtcs.len() - 1]);
    }
}

/// Splitting the bytes of encoded entries gives the entries back.
proof fn lemma_entries_of_bytes(dtcs: Seq<DtcFrameView>)
    requires
        forall|i: int| 0 <= i < dtcs.len() ==> (#[trigger] dtcs[i]).raw_code.len() == 3,
    ensures
        dtc_entries(dtc_bytes(dtcs)) == dtcs,
    decreases dtcs.len(),
{
    lemma_dtc_bytes_len(dtcs);
    if dtcs.len() > 0 {
        let init = dtcs.drop_last();
        lemma_entries_of_bytes(init);
        lemma_dtc_bytes_len(init);
        let b = dtc_bytes(dtcs);
        let bi = dtc_bytes(init);
        let last = dtcs.last();
        assert(last == dtcs[dtcs.len() - 1]);
        assert(b == bi + last.raw_code + seq![last.status]);
        assert forall|i: int| 0 <= i < dtcs.len() implies #[trigger] dtc_entries(b)[i] == dtcs[i] by {
            if i < dtcs.len() - 1 {
                assert(b.subrange(4 * i, 4 * i + 3) =~= bi.subrange(4 * i, 4 * i + 3));
                assert(b[4 * i + 3] == bi[4 * i + 3]);
                assert(dtc_entries(bi)[i] == init[i]);
            } else {
                assert(b.subrange(4 * i, 4 * i + 3) =~= last.raw_code);
                assert(b[4 * i + 3] == last.status);
            }
        }
        assert(dtc_entries(b) =~= dtcs);
    } else {
        assert(dtc_entries(dtc_bytes(dtcs)) =~= dtcs);
    }
}

/// Joining the entries read from a payload gives the payload back.
proof fn lemma_bytes_of_entries(p: Seq<u8>)
    requires
        p.len() % 4 == 0,
    ensures
        dtc_bytes(dtc_entries(p)) == p,
    decreases p.len(),
{
    if p.len() == 0 {
        assert(dtc_bytes(dtc_entries(p)) =~= p);
    } else {
        let q = p.subrange(0, p.len() - 4);
        lemma_bytes_of_entries(q);
        let e = dtc_entries(p);
        assert(q.len() / 4 == p.len() / 4 - 1);
        assert forall|i: int| 0 <= i < q.len() / 4 implies #[trigger] e.drop_last()[i] == dtc_entries(q)[i] by {
            assert(q.subrange(4 * i, 4 * i + 3) =~= p.subrange(4 * i, 4 * i + 3));
            assert(q[4 * i + 3] == p[4 * i + 3]);
        }
        assert(e.drop_last() =~= dtc_entries(q));
        let n = p.len() / 4;
        assert(4 * (n - 1) == p.len() - 4);
        assert(e.last().raw_code =~= p.subrange(p.len() - 4, p.len() - 1));
        assert(dtc_bytes(e) =~= p);
    }
}

/// Decoding an encoded well-formed frame gives the frame back.
pub proof fn lemma_decode_encode(f: UdsFrameView)
    requires
        frame_well_formed(f),
    ensures
        spec_decode(spec_encode(f)) == Some(f),
{
    let b = spec_encode(f);
    let rest = b.drop_first();
    match f {
        UdsFrameView::ReadDataByIdentifierRequest { did } => {
            lemma_be(did);
        },
        UdsFrameView::ReadDataByIdentifierResponse { did, data } => {
            lemma_be(did);
            assert(rest.subrange(2, rest.len() as int) =~= data);
        },
        UdsFrameView::ObdModeRequest { mode, pid } => {},
        UdsFrameView::ReadDtcRequest { subfunction, status_mask } => {},
        UdsFrameView::ReadDtcResponse { subfunction, status_availability_mask, dtcs } => {
            lemma_dtc_bytes_len(dtcs);
            lemma_entries_of_bytes(dtcs);
            assert(rest.subrange(2, rest.len() as int) =~= dtc_bytes(dtcs));
        },
    }
}

/// Encoding a decoded frame gives back the very bytes it was decoded from.
pub proof fn lemma_encode_decode(bytes: Seq<u8>)
    requires
        spec_decode(bytes) is Some,
    ensures
        spec_encode(spec_decode(bytes)->0) == bytes,
        frame_well_formed(spec_decode(bytes)->0),
{
    let rest = bytes.drop_first();
    let service = bytes[0];
    let f = spec_decode(bytes)->0;
    if service == 0x22 {
        assert(spec_encode(f) =~= bytes);
    } else if service == 0x62 {
        assert(spec_encode(f) =~= bytes);
    } else if service == 0x19 {
        assert(spec_encode(f) =~= bytes);
    } else if service == 0x59 {
        let p = rest.subrange(2, rest.len() as int);
        lemma_bytes_of_entries(p);
        assert(spec_encode(f) =~= bytes);
    } else {
        assert(spec_encode(f) =~= bytes);
    }
}

/// The name of a well-known data identifier.
pub open spec fn spec_did_name(did: u16) -> Seq<char> {
    if did == 0xF190 {
        "vin"@
    } else if did == 0xF187 {
        "part-number"@
    } else if did == 0xF18C {
        "serial-number"@
    } else {
        "unknown-did"@
    }
}

/// The name of a well-known data identifier.
pub fn did_name(did: u16) -> (r: &'static str)
    ensures
        r@ == spec_did_name(did),
{
    match did {
        0xF190 => "vin",
        0xF187 => "part-number",
        0xF18C => "serial-number",
        _ => "unknown-did",
    }
}

/// The name of an OBD-II mode.
pub open spec fn spec_obd_mode_name(mode: u8) -> Seq<char> {
    if mode == 0x01 {
        "current-data"@
    } else if mode == 0x02 {
        "freeze-frame"@
    } else if mode == 0x03 {
        "stored-dtc"@
    } else if mode == 0x04 {
        "clear-dtc"@
    } else if mode == 0x07 {
        "pending-dtc"@
    } else if mode == 0x09 {
        "vehicle-information"@
    } else {
        "obd-mode"@
    }
}

/// The name of an OBD-II mode.
pub fn obd_mode_name(mode: u8) -> (r: &'static str)
    ensures
        r@ == spec_obd_mode_name(mode),
{
    match mode {
        0x01 => "current-data",
        0x02 => "freeze-frame",
        0x03 => "stored-dtc",
        0x04 => "clear-dtc",
        0x07 => "pending-dtc",
        0x09 => "vehicle-information",
        _ => "obd-mode",
    }
}

/// The system family named by the top two bits of the first code byte.
pub open spec fn spec_dtc_system_name(first: u8) -> Seq<char> {
    let k = first / 64;
    if k == 0 {
        "powertrain"@
    } else if k == 1 {
        "chassis"@
    } else if k == 2 {
        "body"@
    } else {
        "network"@
    }
}

/// The system family of a raw trouble code.
pub fn dtc_system_name(raw_code: [u8; 3]) -> (r: &'static str)
    ensures
        r@ == spec_dtc_system_name(raw_code[0]),
{
    let k: u8 = raw_code[0] / 64;
    if k == 0 {
        "powertrain"
    } else if k == 1 {
        "chassis"
    } else if k == 2 {
        "body"
    } else {
        "network"
    }
}

/// The letter of a trouble code: `P`, `C`, `B` or `U`.
pub open spec fn dtc_letter(first: u8) -> char {
    let k = first / 64;
    if k == 0 {
        'P'
    } else if k == 1 {
        'C'
    } else if k == 2 {
        'B'
    } else {
        'U'
    }
}

/// The text of a raw trouble code, such as `P030100`: the letter, the
/// second-highest two bits and the low nibble of the first byte as hex
/// digits, then the other two bytes as two hex digits each.
pub open spec fn spec_dtc_code_text(raw: Seq<u8>) -> Seq<char> {
    seq![
        dtc_letter(raw[0]),
        digit(((raw[0] / 16) % 4) as nat, true),
        digit((raw[0] % 16) as nat, true),
    ] + zero_pad(hex_upper(raw[1] as nat), 2) + zero_pad(hex_upper(raw[2] as nat), 2)
}

/// The letter of a trouble code follows the top two bits of its first
/// byte (SAE J2012): `00` powertrain `P`, `01` chassis `C`, `10` body `B`,
/// `11` network `U`; so the letter always agrees with the system name.
pub proof fn lemma_dtc_letter_follows_system(raw: Seq<u8>)
    requires
        raw.len() == 3,
    ensures
        raw[0] < 0x40 ==> spec_dtc_code_text(raw)[0] == 'P',
        0x40 <= raw[0] < 0x80 ==> spec_dtc_code_text(raw)[0] == 'C',
        0x80 <= raw[0] < 0xC0 ==> spec_dtc_code_text(raw)[0] == 'B',
        0xC0 <= raw[0] ==> spec_dtc_code_text(raw)[0] == 'U',
        spec_dtc_system_name(raw[0]) == "powertrain"@ <==> spec_dtc_code_text(raw)[0] == 'P',
        spec_dtc_system_name(raw[0]) == "chassis"@ <==> spec_dtc_code_text(raw)[0] == 'C',
        spec_dtc_system_name(raw[0]) == "body"@ <==> spec_dtc_code_text(raw)[0] == 'B',
        spec_dtc_system_name(raw[0]) == "network"@ <==> spec_dtc_code_text(raw)[0] == 'U',
{
    reveal_strlit("powertrain");
    reveal_strlit("chassis");
    reveal_strlit("body");
    reveal_strlit("network");
    assert("powertrain"@.len() == 10);
    assert("chassis"@.len() == 7);
    assert("body"@.len() == 4);
    assert("network"@.len() == 7);
    assert("chassis"@[0] != "network"@[0]);
}

/// The text of a raw trouble code.
pub fn dtc_code_text(raw_code: [u8; 3]) -> (r: String)
    ensures
        r@ == spec_dtc_code_text(raw_code@),
{
    let b0 = raw_code[0];
    let k: u8 = b0 / 64;
    let letter = if k == 0 {
        'P'
    } else if k == 1 {
        'C'
    } else if k == 2 {
        'B'
    } else {
        'U'
    };
    let first = hex_upper_chars(((b0 / 16) % 4) as u64, 1);
    let low = hex_upper_chars((b0 % 16) as u64, 1);
    let mut out: Vec<char> = Vec::new();
    out.push(letter);
    out.push(first[0]);
    out.push(low[0]);
    let mid = hex_upper_chars(raw_code[1] as u64, 2);
    let end = hex_upper_chars(raw_code[2] as u64, 2);
    let mut i: usize = 0;
    while i < mid.len()
        invariant
            i <= mid@.len(),
            out@ == seq![letter, first@[0], low@[0]] + mid@.subrange(0, i as int),
        decreases mid@.len() - i,
    {
        out.push(mid[i]);
        i = i + 1;
        assert(out@ =~= seq![letter, first@[0], low@[0]] + mid@.subrange(0, i as int));
    }
    let mut j: usize = 0;
    while j < end.len()
        invariant
            j <= end@.len(),
            out@ == seq![letter, first@[0], low@[0]] + mid@ + end@.subrange(0, j as int),
        decreases end@.len() - j,
    {
        out.push(end[j]);
        j = j + 1;
        assert(out@ =~= seq![letter, first@[0], low@[0]] + mid@ + end@.subrange(0, j as int));
    }
    proof {
        assert(mid@.subrange(0, mid@.len() as int) =~= mid@);
        assert(end@.subrange(0, end@.len() as int) =~= end@);
        assert(first@ == seq![digit(((b0 / 16) % 4) as nat, true)]);
        assert(low@ == seq![digit((b0 % 16) as nat, true)]);
        assert(out@ =~= spec_dtc_code_text(raw_code@));
    }
    string_of(out.as_slice())
}

} // verus!
