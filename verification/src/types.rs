//! Core data types of the DMC v2 protocol: message type codes, response
//! codes, logical message kinds and the decoded message value.
//!
//! On the wire a message type is a 16-bit field composed of a 15-bit
//! command code and a high acknowledgement flag. In memory that
//! composition is modelled as a tagged variant ([`MessageKind`]), so an
//! acknowledgement can never be mistaken for a plain command.

use vstd::prelude::*;

verus! {

/// Largest payload a frame may carry, in bytes.
pub const MAX_PAYLOAD_LEN: usize = 2048;

/// Wire value of the acknowledgement flag: the high bit of the 16-bit
/// message type field.
pub const ACK_FLAG: u16 = 0x8000;

/// Message types determine the request and response data.
///
/// These are the raw 16-bit wire constants of the protocol scaffold;
/// [`MessageKind`] is the tagged form the codec works with.
#[derive(Clone, Copy, Debug, PartialEq, Eq, Structural)]
pub enum MessageType {
    /// The device must respond to every message it receives. Some requests
    /// have specific responses that they expect. Some just expect a
    /// response with the acknowledgement flag set and a response code.
    MsgFlagAck,
    /// Request basic information about the device. A session always starts
    /// with this request, and the device also issues it whenever it starts
    /// up.
    MsgHi,
    /// Set DMX light values.
    MsgDmx,
    /// Set the state of the general-purpose I/O output triggers.
    MsgGuiOut,
}

/// The 16-bit wire code of a raw message type constant.
pub open spec fn message_type_code(t: MessageType) -> u16 {
    match t {
        MessageType::MsgFlagAck => 0x8000,
        MessageType::MsgHi => 0x0001,
        MessageType::MsgDmx => 0x0020,
        MessageType::MsgGuiOut => 0x0021,
    }
}

impl MessageType {
    /// Returns the 16-bit wire code of this message type.
    pub fn code(&self) -> (c: u16)
        ensures
            c == message_type_code(*self),
    {
        match self {
            MessageType::MsgFlagAck => 0x8000,
            MessageType::MsgHi => 0x0001,
            MessageType::MsgDmx => 0x0020,
            MessageType::MsgGuiOut => 0x0021,
        }
    }
}

/// Response codes are sent in acknowledgement frames.
///
/// A response code is data, never control flow: a frame carrying an error
/// code is still a well-formed frame, and callers branch on the code
/// explicitly.
#[derive(Clone, Copy, Debug, PartialEq, Eq, Structural)]
pub enum ResponseCode {
    /// Received, understood, and acted on the message.
    Okay,
    /// The checksum did not match.
    ErrChecksum,
    /// Cannot handle this command while the rig is moving.
    ErrMoving,
    /// The message type is not known or supported.
    ErrUnsupported,
    /// A parameter was out of range.
    ErrRange,
    /// General error.
    ErrGeneral,
    /// Software upper limit hit.
    ErrSoftUp,
    /// Software lower limit hit.
    ErrSoftLow,
    /// Hardware upper limit hit.
    ErrHardUp,
    /// Hardware lower limit hit.
    ErrHardLow,
}

/// The single payload byte that carries a response code on the wire.
pub open spec fn response_code_byte(rc: ResponseCode) -> u8 {
    match rc {
        ResponseCode::Okay => 0x10,
        ResponseCode::ErrChecksum => 0x11,
        ResponseCode::ErrMoving => 0x12,
        ResponseCode::ErrUnsupported => 0x13,
        ResponseCode::ErrRange => 0x14,
        ResponseCode::ErrGeneral => 0x15,
        ResponseCode::ErrSoftUp => 0x20,
        ResponseCode::ErrSoftLow => 0x21,
        ResponseCode::ErrHardUp => 0x22,
        ResponseCode::ErrHardLow => 0x23,
    }
}

/// The response code a payload byte stands for, if any.
pub open spec fn response_code_of_byte(b: u8) -> Option<ResponseCode> {
    if b == 0x10 {
        Some(ResponseCode::Okay)
    } else if b == 0x11 {
        Some(ResponseCode::ErrChecksum)
    } else if b == 0x12 {
        Some(ResponseCode::ErrMoving)
    } else if b == 0x13 {
        Some(ResponseCode::ErrUnsupported)
    } else if b == 0x14 {
        Some(ResponseCode::ErrRange)
    } else if b == 0x15 {
        Some(ResponseCode::ErrGeneral)
    } else if b == 0x20 {
        Some(ResponseCode::ErrSoftUp)
    } else if b == 0x21 {
        Some(ResponseCode::ErrSoftLow)
    } else if b == 0x22 {
        Some(ResponseCode::ErrHardUp)
    } else if b == 0x23 {
        Some(ResponseCode::ErrHardLow)
    } else {
        None
    }
}

impl ResponseCode {
    /// Returns the wire byte of this response code.
    pub fn to_byte(&self) -> (b: u8)
        ensures
            b == response_code_byte(*self),
            response_code_of_byte(b) == Some(*self),
    {
        match self {
            ResponseCode::Okay => 0x10,
            ResponseCode::ErrChecksum => 0x11,
            ResponseCode::ErrMoving => 0x12,
            ResponseCode::ErrUnsupported => 0x13,
            ResponseCode::ErrRange => 0x14,
            ResponseCode::ErrGeneral => 0x15,
            ResponseCode::ErrSoftUp => 0x20,
            ResponseCode::ErrSoftLow => 0x21,
            ResponseCode::ErrHardUp => 0x22,
            ResponseCode::ErrHardLow => 0x23,
        }
    }

    /// Parses a wire byte back into a response code.
    pub fn from_byte(b: u8) -> (r: Option<ResponseCode>)
        ensures
            r == response_code_of_byte(b),
    {
        if b == 0x10 {
            Some(ResponseCode::Okay)
        } else if b == 0x11 {
            Some(ResponseCode::ErrChecksum)
        } else if b == 0x12 {
            Some(ResponseCode::ErrMoving)
        } else if b == 0x13 {
            Some(ResponseCode::ErrUnsupported)
        } else if b == 0x14 {
            Some(ResponseCode::ErrRange)
        } else if b == 0x15 {
            Some(ResponseCode::ErrGeneral)
        } else if b == 0x20 {
            Some(ResponseCode::ErrSoftUp)
        } else if b == 0x21 {
            Some(ResponseCode::ErrSoftLow)
        } else if b == 0x22 {
            Some(ResponseCode::ErrHardUp)
        } else if b == 0x23 {
            Some(ResponseCode::ErrHardLow)
        } else {
            None
        }
    }
}

/// The logical kind of a message: a tagged variant over the 16-bit wire
/// type field.
///
/// An acknowledgement carries the 15-bit code of the command it answers
/// together with a response code; a frame whose type (or acknowledged
/// response byte) is not registered decodes as `Unknown` with its raw
/// payload, never as an error, since the protocol mandates that every
/// frame on the wire be answered.
#[derive(Clone, Copy, Debug, PartialEq, Eq, Structural)]
pub enum MessageKind {
    /// Request for basic device information; the response payload is a
    /// [`crate::registry::HiResponseData`].
    Hi,
    /// Set DMX light values; the payload is a
    /// [`crate::registry::DmxRequestData`].
    Dmx,
    /// Set general-purpose I/O output triggers; the payload is a
    /// [`crate::registry::GuiOutData`].
    GuiOut,
    /// Acknowledgement of the command with the given 15-bit base code,
    /// carrying a response code.
    Ack(u16, ResponseCode),
    /// A well-formed frame whose type code has no registry entry.
    Unknown(u16),
}

/// Whether the codec can emit a frame of this kind: `Unknown` has no
/// registry entry, and an acknowledged base code must fit in 15 bits.
pub open spec fn kind_encodable(k: MessageKind) -> bool {
    match k {
        MessageKind::Unknown(_) => false,
        MessageKind::Ack(base, _) => base < ACK_FLAG,
        _ => true,
    }
}

/// The 16-bit wire type code of an encodable kind.
pub open spec fn code_of_kind(k: MessageKind) -> u16 {
    match k {
        MessageKind::Hi => 0x0001,
        MessageKind::Dmx => 0x0020,
        MessageKind::GuiOut => 0x0021,
        MessageKind::Ack(base, _) => if base < ACK_FLAG {
            (ACK_FLAG + base) as u16
        } else {
            base
        },
        MessageKind::Unknown(c) => c,
    }
}

/// The registry's expected payload length for a wire type code, or `None`
/// for a code without a registry entry (whose payload length is free).
pub open spec fn registry_payload_len(code: u16) -> Option<int> {
    if code >= ACK_FLAG {
        Some(1)
    } else if code == 0x0001 {
        Some(49int)
    } else if code == 0x0020 {
        Some(7int)
    } else if code == 0x0021 {
        Some(4int)
    } else {
        None
    }
}

/// The kind a validated frame with type `code` and payload `payload`
/// decodes to. For an acknowledgement the payload is already known to be
/// the single response byte; a response byte outside the closed set, like
/// an unregistered command code, yields `Unknown`.
pub open spec fn kind_of_frame(code: u16, payload: Seq<u8>) -> MessageKind {
    if code >= ACK_FLAG {
        if payload.len() == 1 {
            match response_code_of_byte(payload[0]) {
                Some(rc) => MessageKind::Ack((code - ACK_FLAG) as u16, rc),
                None => MessageKind::Unknown(code),
            }
        } else {
            MessageKind::Unknown(code)
        }
    } else if code == 0x0001 {
        MessageKind::Hi
    } else if code == 0x0020 {
        MessageKind::Dmx
    } else if code == 0x0021 {
        MessageKind::GuiOut
    } else {
        MessageKind::Unknown(code)
    }
}

/// Whether `payload` has the exact shape the registry demands of a frame
/// of kind `k`. For an acknowledgement the payload is the single wire
/// byte of its response code.
pub open spec fn payload_matches_kind(k: MessageKind, payload: Seq<u8>) -> bool {
    match k {
        MessageKind::Hi => payload.len() == 49,
        MessageKind::Dmx => payload.len() == 7,
        MessageKind::GuiOut => payload.len() == 4,
        MessageKind::Ack(_, rc) => payload =~= seq![response_code_byte(rc)],
        MessageKind::Unknown(_) => false,
    }
}

/// A decoded message: correlation id, logical kind, and the raw payload
/// bytes exactly as they stood on the wire.
#[derive(Clone, Debug, PartialEq, Eq)]
pub struct Message {
    /// 32-bit correlation id pairing a request with its response.
    pub id: u32,
    /// The logical kind of the message.
    pub kind: MessageKind,
    /// The raw payload bytes.
    pub payload: Vec<u8>,
}

/// Mathematical model of a [`Message`]: the payload as a byte sequence.
pub ghost struct MessageModel {
    /// 32-bit correlation id.
    pub id: u32,
    /// The logical kind.
    pub kind: MessageKind,
    /// The payload bytes.
    pub payload: Seq<u8>,
}

impl View for Message {
    type V = MessageModel;

    open spec fn view(&self) -> MessageModel {
        MessageModel { id: self.id, kind: self.kind, payload: self.payload@ }
    }
}

/// A framing error found while validating an incoming byte buffer. All
/// framing errors are local and recoverable: the stream reassembler
/// resynchronizes past them.
#[derive(Clone, Copy, Debug, PartialEq, Eq, Structural)]
pub enum FrameError {
    /// The buffer does not begin with the two-byte frame marker.
    BadMarker,
    /// The stored checksum does not match the one computed over the frame.
    ChecksumMismatch,
    /// The declared payload length exceeds the protocol bound, or does not
    /// match the registry's expected length for the frame's type.
    LengthMismatch,
    /// The frame's type code has no registry entry. Decoding never reports
    /// this: such a frame is returned as [`MessageKind::Unknown`]. The
    /// variant completes the protocol's error taxonomy for callers.
    UnknownType,
}

/// A caller-side encoding error: the request could never become a legal
/// frame. Surfaced immediately, never transmitted.
#[derive(Clone, Copy, Debug, PartialEq, Eq, Structural)]
pub enum EncodingError {
    /// The payload exceeds [`MAX_PAYLOAD_LEN`] bytes.
    PayloadTooLarge,
    /// The kind has no registry entry to encode under.
    UnknownKind,
}

/// A DMC frame header as an owned value: marker bytes, correlation id,
/// raw message type, declared payload length, payload buffer and checksum
/// field.
#[derive(Debug)]
pub struct DmcMessage {
    /// The two ASCII marker bytes that open every frame.
    pub marker: Vec<u8>,
    /// 32-bit correlation id.
    pub id: u32,
    /// The raw message type constant.
    pub message_type: MessageType,
    /// Declared payload length in bytes.
    pub length: u16,
    /// The payload buffer.
    pub data: Vec<u8>,
    /// The checksum field; zero until the frame is encoded.
    pub checksum: u16,
}

impl DmcMessage {
    /// Initialize a new DmcMessage: marker set to the frame marker bytes,
    /// empty payload, zero length and checksum.
    pub fn new(id: u32, message_type: MessageType) -> (m: DmcMessage)
        ensures
            m.marker@ =~= seq![0x44u8, 0x46u8],
            m.id == id,
            m.message_type == message_type,
            m.length == 0,
            m.data@ =~= Seq::<u8>::empty(),
            m.checksum == 0,
    {
        let mut marker: Vec<u8> = Vec::new();
        marker.push(0x44);
        marker.push(0x46);
        DmcMessage { marker, id, message_type, length: 0, data: Vec::new(), checksum: 0 }
    }
}

} // verus!
