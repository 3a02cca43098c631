//! Message type registry: the fixed payload shapes of the registered
//! message types, with their byte-level codecs.
//!
//! Each registered type carries a fixed-size payload; the codec validates
//! the declared length against these shapes, and callers use the typed
//! structs here to build or interpret payload bytes. The mapping is
//! immutable, compile-time data: a new message type extends this module,
//! there is no runtime registration.

use vstd::prelude::*;
use vstd::arithmetic::div_mod::lemma_fundamental_div_mod_converse;
use crate::codec::read_u16_at;
use crate::codec::read_u32_at;
use crate::codec::u16_be;
use crate::codec::u32_be;

verus! {

/// Payload length of a `Hi` response frame, in bytes.
pub const HI_PAYLOAD_LEN: usize = 49;

/// Payload length of a `Dmx` request frame, in bytes.
pub const DMX_PAYLOAD_LEN: usize = 7;

/// Payload length of a `GuiOut` request frame, in bytes.
pub const GUI_OUT_PAYLOAD_LEN: usize = 4;

/// Reading back the two bytes written big-endian gives the bytes
/// themselves.
pub proof fn lemma_read_u16_be(b: Seq<u8>, i: int)
    requires
        0 <= i,
        i + 2 <= b.len(),
    ensures
        u16_be(read_u16_at(b, i)) =~= seq![b[i], b[i + 1]],
{
    lemma_fundamental_div_mod_converse(b[i] * 256 + b[i + 1], 256, b[i] as int, b[i + 1] as int);
}

/// Reading back the four bytes written big-endian gives the bytes
/// themselves.
pub proof fn lemma_read_u32_be(b: Seq<u8>, i: int)
    requires
        0 <= i,
        i + 4 <= b.len(),
    ensures
        u32_be(read_u32_at(b, i)) =~= seq![b[i], b[i + 1], b[i + 2], b[i + 3]],
{
    let b0 = b[i] as int;
    let b1 = b[i + 1] as int;
    let b2 = b[i + 2] as int;
    let b3 = b[i + 3] as int;
    let x = ((b0 * 256 + b1) * 256 + b2) * 256 + b3;
    lemma_fundamental_div_mod_converse(x, 0x1000000, b0, b1 * 0x10000 + b2 * 256 + b3);
    lemma_fundamental_div_mod_converse(x, 0x10000, b0 * 256 + b1, b2 * 256 + b3);
    lemma_fundamental_div_mod_converse(x, 256, (b0 * 256 + b1) * 256 + b2, b3);
    lemma_fundamental_div_mod_converse(b0 * 256 + b1, 256, b0, b1);
    lemma_fundamental_div_mod_converse((b0 * 256 + b1) * 256 + b2, 256, b0 * 256 + b1, b2);
}

/// Response data for a `Hi` request: device identity and capability
/// counts.
#[derive(Clone, Debug, PartialEq, Eq)]
pub struct HiResponseData {
    /// Device name, exactly 32 bytes.
    pub name: Vec<u8>,
    /// Protocol major version.
    pub fw_major: u8,
    /// Protocol minor version.
    pub fw_minor: u8,
    /// Device-defined firmware revision.
    pub fw_rev: u8,
    /// Number of motor channels.
    pub motor_count: u8,
    /// Number of DMX lighting channels.
    pub dmx_count: u16,
    /// Number of general-purpose output triggers.
    pub gio_out_count: u8,
    /// Number of general-purpose inputs.
    pub gio_input_count: u8,
    /// Number of hardware limit switches.
    pub hw_limit_count: u8,
    /// Number of frames the device can hold for upload.
    pub upload_frame_count: u32,
    /// Capability flag bits.
    pub capabilities: u32,
}

/// The wire payload of a `Hi` response.
pub open spec fn hi_payload_bytes(h: HiResponseData) -> Seq<u8> {
    h.name@ + seq![h.fw_major, h.fw_minor, h.fw_rev, h.motor_count] + u16_be(h.dmx_count)
        + seq![h.gio_out_count, h.gio_input_count, h.hw_limit_count] + u32_be(
        h.upload_frame_count,
    ) + u32_be(h.capabilities)
}

impl HiResponseData {
    /// Well-formedness: the name field is exactly 32 bytes.
    pub open spec fn wf(self) -> bool {
        self.name@.len() == 32
    }

    /// Encodes this response into its 49-byte wire payload.
    pub fn encode_payload(&self) -> (out: Vec<u8>)
        requires
            self.wf(),
        ensures
            out@ == hi_payload_bytes(*self),
            out@.len() == HI_PAYLOAD_LEN,
    {
        let mut out: Vec<u8> = Vec::new();
        let mut i: usize = 0;
        while i < self.name.len()
            invariant
                i <= self.name@.len(),
                out@ =~= self.name@.take(i as int),
            decreases self.name@.len() - i,
        {
            out.push(self.name[i]);
            i = i + 1;
        }
        out.push(self.fw_major);
        out.push(self.fw_minor);
        out.push(self.fw_rev);
        out.push(self.motor_count);
        out.push((self.dmx_count / 256) as u8);
        out.push((self.dmx_count % 256) as u8);
        out.push(self.gio_out_count);
        out.push(self.gio_input_count);
        out.push(self.hw_limit_count);
        let mut tail: Vec<u8> = Vec::new();
        crate::codec::push_u32_be(&mut tail, self.upload_frame_count);
        crate::codec::push_u32_be(&mut tail, self.capabilities);
        let mut j: usize = 0;
        let ghost mid = out@;
        while j < tail.len()
            invariant
                j <= tail@.len(),
                out@ =~= mid + tail@.take(j as int),
            decreases tail@.len() - j,
        {
            out.push(tail[j]);
            j = j + 1;
        }
        proof {
            assert(out@ =~= hi_payload_bytes(*self));
        }
        out
    }

    /// Decodes a 49-byte wire payload into a `Hi` response. Returns
    /// `None` exactly when the length is wrong; on success every field
    /// is the value read from its offset, and re-encoding the result
    /// gives back the input bytes.
    pub fn decode_payload(b: &Vec<u8>) -> (r: Option<HiResponseData>)
        ensures
            match r {
                Some(h) => b@.len() == HI_PAYLOAD_LEN && h.wf() && h.name@ == b@.subrange(0, 32)
                    && h.fw_major == b@[32] && h.fw_minor == b@[33] && h.fw_rev == b@[34]
                    && h.motor_count == b@[35] && h.dmx_count == read_u16_at(b@, 36)
                    && h.gio_out_count == b@[38] && h.gio_input_count == b@[39]
                    && h.hw_limit_count == b@[40] && h.upload_frame_count == read_u32_at(b@, 41)
                    && h.capabilities == read_u32_at(b@, 45) && hi_payload_bytes(h) == b@,
                None => b@.len() != HI_PAYLOAD_LEN,
            },
    {
        if b.len() != HI_PAYLOAD_LEN {
            return None;
        }
        let mut name: Vec<u8> = Vec::new();
        let mut i: usize = 0;
        while i < 32
            invariant
                i <= 32,
                b@.len() == HI_PAYLOAD_LEN,
                name@ =~= b@.subrange(0, i as int),
            decreases 32 - i,
        {
            name.push(b[i]);
            i = i + 1;
        }
        let h = HiResponseData {
            name,
            fw_major: b[32],
            fw_minor: b[33],
            fw_rev: b[34],
            motor_count: b[35],
            dmx_count: crate::codec::read_u16_exec(b.as_slice(), 36),
            gio_out_count: b[38],
            gio_input_count: b[39],
            hw_limit_count: b[40],
            upload_frame_count: crate::codec::read_u32_exec(b.as_slice(), 41),
            capabilities: crate::codec::read_u32_exec(b.as_slice(), 45),
        };
        proof {
            lemma_read_u16_be(b@, 36);
            lemma_read_u32_be(b@, 41);
            lemma_read_u32_be(b@, 45);
            assert(hi_payload_bytes(h) =~= b@);
        }
        Some(h)
    }
}

/// A DMX lighting request: the initial channel to change and up to four
/// light values. If `ramp` is set the device ramps each channel to its
/// target value rather than switching immediately. Answered with an
/// acknowledgement carrying a response code.
#[derive(Clone, Copy, Debug, PartialEq, Eq, Structural)]
pub struct DmxRequestData {
    /// Ramp flag: non-zero to fade to the target values.
    pub ramp: u8,
    /// First DMX channel to change.
    pub start_channel: u16,
    /// Value for the first channel.
    pub light_value: u8,
    /// Value for the second channel.
    pub light_value_2: u8,
    /// Value for the third channel.
    pub light_value_3: u8,
    /// Value for the fourth channel.
    pub light_value_4: u8,
}

/// The wire payload of a DMX request.
pub open spec fn dmx_payload_bytes(d: DmxRequestData) -> Seq<u8> {
    seq![d.ramp] + u16_be(d.start_channel) + seq![
        d.light_value,
        d.light_value_2,
        d.light_value_3,
        d.light_value_4,
    ]
}

impl DmxRequestData {
    /// Encodes this request into its 7-byte wire payload.
    pub fn encode_payload(&self) -> (out: Vec<u8>)
        ensures
            out@ == dmx_payload_bytes(*self),
            out@.len() == DMX_PAYLOAD_LEN,
    {
        let mut out: Vec<u8> = Vec::new();
        out.push(self.ramp);
        out.push((self.start_channel / 256) as u8);
        out.push((self.start_channel % 256) as u8);
        out.push(self.light_value);
        out.push(self.light_value_2);
        out.push(self.light_value_3);
        out.push(self.light_value_4);
        proof {
            assert(out@ =~= dmx_payload_bytes(*self));
        }
        out
    }

    /// Decodes a 7-byte wire payload into a DMX request. Returns `None`
    /// exactly when the length is wrong; on success every field is the
    /// value read from its offset, and re-encoding gives back the input.
    pub fn decode_payload(b: &Vec<u8>) -> (r: Option<DmxRequestData>)
        ensures
            match r {
                Some(d) => b@.len() == DMX_PAYLOAD_LEN && d.ramp == b@[0] && d.start_channel
                    == read_u16_at(b@, 1) && d.light_value == b@[3] && d.light_value_2 == b@[4]
                    && d.light_value_3 == b@[5] && d.light_value_4 == b@[6] && dmx_payload_bytes(d)
                    == b@,
                None => b@.len() != DMX_PAYLOAD_LEN,
            },
    {
        if b.len() != DMX_PAYLOAD_LEN {
            return None;
        }
        let d = DmxRequestData {
            ramp: b[0],
            start_channel: crate::codec::read_u16_exec(b.as_slice(), 1),
            light_value: b[3],
            light_value_2: b[4],
            light_value_3: b[5],
            light_value_4: b[6],
        };
        proof {
            lemma_read_u16_be(b@, 1);
            assert(dmx_payload_bytes(d) =~= b@);
        }
        Some(d)
    }
}

/// A general-purpose I/O request: the state of the output triggers, one
/// bit per trigger.
#[derive(Clone, Copy, Debug, PartialEq, Eq, Structural)]
pub struct GuiOutData {
    /// Trigger state bits.
    pub triggers: u32,
}

/// The wire payload of a general-purpose I/O request.
pub open spec fn gui_out_payload_bytes(g: GuiOutData) -> Seq<u8> {
    u32_be(g.triggers)
}

impl GuiOutData {
    /// Encodes this request into its 4-byte wire payload.
    pub fn encode_payload(&self) -> (out: Vec<u8>)
        ensures
            out@ == gui_out_payload_bytes(*self),
            out@.len() == GUI_OUT_PAYLOAD_LEN,
    {
        let mut out: Vec<u8> = Vec::new();
        crate::codec::push_u32_be(&mut out, self.triggers);
        proof {
            assert(out@ =~= gui_out_payload_bytes(*self));
        }
        out
    }

    /// Decodes a 4-byte wire payload into a general-purpose I/O request.
    /// Returns `None` exactly when the length is wrong; on success the
    /// trigger word is the value read, and re-encoding gives back the
    /// input.
    pub fn decode_payload(b: &Vec<u8>) -> (r: Option<GuiOutData>)
        ensures
            match r {
                Some(g) => b@.len() == GUI_OUT_PAYLOAD_LEN && g.triggers == read_u32_at(b@, 0)
                    && gui_out_payload_bytes(g) == b@,
                None => b@.len() != GUI_OUT_PAYLOAD_LEN,
            },
    {
        if b.len() != GUI_OUT_PAYLOAD_LEN {
            return None;
        }
        let g = GuiOutData { triggers: crate::codec::read_u32_exec(b.as_slice(), 0) };
        proof {
            lemma_read_u32_be(b@, 0);
            assert(gui_out_payload_bytes(g) =~= b@);
        }
        Some(g)
    }
}

} // verus!
