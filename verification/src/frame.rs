//! The frames of a programming pass and how their payloads are formed.
//!
//! Serial register frames travel on the data endpoint, bit-expanded; control
//! strobes travel on the command endpoint as two raw bytes.

use vstd::prelude::*;
use crate::codec::{bytes_to_bits, expand};

verus! {

/// Bulk-OUT endpoint that takes two-byte raw commands.
pub const COMMAND_ENDPOINT: u8 = 0x01;

/// Bulk-OUT endpoint that takes bit-expanded serial register frames.
pub const DATA_ENDPOINT: u8 = 0x04;

/// Bulk-IN endpoint kept for reading registers back.
pub const READBACK_ENDPOINT: u8 = 0x88;

/// Address of the channel-select register.
pub const CHANNEL_ENABLE_REGISTER: u8 = 0x00;

/// Address of the frequency tuning word register.
pub const FREQUENCY_REGISTER: u8 = 0x04;

/// First byte of both I/O strobes.
pub const IO_STROBE_COMMAND: u8 = 0x0C;

/// Second byte of the strobe that arms the I/O update.
pub const IO_LOAD: u8 = 0x00;

/// Second byte of the strobe that latches the written registers.
pub const IO_UPDATE: u8 = 0x10;

/// Time allowed to each transfer, in milliseconds.
pub const TRANSFER_TIMEOUT_MS: u64 = 1000;

/// Lowest bit of the channel-select register that enables an output channel.
pub const FIRST_CHANNEL_BIT: u8 = 4;

/// Number of output channels.
pub const CHANNEL_COUNT: u8 = 4;

/// Exactly one of the eight bits of `mask` is set.
pub open spec fn is_single_bit(mask: u8) -> bool {
    mask == 0x01 || mask == 0x02 || mask == 0x04 || mask == 0x08 || mask == 0x10 || mask == 0x20
        || mask == 0x40 || mask == 0x80
}

/// The channel-select byte that enables output channel `channel` alone.
pub open spec fn channel_mask(channel: u8) -> u8
    recommends
        channel < CHANNEL_COUNT,
{
    if channel == 0 {
        0x10
    } else if channel == 1 {
        0x20
    } else if channel == 2 {
        0x40
    } else {
        0x80
    }
}

/// The four bytes of `word`, most significant first.
pub open spec fn be_bytes(word: u32) -> Seq<u8> {
    seq![
        (word / 0x100_0000) as u8,
        (word / 0x1_0000 % 0x100) as u8,
        (word / 0x100 % 0x100) as u8,
        (word % 0x100) as u8,
    ]
}

/// A channel-select byte with exactly one bit set: one output channel per run.
#[derive(Debug, Clone, Copy, PartialEq, Eq)]
pub struct ChannelEnable {
    mask: u8,
}

impl View for ChannelEnable {
    type V = u8;

    closed spec fn view(&self) -> u8 {
        self.mask
    }
}

impl ChannelEnable {
    #[verifier::type_invariant]
    spec fn inv(self) -> bool {
        is_single_bit(self.mask)
    }

    /// Accepts `mask` when exactly one of its bits is set.
    pub fn from_mask(mask: u8) -> (select: Option<ChannelEnable>)
        ensures
            select is Some <==> is_single_bit(mask),
            select is Some ==> select.unwrap()@ == mask,
    {
        if mask == 0x01 || mask == 0x02 || mask == 0x04 || mask == 0x08 || mask == 0x10 || mask
            == 0x20 || mask == 0x40 || mask == 0x80 {
            Some(ChannelEnable { mask })
        } else {
            None
        }
    }

    /// Selects output channel `channel` (0 to 3); the chip keeps the channel
    /// enables in the upper four bits of its channel-select register.
    pub fn for_channel(channel: u8) -> (select: Option<ChannelEnable>)
        ensures
            select is Some <==> channel < CHANNEL_COUNT,
            select is Some ==> select.unwrap()@ == channel_mask(channel),
    {
        if channel < CHANNEL_COUNT {
            let shift: u8 = FIRST_CHANNEL_BIT + channel;
            assert(shift == 4 ==> 1u8 << shift == 0x10) by (bit_vector);
            assert(shift == 5 ==> 1u8 << shift == 0x20) by (bit_vector);
            assert(shift == 6 ==> 1u8 << shift == 0x40) by (bit_vector);
            assert(shift == 7 ==> 1u8 << shift == 0x80) by (bit_vector);
            Some(ChannelEnable { mask: 1u8 << shift })
        } else {
            None
        }
    }

    /// The byte written to the channel-select register.
    pub fn mask(&self) -> (mask: u8)
        ensures
            mask == self@,
            is_single_bit(mask),
    {
        proof {
            use_type_invariant(self);
        }
        self.mask
    }
}

/// One bulk transfer: where it goes and what it carries.
#[derive(Debug, PartialEq, Eq)]
pub struct Frame {
    pub endpoint: u8,
    pub payload: Vec<u8>,
}

/// A frame as a mathematical value.
pub struct FrameView {
    pub endpoint: u8,
    pub payload: Seq<u8>,
}

impl View for Frame {
    type V = FrameView;

    open spec fn view(&self) -> FrameView {
        FrameView { endpoint: self.endpoint, payload: self.payload@ }
    }
}

/// Serial register frame: the register address, then its data, bit-expanded.
pub open spec fn serial_register_frame_spec(register: u8, data: Seq<u8>) -> FrameView {
    FrameView { endpoint: DATA_ENDPOINT, payload: expand(seq![register] + data) }
}

/// Control strobe: two raw bytes on the command endpoint, never expanded.
pub open spec fn control_strobe_frame_spec(command: u8, argument: u8) -> FrameView {
    FrameView { endpoint: COMMAND_ENDPOINT, payload: seq![command, argument] }
}

/// Frame that enables the one channel of `mask`.
pub open spec fn channel_enable_frame_spec(mask: u8) -> FrameView {
    serial_register_frame_spec(CHANNEL_ENABLE_REGISTER, seq![mask])
}

/// Frame that writes the frequency tuning word, most significant byte first.
pub open spec fn frequency_frame_spec(tuning_word: u32) -> FrameView {
    serial_register_frame_spec(FREQUENCY_REGISTER, be_bytes(tuning_word))
}

/// Strobe that arms the I/O update without latching.
pub open spec fn load_strobe_frame_spec() -> FrameView {
    control_strobe_frame_spec(IO_STROBE_COMMAND, IO_LOAD)
}

/// Strobe that latches the written registers into the active profile.
pub open spec fn update_strobe_frame_spec() -> FrameView {
    control_strobe_frame_spec(IO_STROBE_COMMAND, IO_UPDATE)
}

/// Splits `word` into its four bytes, most significant first.
pub fn tuning_word_bytes(word: u32) -> (bytes: [u8; 4])
    ensures
        bytes@ == be_bytes(word),
{
    assert((word >> 24u32) == word / 0x100_0000 && (word >> 24u32) < 0x100) by (bit_vector);
    assert(((word >> 16u32) & 0xff) == word / 0x1_0000 % 0x100 && ((word >> 16u32) & 0xff) < 0x100)
        by (bit_vector);
    assert(((word >> 8u32) & 0xff) == word / 0x100 % 0x100 && ((word >> 8u32) & 0xff) < 0x100)
        by (bit_vector);
    assert((word & 0xff) == word % 0x100 && (word & 0xff) < 0x100) by (bit_vector);
    let bytes: [u8; 4] = [
        (word >> 24u32) as u8,
        ((word >> 16u32) & 0xff) as u8,
        ((word >> 8u32) & 0xff) as u8,
        (word & 0xff) as u8,
    ];
    assert(bytes@ =~= be_bytes(word));
    bytes
}

/// Builds the serial register frame that writes `data` to `register`.
pub fn serial_register_frame(register: u8, data: &[u8]) -> (frame: Frame)
    ensures
        frame@ == serial_register_frame_spec(register, data@),
{
    let mut bytes: Vec<u8> = Vec::new();
    bytes.push(register);
    bytes.extend_from_slice(data);
    assert(bytes@ =~= seq![register] + data@);
    Frame { endpoint: DATA_ENDPOINT, payload: bytes_to_bits(bytes.as_slice()) }
}

/// Builds the control strobe made of `command` and `argument`.
pub fn control_strobe_frame(command: u8, argument: u8) -> (frame: Frame)
    ensures
        frame@ == control_strobe_frame_spec(command, argument),
{
    let mut payload: Vec<u8> = Vec::new();
    payload.push(command);
    payload.push(argument);
    assert(payload@ =~= seq![command, argument]);
    Frame { endpoint: COMMAND_ENDPOINT, payload }
}

/// Builds the frame that enables the channel of `select` and no other.
pub fn channel_enable_frame(select: ChannelEnable) -> (frame: Frame)
    ensures
        frame@ == channel_enable_frame_spec(select@),
{
    let data: [u8; 1] = [select.mask()];
    assert(data@ =~= seq![select@]);
    serial_register_frame(CHANNEL_ENABLE_REGISTER, data.as_slice())
}

/// Builds the frame that writes `tuning_word` to the frequency register.
pub fn frequency_frame(tuning_word: u32) -> (frame: Frame)
    ensures
        frame@ == frequency_frame_spec(tuning_word),
{
    let data: [u8; 4] = tuning_word_bytes(tuning_word);
    serial_register_frame(FREQUENCY_REGISTER, data.as_slice())
}

/// Builds the I/O load strobe.
pub fn load_strobe_frame() -> (frame: Frame)
    ensures
        frame@ == load_strobe_frame_spec(),
{
    control_strobe_frame(IO_STROBE_COMMAND, IO_LOAD)
}

/// Builds the I/O update strobe.
pub fn update_strobe_frame() -> (frame: Frame)
    ensures
        frame@ == update_strobe_frame_spec(),
{
    control_strobe_frame(IO_STROBE_COMMAND, IO_UPDATE)
}

} // verus!
