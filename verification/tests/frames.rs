use ad9959_usb::codec::bytes_to_bits;
use ad9959_usb::frame::{
    channel_enable_frame, control_strobe_frame, frequency_frame, load_strobe_frame,
    serial_register_frame, tuning_word_bytes, update_strobe_frame, ChannelEnable,
    CHANNEL_ENABLE_REGISTER, COMMAND_ENDPOINT, DATA_ENDPOINT, FREQUENCY_REGISTER,
    READBACK_ENDPOINT, TRANSFER_TIMEOUT_MS,
};
use ad9959_usb::sequencer::program_frames;
use ad9959_usb::tuning::output_frequency_hz;

#[test]
fn endpoint_and_register_addresses() {
    assert_eq!(COMMAND_ENDPOINT, 0x01);
    assert_eq!(DATA_ENDPOINT, 0x04);
    assert_eq!(READBACK_ENDPOINT, 0x88);
    assert_eq!(CHANNEL_ENABLE_REGISTER, 0x00);
    assert_eq!(FREQUENCY_REGISTER, 0x04);
    assert_eq!(TRANSFER_TIMEOUT_MS, 1000);
}

#[test]
fn single_bit_masks_are_accepted() {
    for bit in 0..8u32 {
        let mask = 1u8 << bit;
        let select = ChannelEnable::from_mask(mask).unwrap();
        assert_eq!(select.mask(), mask);
    }
}

#[test]
fn other_masks_are_rejected() {
    let mut accepted = 0;
    for mask in 0..=255u8 {
        match ChannelEnable::from_mask(mask) {
            Some(select) => {
                assert_eq!(mask.count_ones(), 1);
                assert_eq!(select.mask(), mask);
                accepted += 1;
            }
            None => assert_ne!(mask.count_ones(), 1),
        }
    }
    assert_eq!(accepted, 8);
    assert!(ChannelEnable::from_mask(0).is_none());
    assert!(ChannelEnable::from_mask(0b1100_0000).is_none());
    assert!(ChannelEnable::from_mask(0xff).is_none());
}

#[test]
fn channels_map_to_the_upper_bits() {
    assert_eq!(ChannelEnable::for_channel(0).unwrap().mask(), 0b0001_0000);
    assert_eq!(ChannelEnable::for_channel(1).unwrap().mask(), 0b0010_0000);
    assert_eq!(ChannelEnable::for_channel(2).unwrap().mask(), 0b0100_0000);
    assert_eq!(ChannelEnable::for_channel(3).unwrap().mask(), 0b1000_0000);
    assert!(ChannelEnable::for_channel(4).is_none());
    assert!(ChannelEnable::for_channel(255).is_none());
}

#[test]
fn tuning_word_is_split_most_significant_byte_first() {
    assert_eq!(tuning_word_bytes(0x004E_A4A9), [0x00, 0x4e, 0xa4, 0xa9]);
    assert_eq!(tuning_word_bytes(0x0102_0304), [0x01, 0x02, 0x03, 0x04]);
    assert_eq!(tuning_word_bytes(0), [0, 0, 0, 0]);
    assert_eq!(tuning_word_bytes(u32::MAX), [0xff, 0xff, 0xff, 0xff]);
    assert_eq!(tuning_word_bytes(0x8000_0001), 0x8000_0001u32.to_be_bytes());
}

#[test]
fn serial_register_frame_is_expanded_on_the_data_endpoint() {
    let frame = serial_register_frame(0x04, &[0x00, 0x4e, 0xa4, 0xa9]);
    assert_eq!(frame.endpoint, 0x04);
    assert_eq!(frame.payload, bytes_to_bits(&[0x04, 0x00, 0x4e, 0xa4, 0xa9]));
    assert_eq!(frame.payload.len(), 40);
}

#[test]
fn serial_register_frame_without_data_holds_the_address_alone() {
    let frame = serial_register_frame(0x84, &[]);
    assert_eq!(frame.endpoint, 0x04);
    assert_eq!(frame.payload, vec![0, 0, 1, 0, 0, 0, 0, 1]);
}

#[test]
fn control_strobe_is_sent_raw_on_the_command_endpoint() {
    let frame = control_strobe_frame(0x0c, 0x10);
    assert_eq!(frame.endpoint, 0x01);
    assert_eq!(frame.payload, vec![0x0c, 0x10]);
}

#[test]
fn channel_enable_frame_for_channel_two() {
    let frame = channel_enable_frame(ChannelEnable::from_mask(0b0100_0000).unwrap());
    assert_eq!(frame.endpoint, 0x04);
    assert_eq!(
        frame.payload,
        vec![0, 0, 0, 0, 0, 0, 0, 0, 0, 0, 0, 0, 0, 0, 1, 0]
    );
}

#[test]
fn frequency_frame_for_known_word() {
    let frame = frequency_frame(0x004E_A4A9);
    assert_eq!(frame.endpoint, 0x04);
    assert_eq!(
        frame.payload,
        vec![
            0, 0, 1, 0, 0, 0, 0, 0, 0, 0, 0, 0, 0, 0, 0, 0, 0, 1, 1, 1, 0, 0, 1, 0, 0, 0, 1, 0, 0,
            1, 0, 1, 1, 0, 0, 1, 0, 1, 0, 1
        ]
    );
}

#[test]
fn strobes_have_their_fixed_bytes() {
    let load = load_strobe_frame();
    assert_eq!(load.endpoint, 0x01);
    assert_eq!(load.payload, vec![0x0c, 0x00]);
    let update = update_strobe_frame();
    assert_eq!(update.endpoint, 0x01);
    assert_eq!(update.payload, vec![0x0c, 0x10]);
}

#[test]
fn program_frames_are_the_four_frames_in_order() {
    let select = ChannelEnable::from_mask(0b1000_0000).unwrap();
    let frames = program_frames(select, 0x004E_A4A9);
    assert_eq!(frames.len(), 4);
    assert_eq!(frames[0].endpoint, 0x04);
    assert_eq!(frames[0].payload, bytes_to_bits(&[0x00, 0x80]));
    assert_eq!(frames[1].endpoint, 0x04);
    assert_eq!(frames[1].payload, bytes_to_bits(&[0x04, 0x00, 0x4e, 0xa4, 0xa9]));
    assert_eq!(frames[2].endpoint, 0x01);
    assert_eq!(frames[2].payload, vec![0x0c, 0x00]);
    assert_eq!(frames[3].endpoint, 0x01);
    assert_eq!(frames[3].payload, vec![0x0c, 0x10]);
}

#[test]
fn output_frequency_follows_the_scaling() {
    assert_eq!(output_frequency_hz(0x004E_A4A9, 500_000_000), 600_000);
    assert_eq!(output_frequency_hz(0x004E_A4A9, 25_000_000), 30_000);
    assert_eq!(output_frequency_hz(0x8000_0000, 500_000_000), 250_000_000);
    assert_eq!(output_frequency_hz(0, 500_000_000), 0);
    assert_eq!(output_frequency_hz(1, 1), 0);
    assert_eq!(output_frequency_hz(u32::MAX, u64::MAX), 18_446_744_069_414_584_319);
}
