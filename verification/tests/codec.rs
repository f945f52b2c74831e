use librazer::report::RazerReport;

fn sample_report() -> RazerReport {
    let mut r = RazerReport::init(0x04, 0x85, 0x07);
    r.status = 0x02;
    r.transaction_id = 0x3f;
    r.remaining_packets = 0x0102;
    r.arguments[0] = 0x01;
    r.arguments[1] = 0xab;
    r.arguments[79] = 0x7f;
    r.crc = 0x55;
    r.reserved = 0x00;
    r
}

#[test]
fn pack_is_ninety_bytes() {
    let packed = sample_report().pack();
    assert_eq!(packed.len(), 90);
}

#[test]
fn pack_layout_matches_wire_format() {
    let packed = sample_report().pack();
    assert_eq!(packed[0], 0x02); // status
    assert_eq!(packed[1], 0x3f); // transaction id
    assert_eq!(packed[2], 0x01); // remaining_packets, big-endian high byte
    assert_eq!(packed[3], 0x02); // remaining_packets, big-endian low byte
    assert_eq!(packed[4], 0x00); // protocol type
    assert_eq!(packed[5], 0x07); // data size
    assert_eq!(packed[6], 0x04); // command class
    assert_eq!(packed[7], 0x85); // command id
    assert_eq!(packed[8], 0x01); // first argument byte
    assert_eq!(packed[9], 0xab);
    assert_eq!(packed[87], 0x7f); // last argument byte
    assert_eq!(packed[88], 0x55); // crc as stored
    assert_eq!(packed[89], 0x00); // reserved
}

#[test]
fn unpack_of_pack_restores_every_field() {
    let r = sample_report();
    let packed = r.pack();
    let d = RazerReport::unpack(&packed).expect("a 90-byte frame must decode");
    assert_eq!(d, r);
    assert_eq!(d.remaining_packets, 0x0102);
}

#[test]
fn unpack_rejects_wrong_lengths() {
    assert!(RazerReport::unpack(&[0u8; 89]).is_none());
    assert!(RazerReport::unpack(&[0u8; 91]).is_none());
    assert!(RazerReport::unpack(&[]).is_none());
    assert!(RazerReport::unpack(&[0u8; 90]).is_some());
}

#[test]
fn from_reads_without_byte_order_conversion() {
    let mut frame = [0u8; 90];
    frame[2] = 0x01;
    frame[3] = 0x02;
    let raw = RazerReport::from(&frame).unwrap();
    // low byte first in memory order
    assert_eq!(raw.remaining_packets, 0x0201);
    let decoded = RazerReport::unpack(&frame).unwrap();
    // big-endian on the wire
    assert_eq!(decoded.remaining_packets, 0x0102);
}

#[test]
fn byte_order_swap_round_trips() {
    let r = sample_report();
    let swapped = r.to_network_byte_order();
    assert_eq!(swapped.remaining_packets, 0x0201);
    let back = swapped.to_host_byte_order();
    assert_eq!(back, r);
}

#[test]
fn update_crc_is_xor_over_offsets_2_through_87() {
    let mut r = sample_report();
    r.update_crc();
    let frame = r.pack();
    let expected = frame[2..88].iter().fold(0u8, |acc, b| acc ^ b);
    assert_eq!(r.crc, expected);
    assert_eq!(frame[88], expected);
}

#[test]
fn update_crc_ignores_prior_crc_contents() {
    let mut a = sample_report();
    let mut b = sample_report();
    a.crc = 0x00;
    b.crc = 0xff;
    a.update_crc();
    b.update_crc();
    assert_eq!(a.crc, b.crc);
    assert_eq!(a, b);
}

#[test]
fn crc_of_polling_rate_query() {
    let mut r = RazerReport::init(0x00, 0x85, 0x01);
    r.update_crc();
    // window bytes: 00 00 | 00 01 00 85 | 80 zero arguments
    assert_eq!(r.crc, 0x84);
}

#[test]
fn default_report_is_all_zero() {
    let r = RazerReport::default();
    assert_eq!(r.pack(), vec![0u8; 90]);
}

#[test]
fn new_copies_arguments_and_sets_data_size() {
    let r = RazerReport::new(0x0f, 0x03, &[0xaa, 0xbb, 0xcc]);
    assert_eq!(r.command_class, 0x0f);
    assert_eq!(r.command_id, 0x03);
    assert_eq!(r.data_size, 3);
    assert_eq!(&r.arguments[..3], &[0xaa, 0xbb, 0xcc]);
    assert!(r.arguments[3..].iter().all(|&b| b == 0));
}

#[test]
fn pack_mut_converts_in_place() {
    let mut r = sample_report();
    let frame = r.pack_mut();
    assert_eq!(frame, sample_report().pack());
    assert_eq!(r.remaining_packets, 0x0201);
}
