use awake_on_proxy::MacAddr;
use awake_on_proxy::wol::magic_packet;

#[test]
fn magic_packet_exact_bytes() {
    let mac = MacAddr::parse(b"00:11:22:33:44:55").unwrap();
    let pkt = magic_packet(&mac);
    let mut expected: Vec<u8> = vec![0xff; 6];
    for _ in 0..16 {
        expected.extend_from_slice(&[0x00, 0x11, 0x22, 0x33, 0x44, 0x55]);
    }
    assert_eq!(pkt, expected);
}

#[test]
fn magic_packet_length_and_header() {
    let mac = MacAddr { octets: [0xb4, 0x2e, 0x99, 0x82, 0x34, 0x5a] };
    let pkt = magic_packet(&mac);
    assert_eq!(pkt.len(), 102);
    assert_eq!(&pkt[..6], &[0xff; 6]);
    for rep in 0..16 {
        assert_eq!(&pkt[6 + rep * 6..12 + rep * 6], &mac.octets);
    }
}
