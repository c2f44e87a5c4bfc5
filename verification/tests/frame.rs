use new_arp_scan::frame::{rfc_826_arp_field, ETHERNET_II_HEADER_LENGTH};

#[test]
fn arp_field_is_read_after_the_ethernet_header() {
    let mut frame = vec![0u8; ETHERNET_II_HEADER_LENGTH];
    frame.extend_from_slice(&[0x00, 0x01, 0x08, 0x00, 6, 4, 0x00, 0x01]);
    assert_eq!(rfc_826_arp_field(&frame, 0, 2), 1u16.to_be_bytes());
    assert_eq!(rfc_826_arp_field(&frame, 2, 2), 0x0800u16.to_be_bytes());
    assert_eq!(rfc_826_arp_field(&frame, 4, 1), [6]);
    assert_eq!(rfc_826_arp_field(&frame, 5, 1), [4]);
    assert_eq!(rfc_826_arp_field(&frame, 6, 2), 1u16.to_be_bytes());
    assert_eq!(rfc_826_arp_field(&frame, 8, 0), [0u8; 0]);
}
