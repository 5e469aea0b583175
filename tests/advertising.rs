use rusty_rover::{ad_structure, advertising_data, device_name, scan_response, short_name};

#[test]
fn names() {
    assert_eq!(device_name(), b"RustyRover".to_vec());
    assert_eq!(short_name(), b"Rusty".to_vec());
}

#[test]
fn advertising_payload_bytes() {
    let adv = advertising_data(&short_name()).unwrap();
    assert_eq!(adv, vec![2, 0x01, 0x06, 6, 0x08, b'R', b'u', b's', b't', b'y']);
}

#[test]
fn scan_response_bytes() {
    let resp = scan_response(&device_name()).unwrap();
    assert_eq!(
        resp,
        vec![11, 0x09, b'R', b'u', b's', b't', b'y', b'R', b'o', b'v', b'e', b'r']
    );
}

#[test]
fn ad_structure_of_empty_data() {
    assert_eq!(ad_structure(0x09, &[]), vec![1, 0x09]);
}

#[test]
fn payloads_that_do_not_fit_are_refused() {
    assert!(advertising_data(&[b'x'; 26]).is_some());
    assert!(advertising_data(&[b'x'; 27]).is_none());
    assert_eq!(scan_response(&[b'x'; 29]).unwrap().len(), 31);
    assert!(scan_response(&[b'x'; 30]).is_none());
}
