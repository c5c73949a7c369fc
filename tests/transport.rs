use gloryctl::transport::{
    message_frame, reply_buffer, request_frame, version_bytes, with_write_magic,
    HW_CONF_WRITE_MAGIC, HW_REPORT_DATA,
};

#[test]
fn control_frames() {
    assert_eq!(message_frame(0x02, 1), [5, 0x02, 1, 0, 0, 0]);
    assert_eq!(request_frame(0x11), [5, 0x11, 0, 0, 0, 0]);
    let buf = reply_buffer();
    assert_eq!(buf[0], HW_REPORT_DATA);
    assert!(buf[1..].iter().all(|&b| b == 0));
}

#[test]
fn write_marker_in_byte_three() {
    let mut data = [0u8; 520];
    data[3] = 0x99;
    data[4] = 0x11;
    let out = with_write_magic(&data, HW_CONF_WRITE_MAGIC);
    assert_eq!(out[3], 0x7b);
    assert_eq!(out[4], 0x11);
    assert_eq!(data[3], 0x99);
}

#[test]
fn firmware_version_reply() {
    assert_eq!(version_bytes(&[5, 1, b'V', b'1', b'.', b'2']), Some(*b"V1.2"));
    assert_eq!(version_bytes(&[5, 2, b'V', b'1', b'.', b'2']), None);
    assert_eq!(version_bytes(&[5, 1, b'V']), None);
}
