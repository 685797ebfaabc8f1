use iec60870::telegram101::{Config, Telegram101};
use iec60870::types::datatype::DataType;
use iec60870::types::{Iou, COT};
use iec60870::wire::buf_checksum;
use iec60870::{Error, Malformed};

fn value(bytes: &[u8]) -> [u8; 12] {
    let mut v = [0u8; 12];
    v[..bytes.len()].copy_from_slice(bytes);
    v
}

fn sum(bytes: &[u8]) -> u8 {
    bytes.iter().fold(0u8, |acc, &x| acc.wrapping_add(x))
}

#[test]
fn config_defaults() {
    assert_eq!(Config::new(), Config::default());
    let c = Config::new()
        .with_link_address_len(2)
        .with_originator_address_len(0)
        .with_adsu_address_len(1)
        .with_iou_address_len(2);
    assert_ne!(c, Config::new());
    let back = c
        .with_link_address_len(1)
        .with_originator_address_len(1)
        .with_adsu_address_len(2)
        .with_iou_address_len(3);
    assert_eq!(back, Config::new());
}

#[test]
fn checksum_wraps_at_256() {
    assert_eq!(buf_checksum(&[]), 0);
    assert_eq!(buf_checksum(&[1, 2, 3]), 6);
    assert_eq!(buf_checksum(&[0xff, 0x02]), 0x01);
    assert_eq!(buf_checksum(&[0x80, 0x80, 0x80]), 0x80);
}

#[test]
fn fixed_frame_bytes() {
    let t = Telegram101::new_fixed(Config::new())
        .with_prm(true)
        .with_fcv_dfc(true)
        .with_function_code(9)
        .with_link_address(0x2a);
    assert!(t.is_fixed());
    let bytes = t.write().unwrap();
    assert_eq!(bytes, vec![0x10, 0x59, 0x2a, 0x83, 0x16]);
}

#[test]
fn fixed_frame_round_trip() {
    let config = Config::new().with_link_address_len(2);
    let t = Telegram101::new_fixed(config)
        .with_fcb_acd(true)
        .with_function_code(3)
        .with_link_address(0x1234);
    let bytes = t.write().unwrap();
    assert_eq!(bytes, vec![0x10, 0x23, 0x34, 0x12, 0x69, 0x16]);
    let back = Telegram101::read(&bytes, config).unwrap();
    assert!(back.is_fixed());
    assert_eq!(back.link_address(), 0x1234);
    assert_eq!(back.cot(), COT::Unused);
    assert_eq!(back.data_type(), DataType::ASDU_TYPEUNDEF);
    assert!(back.iou().is_empty());
    assert_eq!(back.write().unwrap(), bytes);
}

#[test]
fn fixed_frame_without_link_address() {
    let config = Config::new().with_link_address_len(0);
    let t = Telegram101::new_fixed(config).with_function_code(0x0b);
    let bytes = t.write().unwrap();
    assert_eq!(bytes, vec![0x10, 0x0b, 0x0b, 0x16]);
    let back = Telegram101::read(&bytes, config).unwrap();
    assert_eq!(back.link_address(), 0);
    assert_eq!(back.write().unwrap(), bytes);
}

#[test]
fn variable_frame_bytes() {
    let mut t = Telegram101::new(DataType::M_SP_NA_1, COT::Spontan, 0x0102, Config::new())
        .with_prm(true)
        .with_function_code(3)
        .with_link_address(5)
        .with_originator(7)
        .with_test();
    t.append_iou(0x030201, value(&[0x01]));
    let bytes = t.write().unwrap();
    let payload = vec![
        0x43, 0x05, 0x01, 0x01, 0x83, 0x07, 0x02, 0x01, 0x01, 0x02, 0x03, 0x01,
    ];
    let mut expected = vec![0x68, 12, 12, 0x68];
    expected.extend(&payload);
    expected.push(sum(&payload));
    expected.push(0x16);
    assert_eq!(bytes, expected);
}

#[test]
fn variable_frame_round_trip() {
    let config = Config::new();
    let mut t = Telegram101::new(DataType::M_ME_NB_1, COT::Inrogen, 0xbeef, config)
        .with_fcb_acd(true)
        .with_function_code(8)
        .with_link_address(0x11)
        .with_originator(0x22)
        .with_negative();
    t.append_iou(0x000001, value(&[0x34, 0x12, 0x00]));
    t.append_iou(0x123456, value(&[0xff, 0x7f, 0x81]));
    let bytes = t.write().unwrap();
    let back = Telegram101::read(&bytes, config).unwrap();
    assert!(!back.is_fixed());
    assert_eq!(back.data_type(), DataType::M_ME_NB_1);
    assert_eq!(back.cot(), COT::Inrogen);
    assert_eq!(back.adsu(), 0xbeef);
    assert_eq!(back.link_address(), 0x11);
    assert_eq!(back.originator(), 0x22);
    assert!(back.is_negative());
    assert!(!back.is_test());
    assert!(!back.is_sequental());
    assert_eq!(back.iou().len(), 2);
    assert_eq!(back.iou()[0].address(), 1);
    assert_eq!(back.iou()[0].value(), value(&[0x34, 0x12, 0x00]));
    assert_eq!(back.iou()[1].address(), 0x123456);
    assert_eq!(back.iou()[1].value(), value(&[0xff, 0x7f, 0x81]));
    assert_eq!(back.write().unwrap(), bytes);
}

#[test]
fn variable_frame_round_trip_with_narrow_addresses() {
    let config = Config::new()
        .with_link_address_len(0)
        .with_originator_address_len(0)
        .with_adsu_address_len(1)
        .with_iou_address_len(1);
    let mut t = Telegram101::new(DataType::M_DP_NA_1, COT::Cyclic, 0x7f, config);
    t.append_iou(0x10, value(&[0x02]));
    let bytes = t.write().unwrap();
    let payload = vec![0x00, 0x03, 0x01, 0x01, 0x7f, 0x10, 0x02];
    let mut expected = vec![0x68, 7, 7, 0x68];
    expected.extend(&payload);
    expected.push(sum(&payload));
    expected.push(0x16);
    assert_eq!(bytes, expected);
    let back = Telegram101::read(&bytes, config).unwrap();
    assert_eq!(back.adsu(), 0x7f);
    assert_eq!(back.iou()[0].address(), 0x10);
    assert_eq!(back.write().unwrap(), bytes);
}

#[test]
fn trailing_bytes_are_ignored() {
    let config = Config::new();
    let mut t = Telegram101::new(DataType::M_SP_NA_1, COT::Spontan, 1, config);
    t.append_iou(9, value(&[1]));
    let mut bytes = t.write().unwrap();
    let exact = bytes.clone();
    bytes.extend([0xde, 0xad]);
    let back = Telegram101::read(&bytes, config).unwrap();
    assert_eq!(back.write().unwrap(), exact);
}

#[test]
fn sequential_objects_count_up_from_the_first_address() {
    let config = Config::new();
    let mut t = Telegram101::new(DataType::M_SP_NA_1, COT::Spontan, 1, config).with_seq();
    t.append_iou(100, value(&[1]));
    t.append_iou_seq(value(&[0]));
    t.append_iou_seq(value(&[1]));
    assert!(t.is_sequental());
    let bytes = t.write().unwrap();
    let payload = vec![0x00, 0x00, 0x01, 0x83, 0x03, 0x00, 0x01, 0x00, 100, 0, 0, 1, 0, 1];
    let mut expected = vec![0x68, 14, 14, 0x68];
    expected.extend(&payload);
    expected.push(sum(&payload));
    expected.push(0x16);
    assert_eq!(bytes, expected);
    let back = Telegram101::read(&bytes, config).unwrap();
    assert!(back.is_sequental());
    let addresses: Vec<u32> = back.iou().iter().map(Iou::address).collect();
    assert_eq!(addresses, vec![100, 101, 102]);
    let values: Vec<u8> = back.iou().iter().map(|o| o.value()[0]).collect();
    assert_eq!(values, vec![1, 0, 1]);
}

#[test]
fn too_long_frame_is_refused() {
    let config = Config::new();
    let mut t = Telegram101::new(DataType::M_BO_TB_1, COT::Spontan, 1, config);
    for i in 0..16 {
        t.append_iou(i, value(&[1, 2, 3, 4, 5, 6, 7, 8, 9, 10, 11, 12]));
    }
    // 1 + 1 + 3 + 1 + 2 + 16 * (3 + 12) = 248
    assert_eq!(t.write().unwrap().len(), 248 + 6);
    t.append_iou(16, value(&[1]));
    // 263 bytes would be needed
    assert_eq!(t.write(), Err(Error::InvalidData(Malformed::TooLong)));
}

#[test]
fn longest_frame_is_accepted() {
    let config = Config::new();
    let mut t = Telegram101::new(DataType::M_SP_NA_1, COT::Spontan, 1, config).with_seq();
    for i in 0..127 {
        t.append_iou(i, value(&[1]));
    }
    // 8 + 3 + 127 = 138
    let bytes = t.write().unwrap();
    assert_eq!(bytes[1], 138);
    let back = Telegram101::read(&bytes, config).unwrap();
    assert_eq!(back.iou().len(), 127);
    assert_eq!(back.iou()[126].address(), 126);
}

#[test]
fn too_many_objects_are_refused() {
    let config = Config::new();
    let mut t = Telegram101::new(DataType::C_RD_NA_1, COT::Req, 1, config).with_seq();
    for _ in 0..128 {
        t.append_iou_seq(value(&[]));
    }
    assert_eq!(t.write(), Err(Error::InvalidData(Malformed::TooManyObjects)));
    t.clear_iou();
    assert!(t.write().is_ok());
}

#[test]
fn serial_read_errors() {
    let config = Config::new();
    assert_eq!(Telegram101::read(&[], config).err(), Some(Error::Io));
    assert_eq!(
        Telegram101::read(&[0x11, 0, 0, 0], config).err(),
        Some(Error::InvalidData(Malformed::Header))
    );
    assert_eq!(Telegram101::read(&[0x68, 1, 1], config).err(), Some(Error::Io));
    assert_eq!(
        Telegram101::read(&[0x68, 1, 2, 0x68], config).err(),
        Some(Error::InvalidData(Malformed::Length))
    );
    assert_eq!(
        Telegram101::read(&[0x68, 254, 254, 0x68], config).err(),
        Some(Error::InvalidData(Malformed::TooLong))
    );
    assert_eq!(
        Telegram101::read(&[0x68, 1, 1, 0x10], config).err(),
        Some(Error::InvalidData(Malformed::Header))
    );
    assert_eq!(Telegram101::read(&[0x68, 2, 2, 0x68, 1, 2, 3], config).err(), Some(Error::Io));
    assert_eq!(
        Telegram101::read(&[0x68, 2, 2, 0x68, 1, 2, 4, 0x16], config).err(),
        Some(Error::InvalidData(Malformed::Checksum))
    );
    assert_eq!(
        Telegram101::read(&[0x68, 2, 2, 0x68, 1, 2, 3, 0x17], config).err(),
        Some(Error::InvalidData(Malformed::Stop))
    );
    // the payload ends before the fixed fields do
    assert_eq!(
        Telegram101::read(&[0x68, 2, 2, 0x68, 1, 2, 3, 0x16], config).err(),
        Some(Error::Io)
    );
}

#[test]
fn read_refuses_unknown_data_type() {
    let config = Config::new();
    let payload = vec![0x00, 0x00, 22, 0x00, 0x03, 0x00, 0x01, 0x00];
    let mut bytes = vec![0x68, 8, 8, 0x68];
    bytes.extend(&payload);
    bytes.push(sum(&payload));
    bytes.push(0x16);
    assert_eq!(
        Telegram101::read(&bytes, config).err(),
        Some(Error::InvalidData(Malformed::DataType(22)))
    );
}

#[test]
fn read_refuses_truncated_object_list() {
    let config = Config::new();
    // one single-point object announced, its value missing
    let payload = vec![0x00, 0x00, 0x01, 0x01, 0x03, 0x00, 0x01, 0x00, 0x05, 0x00, 0x00];
    let mut bytes = vec![0x68, 11, 11, 0x68];
    bytes.extend(&payload);
    bytes.push(sum(&payload));
    bytes.push(0x16);
    assert_eq!(Telegram101::read(&bytes, config).err(), Some(Error::Io));
}

#[test]
fn fixed_read_errors() {
    let config = Config::new();
    assert_eq!(Telegram101::read(&[0x10, 0x49, 0x01], config).err(), Some(Error::Io));
    assert_eq!(
        Telegram101::read(&[0x10, 0x49, 0x01, 0x4b, 0x16], config).err(),
        Some(Error::InvalidData(Malformed::Checksum))
    );
    assert_eq!(
        Telegram101::read(&[0x10, 0x49, 0x01, 0x4a, 0x00], config).err(),
        Some(Error::InvalidData(Malformed::Stop))
    );
    let t = Telegram101::read(&[0x10, 0x49, 0x01, 0x4a, 0x16], config).unwrap();
    assert_eq!(t.link_address(), 1);
    assert!(t.is_fixed());
}

#[test]
fn serial_bytes_needed_follows_the_frame() {
    let config = Config::new();
    assert_eq!(Telegram101::bytes_needed(&[], config), 1);
    assert_eq!(Telegram101::bytes_needed(&[0x68], config), 3);
    assert_eq!(Telegram101::bytes_needed(&[0x68, 9, 9, 0x68], config), 11);
    assert_eq!(Telegram101::bytes_needed(&[0x68, 9, 8, 0x68], config), 0);
    assert_eq!(Telegram101::bytes_needed(&[0x68, 1, 1, 0x68, 0, 0, 0x16], config), 0);
    assert_eq!(Telegram101::bytes_needed(&[0x10], config), 4);
    assert_eq!(Telegram101::bytes_needed(&[0x10, 1, 2, 3, 4], config), 0);
    assert_eq!(Telegram101::bytes_needed(&[0x42], config), 0);
    assert_eq!(
        Telegram101::bytes_needed(&[0x10], Config::new().with_link_address_len(0)),
        3
    );
}

#[test]
fn builders_and_getters() {
    let config = Config::new();
    let t = Telegram101::new(DataType::C_IC_NA_1, COT::Act, 3, config)
        .with_iou(vec![Iou::new(0, value(&[20]))]);
    assert_eq!(t.iou().len(), 1);
    assert_eq!(t.cot(), COT::Act);
    assert!(!t.is_fixed());
    let mut t = t;
    t.iou_mut()[0] = Iou::new(4, value(&[21]));
    assert_eq!(t.iou()[0].address(), 4);
    assert_eq!(t.iou()[0].value()[0], 21);
    t.clear_iou();
    assert!(t.iou().is_empty());
}
