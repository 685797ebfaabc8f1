use iec60870::telegram104::{
    ChatSequenceCounter, Telegram104, Telegram104_I, Telegram104_S, Telegram104_U,
};
use iec60870::types::datatype::DataType;
use iec60870::types::{Iou, COT};
use iec60870::{Error, Malformed};

fn value(bytes: &[u8]) -> [u8; 12] {
    let mut v = [0u8; 12];
    v[..bytes.len()].copy_from_slice(bytes);
    v
}

fn counter_at(tx: u16, rx: u16) -> ChatSequenceCounter {
    let mut c = ChatSequenceCounter::new();
    for _ in 0..tx {
        c.increment_tx();
    }
    for _ in 0..rx {
        c.increment_rx();
    }
    c
}

#[test]
fn counter_starts_at_zero_and_counts() {
    let mut c = ChatSequenceCounter::new();
    assert_eq!(c.current_tx(), 0);
    assert_eq!(c.current_rx(), 0);
    assert_eq!(c.increment_tx(), 1);
    assert_eq!(c.increment_tx(), 2);
    assert_eq!(c.increment_rx(), 1);
    assert_eq!(c.current_tx(), 2);
    assert_eq!(c.current_rx(), 1);
    c.reset();
    assert_eq!(c.current_tx(), 0);
    assert_eq!(c.current_rx(), 0);
}

#[test]
fn counter_wraps_after_32767() {
    let mut c = counter_at(32767, 32767);
    assert_eq!(c.current_tx(), 32767);
    assert_eq!(c.increment_tx(), 32768);
    assert_eq!(c.current_tx(), 0);
    assert_eq!(c.current_rx(), 32767);
    assert_eq!(c.increment_rx(), 32768);
    assert_eq!(c.current_rx(), 0);
}

#[test]
fn u_frame_bytes() {
    assert_eq!(Telegram104::new_start_dt().write().unwrap(), vec![0x68, 4, 0x07, 0, 0, 0]);
    assert_eq!(Telegram104::new_stop_dt().write().unwrap(), vec![0x68, 4, 0x13, 0, 0, 0]);
    assert_eq!(Telegram104::new_test().write().unwrap(), vec![0x68, 4, 0x43, 0, 0, 0]);
}

#[test]
fn u_frame_round_trip() {
    for control in [0x07u8, 0x0b, 0x13, 0x23, 0x43, 0x83, 0x03] {
        let bytes = vec![0x68, 4, control, 0, 0, 0];
        let t = Telegram104::read(&bytes).unwrap();
        assert!(matches!(t, Telegram104::U(_)));
        assert_eq!(t.write().unwrap(), bytes);
    }
}

#[test]
fn u_frame_flags() {
    let t = Telegram104::read(&[0x68, 4, 0x0b, 0, 0, 0]).unwrap();
    match t {
        Telegram104::U(u) => {
            assert!(u.is_start_dt());
            assert!(u.is_con());
            assert!(!u.is_stop_dt());
            assert!(!u.is_test());
        }
        _ => panic!("not a U-frame"),
    }
    let u = Telegram104_U::new_test();
    assert!(u.is_test());
    assert!(!u.is_con());
    assert!(matches!(u.into_telegram104(), Telegram104::U(_)));
    assert!(matches!(Telegram104::from(Telegram104_U::new_stop_dt()), Telegram104::U(_)));
}

#[test]
fn s_frame_bytes_and_round_trip() {
    let counter = counter_at(0, 300);
    let mut counter = counter;
    let mut s = Telegram104_S::new();
    assert_eq!(s.recv_sn(), 0);
    s.chat_sequence_apply_outgoing(&mut counter);
    assert_eq!(s.recv_sn(), 300);
    assert_eq!(counter.current_rx(), 300);
    assert_eq!(counter.current_tx(), 0);
    let bytes = s.into_telegram104().write().unwrap();
    // 300 = 0b10_0101100: low seven bits 0x2c shifted left, then the rest
    assert_eq!(bytes, vec![0x68, 4, 0x01, 0x00, 0x58, 0x02]);
    match Telegram104::read(&bytes).unwrap() {
        Telegram104::S(back) => assert_eq!(back.recv_sn(), 300),
        _ => panic!("not an S-frame"),
    }
}

#[test]
fn s_frame_validation() {
    let mut counter = counter_at(5, 0);
    let s = match Telegram104::read(&[0x68, 4, 0x01, 0x00, 0x0a, 0x00]).unwrap() {
        Telegram104::S(s) => s,
        _ => panic!("not an S-frame"),
    };
    assert_eq!(s.recv_sn(), 5);
    assert_eq!(s.chat_sequence_validate_incoming(&mut counter), Ok(()));
    assert_eq!(counter.current_tx(), 5);
    assert_eq!(counter.current_rx(), 0);
    counter.increment_tx();
    assert_eq!(
        s.chat_sequence_validate_incoming(&mut counter),
        Err(Error::ChatSequence(5, 6))
    );
}

#[test]
fn i_frame_bytes() {
    let mut t = Telegram104_I::new(DataType::M_SP_NA_1, COT::Spontan, 0x0102)
        .with_send_sn(2)
        .with_recv_sn(3)
        .with_originator(9)
        .with_test();
    t.append_iou(0x030201, value(&[0x01]));
    let bytes = t.into_telegram104().write().unwrap();
    assert_eq!(
        bytes,
        vec![
            0x68, 14, 0x04, 0x00, 0x06, 0x00, 0x01, 0x01, 0x83, 0x09, 0x02, 0x01, 0x01, 0x02,
            0x03, 0x01
        ]
    );
}

#[test]
fn i_frame_round_trip() {
    let mut t = Telegram104_I::new(DataType::M_ME_NB_1, COT::Inro3, 0xbeef)
        .with_send_sn(32767)
        .with_recv_sn(12345)
        .with_originator(0x22)
        .with_negative();
    t.append_iou(0x000001, value(&[0x34, 0x12, 0x00]));
    t.append_iou(0x123456, value(&[0xff, 0x7f, 0x81]));
    let bytes = Telegram104::from(t).write().unwrap();
    let back = match Telegram104::read(&bytes).unwrap() {
        Telegram104::I(i) => i,
        _ => panic!("not an I-frame"),
    };
    assert_eq!(back.send_sn(), 32767);
    assert_eq!(back.recv_sn(), 12345);
    assert_eq!(back.data_type(), DataType::M_ME_NB_1);
    assert_eq!(back.cot(), COT::Inro3);
    assert_eq!(back.adsu(), 0xbeef);
    assert_eq!(back.originator(), 0x22);
    assert!(back.is_negative());
    assert!(!back.is_test());
    assert!(!back.is_sequental());
    assert_eq!(back.iou().len(), 2);
    assert_eq!(back.iou()[0].address(), 1);
    assert_eq!(back.iou()[0].value(), value(&[0x34, 0x12, 0x00]));
    assert_eq!(back.iou()[1].address(), 0x123456);
    assert_eq!(back.iou()[1].value(), value(&[0xff, 0x7f, 0x81]));
    assert_eq!(back.into_telegram104().write().unwrap(), bytes);
}

#[test]
fn i_frame_sequential_addresses() {
    let mut t = Telegram104_I::new(DataType::M_SP_NA_1, COT::Spontan, 1);
    t.append_iou(100, value(&[1]));
    t.append_iou_seq(value(&[0]));
    t.append_iou_seq(value(&[1]));
    let bytes = t.into_telegram104().write().unwrap();
    assert_eq!(
        bytes,
        vec![0x68, 16, 0, 0, 0, 0, 0x01, 0x83, 0x03, 0x00, 0x01, 0x00, 100, 0, 0, 1, 0, 1]
    );
    let back = match Telegram104::read(&bytes).unwrap() {
        Telegram104::I(i) => i,
        _ => panic!("not an I-frame"),
    };
    assert!(back.is_sequental());
    let addresses: Vec<u32> = back.iou().iter().map(Iou::address).collect();
    assert_eq!(addresses, vec![100, 101, 102]);
}

#[test]
fn i_frame_write_errors() {
    let t = Telegram104_I::new(DataType::M_SP_NA_1, COT::Spontan, 1).with_send_sn(32768);
    assert_eq!(
        t.into_telegram104().write(),
        Err(Error::InvalidData(Malformed::SendSequence))
    );
    let t = Telegram104_I::new(DataType::M_SP_NA_1, COT::Spontan, 1).with_recv_sn(40000);
    assert_eq!(
        t.into_telegram104().write(),
        Err(Error::InvalidData(Malformed::ReceiveSequence))
    );
    let mut t = Telegram104_I::new(DataType::C_RD_NA_1, COT::Req, 1);
    for _ in 0..256 {
        t.append_iou_seq(value(&[]));
    }
    assert_eq!(
        t.into_telegram104().write(),
        Err(Error::InvalidData(Malformed::TooManyObjects))
    );
    let mut t = Telegram104_I::new(DataType::M_BO_TB_1, COT::Spontan, 1);
    for i in 0..16 {
        t.append_iou(i, value(&[1, 2, 3, 4, 5, 6, 7, 8, 9, 10, 11, 12]));
    }
    // 4 + 6 + 16 * 15 = 250
    let ok = t.clone().into_telegram104().write().unwrap();
    assert_eq!(ok[1], 250);
    assert_eq!(ok.len(), 252);
    t.append_iou(16, value(&[1]));
    assert_eq!(t.into_telegram104().write(), Err(Error::InvalidData(Malformed::TooLong)));
}

#[test]
fn i_frame_without_objects_is_four_control_bytes() {
    let t = Telegram104_I::new(DataType::M_SP_NA_1, COT::Spontan, 1).with_send_sn(1);
    let bytes = t.into_telegram104().write().unwrap();
    assert_eq!(bytes, vec![0x68, 4, 0x02, 0x00, 0x00, 0x00]);
    assert_eq!(
        Telegram104::read(&bytes).err(),
        Some(Error::InvalidData(Malformed::ControlField))
    );
}

#[test]
fn networked_read_errors() {
    assert_eq!(Telegram104::read(&[]).err(), Some(Error::Io));
    assert_eq!(Telegram104::read(&[0x68]).err(), Some(Error::Io));
    assert_eq!(
        Telegram104::read(&[0x67, 4, 0x07, 0, 0, 0]).err(),
        Some(Error::InvalidData(Malformed::Header))
    );
    assert_eq!(
        Telegram104::read(&[0x68, 254]).err(),
        Some(Error::InvalidData(Malformed::TooLong))
    );
    assert_eq!(Telegram104::read(&[0x68, 4, 0x07, 0, 0]).err(), Some(Error::Io));
    assert_eq!(
        Telegram104::read(&[0x68, 3, 0x07, 0, 0]).err(),
        Some(Error::InvalidData(Malformed::TooShort))
    );
    assert_eq!(
        Telegram104::read(&[0x68, 4, 0x02, 0, 0, 0]).err(),
        Some(Error::InvalidData(Malformed::ControlField))
    );
    assert_eq!(
        Telegram104::read(&[0x68, 4, 0x01, 0, 0x01, 0]).err(),
        Some(Error::InvalidData(Malformed::ControlField))
    );
    // an I-frame whose first control byte has bit 0 set
    assert_eq!(
        Telegram104::read(&[0x68, 5, 0x01, 0, 0, 0, 1]).err(),
        Some(Error::InvalidData(Malformed::ControlField))
    );
    assert_eq!(
        Telegram104::read(&[0x68, 5, 0x00, 0, 0, 0, 22]).err(),
        Some(Error::InvalidData(Malformed::DataType(22)))
    );
}

#[test]
fn read_refuses_object_list_past_the_buffer() {
    // 127 objects of 12 bytes with 3-byte addresses do not fit in 253 bytes
    let mut bytes = vec![0x68, 10, 0, 0, 0, 0, 33, 0x7f, 0x03, 0x00, 0x01, 0x00];
    assert_eq!(Telegram104::read(&bytes).err(), Some(Error::Io));
    // a short frame is read as if zeros followed it
    bytes[7] = 0x01;
    let t = match Telegram104::read(&bytes).unwrap() {
        Telegram104::I(i) => i,
        _ => panic!("not an I-frame"),
    };
    assert_eq!(t.iou().len(), 1);
    assert_eq!(t.iou()[0].address(), 0);
    assert_eq!(t.iou()[0].value(), [0u8; 12]);
}

#[test]
fn networked_bytes_needed_follows_the_frame() {
    assert_eq!(Telegram104::bytes_needed(&[]), 2);
    assert_eq!(Telegram104::bytes_needed(&[0x68]), 1);
    assert_eq!(Telegram104::bytes_needed(&[0x68, 4]), 4);
    assert_eq!(Telegram104::bytes_needed(&[0x68, 4, 1, 2]), 2);
    assert_eq!(Telegram104::bytes_needed(&[0x68, 4, 1, 2, 3, 4]), 0);
    assert_eq!(Telegram104::bytes_needed(&[0x67, 4]), 0);
    assert_eq!(Telegram104::bytes_needed(&[0x68, 255]), 0);
}

#[test]
fn outgoing_i_frame_takes_both_counters_and_advances_send() {
    let mut counter = counter_at(7, 9);
    let mut t = Telegram104::I(Telegram104_I::new(DataType::M_SP_NA_1, COT::Spontan, 1));
    t.chat_sequence_apply_outgoing(&mut counter);
    match &t {
        Telegram104::I(i) => {
            assert_eq!(i.send_sn(), 7);
            assert_eq!(i.recv_sn(), 9);
        }
        _ => panic!("not an I-frame"),
    }
    assert_eq!(counter.current_tx(), 8);
    assert_eq!(counter.current_rx(), 9);
    let mut u = Telegram104::new_test();
    u.chat_sequence_apply_outgoing(&mut counter);
    assert_eq!(counter.current_tx(), 8);
    assert_eq!(u.chat_sequence_validate_incoming(&mut counter), Ok(()));
    assert_eq!(counter.current_rx(), 9);
}

#[test]
fn incoming_i_frame_must_carry_the_receive_counter() {
    let mut counter = counter_at(0, 4);
    let t = Telegram104_I::new(DataType::M_SP_NA_1, COT::Spontan, 1).with_send_sn(5);
    assert_eq!(
        t.chat_sequence_validate_incoming(&mut counter),
        Err(Error::ChatSequence(5, 4))
    );
    assert_eq!(counter.current_rx(), 4);
    let t = t.with_send_sn(4);
    assert_eq!(t.chat_sequence_validate_incoming(&mut counter), Ok(()));
    assert_eq!(counter.current_rx(), 5);
    assert_eq!(counter.current_tx(), 0);
    let t = Telegram104::from(t);
    assert_eq!(
        t.chat_sequence_validate_incoming(&mut counter),
        Err(Error::ChatSequence(4, 5))
    );
}

#[test]
fn i_frame_builders() {
    let t = Telegram104_I::new(DataType::M_SP_NA_1, COT::Spontan, 1)
        .with_cot(COT::Act)
        .with_data_type(DataType::C_SC_NA_1)
        .with_adsu(77)
        .with_seq()
        .with_iou(vec![Iou::new(3, value(&[1]))]);
    assert_eq!(t.cot(), COT::Act);
    assert_eq!(t.data_type(), DataType::C_SC_NA_1);
    assert_eq!(t.adsu(), 77);
    assert!(t.is_sequental());
    let mut t = t;
    t.iou_mut()[0] = Iou::new(8, value(&[0]));
    assert_eq!(t.iou()[0].address(), 8);
    t.clear_iou();
    assert!(t.iou().is_empty());
}
