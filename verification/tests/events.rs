use iec60870::events::Event;
use iec60870::telegram101::Config;
use iec60870::types::datatype::{DataType, M_SP_NA_1, SIQ};
use iec60870::types::COT;

fn value(bytes: &[u8]) -> [u8; 12] {
    let mut v = [0u8; 12];
    v[..bytes.len()].copy_from_slice(bytes);
    v
}

#[test]
fn event_getters() {
    let e = Event::new(3, 0x0a0b0c, DataType::M_SP_NA_1, COT::Spontan, value(&[1]));
    assert_eq!(e.adsu(), 3);
    assert_eq!(e.iou_addr(), 0x0a0b0c);
    assert_eq!(e.tid(), DataType::M_SP_NA_1);
    assert_eq!(e.cot(), COT::Spontan);
    assert_eq!(e.data(), value(&[1]));
    let e = Event::new(3, 1, DataType::M_SP_NA_1, COT::Spontan, M_SP_NA_1 { siq: SIQ::from(0x11) });
    assert_eq!(e.data(), value(&[0x11]));
}

#[test]
fn event_into_networked_telegram() {
    let e = Event::new(3, 0x0a0b0c, DataType::M_SP_NA_1, COT::Spontan, value(&[1]));
    let t = e.into_telegram_104_i();
    assert_eq!(t.send_sn(), 0);
    assert_eq!(t.recv_sn(), 0);
    assert_eq!(t.data_type(), DataType::M_SP_NA_1);
    assert_eq!(t.cot(), COT::Spontan);
    assert_eq!(t.adsu(), 3);
    assert_eq!(t.originator(), 0);
    assert!(!t.is_sequental());
    assert_eq!(t.iou().len(), 1);
    assert_eq!(t.iou()[0].address(), 0x0a0b0c);
    assert_eq!(t.iou()[0].value(), value(&[1]));
    assert_eq!(
        t.into_telegram104().write().unwrap(),
        vec![0x68, 14, 0, 0, 0, 0, 0x01, 0x01, 0x03, 0x00, 0x03, 0x00, 0x0c, 0x0b, 0x0a, 0x01]
    );
}

#[test]
fn event_into_serial_telegram() {
    let e = Event::new(3, 0x0a0b0c, DataType::M_SP_NA_1, COT::Spontan, value(&[1]));
    let t = e.into_telegram_101(Config::new());
    assert!(!t.is_fixed());
    assert_eq!(t.cot(), COT::Spontan);
    assert_eq!(t.adsu(), 3);
    assert_eq!(t.link_address(), 0);
    assert_eq!(t.iou().len(), 1);
    assert_eq!(t.iou()[0].address(), 0x0a0b0c);
    let bytes = t.write().unwrap();
    assert_eq!(
        bytes,
        vec![
            0x68, 12, 12, 0x68, 0x00, 0x00, 0x01, 0x01, 0x03, 0x00, 0x03, 0x00, 0x0c, 0x0b, 0x0a,
            0x01, 0x2a, 0x16
        ]
    );
}
