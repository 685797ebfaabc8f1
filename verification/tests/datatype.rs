use iec60870::types::datatype::{
    DataType, BCR, BSI, COI, C_CI_NA_1, C_CS_NA_1, C_RD_NA_1, C_SC_NA_1, C_SE_NC_1, C_TS_NA_1,
    C_TS_TA_1, DCO, DIQ, DPI, EventState, FRZ, KPA, LPC, M_EI_NA_1, M_EP_TA_1, M_IT_NA_1,
    M_ME_NA_1, M_ME_ND_1, M_ME_TF_1, M_SP_NA_1, M_SP_TA_1, M_SP_TB_1, M_ST_NA_1, M_ST_TB_1, NVA,
    OCI, P_ME_NA_1, QDP, QDS, QL, QOI, QOS, QPA, QPM, QRP, QU, R32, RCO, RCS, RQT, SCO, SEP, SIQ,
    SPI, SVA, SelectExecute, SeqQD, StartEP, VTI,
};
use iec60870::types::time::{CP16Time2a, CP24Time2a, CP56Time2a, DayOfWeek};
use iec60870::types::{DataBuffer, Iou, COT, MAX_IEC_DATA_LEN};
use iec60870::Error;

fn buffer(bytes: &[u8]) -> DataBuffer {
    let mut v = [0u8; 12];
    v[..bytes.len()].copy_from_slice(bytes);
    v
}

fn sample_time() -> CP56Time2a {
    CP56Time2a {
        ms: 56789,
        min: 34,
        iv: false,
        hour: 18,
        day: 30,
        month: 7,
        year: 24,
        su: true,
        dow: DayOfWeek::Tuesday,
    }
}

const SAMPLE_TIME: [u8; 7] = [0xD5, 0xDD, 0x22, 0x92, 0b0101_1110, 0x07, 0x18];

#[test]
fn buffer_length() {
    assert_eq!(MAX_IEC_DATA_LEN, 12);
    let iou = Iou::new(5, buffer(&[1, 2]));
    assert_eq!(iou.address(), 5);
    assert_eq!(iou.value(), buffer(&[1, 2]));
    let iou = Iou::new(6, M_SP_NA_1 { siq: SIQ::from(0x81) });
    assert_eq!(iou.value(), buffer(&[0x81]));
}

#[test]
fn size_of_single_point_with_and_without_time() {
    assert_eq!(DataType::M_SP_NA_1.size(), 1);
    assert_eq!(DataType::M_SP_TA_1.size(), 1 + 3);
    assert_eq!(DataType::M_SP_TB_1.size(), 1 + 7);
}

#[test]
fn sizes_of_all_data_types() {
    let expected: [(u8, usize); 60] = [
        (0, 0), (1, 1), (2, 4), (3, 1), (4, 4), (5, 2), (6, 5), (7, 5), (8, 8), (9, 3),
        (10, 6), (11, 3), (12, 6), (13, 5), (14, 8), (15, 5), (16, 8), (17, 6), (18, 7),
        (19, 7), (20, 5), (21, 2), (30, 8), (31, 8), (32, 9), (33, 12), (34, 10), (35, 10),
        (36, 12), (37, 12), (38, 10), (39, 11), (40, 11), (45, 1), (46, 1), (47, 1), (48, 3),
        (49, 3), (50, 5), (51, 4), (58, 8), (59, 8), (60, 8), (61, 10), (62, 10), (63, 12),
        (64, 11), (70, 1), (100, 1), (101, 1), (102, 0), (103, 7), (104, 2), (105, 1),
        (106, 2), (107, 9), (110, 3), (111, 3), (112, 5), (113, 1),
    ];
    for (code, size) in expected {
        let t = DataType::try_from(code).unwrap();
        assert_eq!(t.code(), code);
        assert_eq!(t.size(), size);
    }
    let known = (0..=255u8).filter(|c| DataType::try_from(*c).is_ok()).count();
    assert_eq!(known, 60);
}

#[test]
fn unknown_data_type_is_refused() {
    assert_eq!(DataType::try_from(22), Err(Error::DataType(22)));
    assert_eq!(DataType::try_from(120), Err(Error::DataType(120)));
    assert_eq!(DataType::try_from(255), Err(Error::DataType(255)));
    assert_eq!(DataType::try_from(103), Ok(DataType::C_CS_NA_1));
    assert_eq!(DataType::default(), DataType::ASDU_TYPEUNDEF);
}

#[test]
fn cause_codes() {
    for code in 0..64u8 {
        assert_eq!(COT::try_from(code).unwrap().code(), code);
    }
    assert_eq!(COT::try_from(3), Ok(COT::Spontan));
    assert_eq!(COT::try_from(20), Ok(COT::Inrogen));
    assert_eq!(COT::try_from(47), Ok(COT::UnknownObjectAddress));
    assert_eq!(COT::try_from(64), Err(Error::COT(64)));
    assert_eq!(COT::try_from(255), Err(Error::COT(255)));
}

#[test]
fn point_states() {
    assert_eq!(SPI::from(true), SPI::On);
    assert_eq!(SPI::from(false), SPI::Off);
    assert!(bool::from(SPI::On));
    assert!(!bool::from(SPI::Off));
    assert_eq!(SPI::from(0u8), SPI::Off);
    assert_eq!(SPI::from(7u8), SPI::On);
    assert_eq!(SPI::On.code(), 1);
    assert_eq!(DPI::from(true), DPI::On);
    assert_eq!(DPI::from(false), DPI::Off);
    assert!(bool::from(DPI::On));
    assert!(!bool::from(DPI::Indeterminate3));
    assert_eq!(DPI::from(0u8), DPI::Indeterminate0);
    assert_eq!(DPI::from(1u8), DPI::Off);
    assert_eq!(DPI::from(2u8), DPI::On);
    assert_eq!(DPI::from(9u8), DPI::Indeterminate3);
    assert_eq!(DPI::Indeterminate3.code(), 3);
    assert_eq!(EventState::from(true), EventState::On);
    assert!(!bool::from(EventState::Off));
    assert_eq!(EventState::from(2u8), EventState::On);
    assert_eq!(EventState::On.code(), 2);
    assert_eq!(SPI::default(), SPI::Off);
    assert_eq!(SelectExecute::default(), SelectExecute::Select);
}

#[test]
fn siq_diq_qds_bits() {
    let siq = SIQ::from(0b1001_0001);
    assert_eq!(siq, SIQ { iv: true, nt: false, sb: false, bl: true, spi: SPI::On });
    assert_eq!(u8::from(SIQ { iv: true, nt: false, sb: true, bl: false, spi: SPI::On }), 0xA1);
    let diq = DIQ::from(0b0100_0010);
    assert_eq!(diq, DIQ { iv: false, nt: true, sb: false, bl: false, dpi: DPI::On });
    assert_eq!(
        u8::from(DIQ { iv: false, nt: true, sb: false, bl: false, dpi: DPI::Indeterminate3 }),
        0x43
    );
    let qds = QDS::from(0x11);
    assert_eq!(qds, QDS { iv: false, nt: false, sb: false, bl: true, ov: true });
    assert_eq!(u8::from(QDS { iv: true, nt: true, sb: true, bl: true, ov: true }), 0xF1);
}

#[test]
fn vti_bytes() {
    let vti = VTI::from([0x85, 0x81]);
    assert_eq!(vti.value, 5);
    assert!(vti.transient);
    assert_eq!(vti.qds, QDS { iv: true, nt: false, sb: false, bl: false, ov: true });
    let vti = VTI::from([0x85, 0x01]);
    assert!(!vti.transient);
    let bytes: [u8; 2] = VTI {
        value: 5,
        transient: true,
        qds: QDS { iv: false, nt: false, sb: false, bl: false, ov: true },
    }
    .into();
    assert_eq!(bytes, [0x85, 0x01]);
}

#[test]
fn little_endian_values() {
    assert_eq!(BSI::from([0x78, 0x56, 0x34, 0x12]), BSI { value: 0x1234_5678 });
    assert_eq!(<[u8; 4]>::from(BSI { value: 0x1234_5678 }), [0x78, 0x56, 0x34, 0x12]);
    assert_eq!(BCR::from([1, 0, 0, 0x80]), BCR { value: 0x8000_0001 });
    assert_eq!(<[u8; 4]>::from(BCR { value: 0x8000_0001 }), [1, 0, 0, 0x80]);
    assert_eq!(NVA::from([0x34, 0x12]), NVA { value: 0x1234 });
    assert_eq!(<[u8; 2]>::from(NVA { value: 0x1234 }), [0x34, 0x12]);
    assert_eq!(SVA::from([0xff, 0x7f]), SVA { value: 0x7fff });
    assert_eq!(<[u8; 2]>::from(SVA { value: 0x7fff }), [0xff, 0x7f]);
    // 1.0 as a single-precision number
    assert_eq!(R32::from([0x00, 0x00, 0x80, 0x3f]), R32 { bits: 1.0f32.to_bits() });
    assert_eq!(<[u8; 4]>::from(R32 { bits: 1.0f32.to_bits() }), 1.0f32.to_le_bytes());
}

#[test]
fn descriptor_bits() {
    assert_eq!(SeqQD::from(0xE5), SeqQD { iv: true, ca: true, cy: true, seq: 5 });
    assert_eq!(u8::from(SeqQD { iv: false, ca: true, cy: false, seq: 31 }), 0x5f);
    assert_eq!(
        SEP::from(0x0A),
        SEP { iv: false, nt: false, sb: false, bl: false, ei: true, es: EventState::On }
    );
    assert_eq!(
        u8::from(SEP { iv: true, nt: false, sb: false, bl: false, ei: true, es: EventState::Off }),
        0x89
    );
    assert_eq!(
        StartEP::from(0x2A),
        StartEP { srd: true, sie: false, sl3: true, sl2: false, sl1: true, gs: false }
    );
    assert_eq!(
        u8::from(StartEP { srd: false, sie: true, sl3: false, sl2: true, sl1: false, gs: true }),
        0x15
    );
    assert_eq!(QDP::from(0x88), QDP { iv: true, nt: false, sb: false, bl: false, ei: true });
    assert_eq!(u8::from(QDP { iv: false, nt: true, sb: true, bl: true, ei: false }), 0x70);
    assert_eq!(OCI::from(0x05), OCI { cl3: false, cl2: true, cl1: false, gc: true });
    assert_eq!(u8::from(OCI { cl3: true, cl2: false, cl1: true, gc: false }), 0x0A);
}

#[test]
fn command_bits() {
    assert_eq!(
        SCO::from(0x85),
        SCO { se: SelectExecute::Select, qu: QU::ShortPulse, scs: SPI::On }
    );
    assert_eq!(SCO::from(0x7C).qu, QU::Other(31));
    assert_eq!(
        u8::from(SCO { se: SelectExecute::Select, qu: QU::ShortPulse, scs: SPI::On }),
        0x85
    );
    assert_eq!(
        u8::from(SCO { se: SelectExecute::Execute, qu: QU::Other(0xff), scs: SPI::Off }),
        0x7C
    );
    assert_eq!(
        DCO::from(0x06),
        DCO { se: SelectExecute::Execute, qu: QU::ShortPulse, dcs: DPI::Indeterminate0 }
    );
    assert_eq!(DCO::from(0x07).dcs, DPI::Off);
    assert_eq!(
        u8::from(DCO { se: SelectExecute::Execute, qu: QU::LongPulse, dcs: DPI::On }),
        0x0A
    );
    assert_eq!(
        RCO::from(0x06),
        RCO { se: SelectExecute::Execute, qu: QU::ShortPulse, rcs: RCS::Increment }
    );
    assert_eq!(
        u8::from(RCO { se: SelectExecute::Select, qu: QU::Persistent, rcs: RCS::Decrement }),
        0x8D
    );
    assert_eq!(RCS::from(0), RCS::NotAllowed0);
    assert_eq!(RCS::from(200), RCS::NotAllowed3);
    assert_eq!(QL::from(0xFF), QL { ql: 0x7f });
    assert_eq!(u8::from(QL { ql: 0xFF }), 0x7f);
    assert_eq!(QOS::from(0x85), QOS { se: SelectExecute::Select, ql: QL { ql: 5 } });
    assert_eq!(u8::from(QOS { se: SelectExecute::Select, ql: QL { ql: 5 } }), 0x85);
    assert_eq!(u8::from(QU::LongPulse), 2);
    assert_eq!(QU::from(3), QU::Persistent);
    assert_eq!(QU::from(0), QU::Unspecified);
    assert_eq!(SelectExecute::from(0), SelectExecute::Execute);
    assert_eq!(SelectExecute::from(1), SelectExecute::Select);
    assert_eq!(SelectExecute::Select.code(), 1);
}

#[test]
fn parameter_qualifier_bits() {
    assert_eq!(QPM::from(0x41), QPM { kpa: KPA::Filter, pop: true, lpc: LPC::Changed });
    assert_eq!(QPM::from(0xA0), QPM { kpa: KPA::Other(5), pop: false, lpc: LPC::NoChange });
    assert_eq!(u8::from(QPM { kpa: KPA::Thresh, pop: true, lpc: LPC::Changed }), 0xE0);
    assert_eq!(u8::from(QPM { kpa: KPA::HiLimit, pop: false, lpc: LPC::NoChange }), 0x80);
    assert_eq!(KPA::from(3), KPA::LoLimit);
    assert_eq!(u8::from(KPA::Other(9)), 9);
    assert_eq!(LPC::from(0), LPC::NoChange);
    assert_eq!(LPC::from(5), LPC::Changed);
    assert_eq!(LPC::Changed.code(), 1);
    assert_eq!(QPA::from(2), QPA::Object);
    assert_eq!(QPA::from(4), QPA::Other(4));
    assert_eq!(u8::from(QPA::Transmission), 3);
    assert_eq!(u8::from(QPA::Other(77)), 77);
}

#[test]
fn qualifier_codes() {
    assert_eq!(COI::from(0), COI::LocalPowerOn);
    assert_eq!(COI::from(2), COI::RemoteReset);
    assert_eq!(COI::from(0x85), COI::Other(5));
    assert_eq!(u8::from(COI::LocalManualReset), 1);
    assert_eq!(u8::from(COI::Other(0xff)), 0x7f);
    assert_eq!(QOI::from(0), QOI::Unused);
    assert_eq!(QOI::from(20), QOI::Inrogen);
    assert_eq!(QOI::from(21), QOI::Inro1);
    assert_eq!(QOI::from(36), QOI::Inro16);
    assert_eq!(QOI::from(37), QOI::Other(37));
    assert_eq!(QOI::from(1), QOI::Other(1));
    assert_eq!(u8::from(QOI::Inro9), 29);
    assert_eq!(u8::from(QOI::Other(200)), 200);
    assert_eq!(FRZ::from(0), FRZ::Read);
    assert_eq!(FRZ::from(2), FRZ::FreezeAndReset);
    assert_eq!(FRZ::from(9), FRZ::Reset);
    assert_eq!(u8::from(FRZ::Reset), 3);
    assert_eq!(RQT::from(0), RQT::NoRequest);
    assert_eq!(RQT::from(5), RQT::ReqCoGen);
    assert_eq!(RQT::from(6), RQT::Other(6));
    assert_eq!(u8::from(RQT::ReqCo3), 3);
    assert_eq!(QRP::from(1), QRP::General);
    assert_eq!(QRP::from(3), QRP::Other(3));
    assert_eq!(u8::from(QRP::TtEvents), 2);
}

#[test]
fn single_point_payloads() {
    let p = M_SP_NA_1::from(buffer(&[0x81, 0xff]));
    assert_eq!(p.siq, SIQ::from(0x81));
    assert_eq!(DataBuffer::from(p), buffer(&[0x81]));
    let p = M_SP_TA_1::from(buffer(&[0x01, 0x07, 0x87, 0x14]));
    assert_eq!(p.siq.spi, SPI::On);
    assert_eq!(p.time, CP24Time2a { ms: 34567, min: 20, iv: false });
    assert_eq!(DataBuffer::from(p), buffer(&[0x01, 0x07, 0x87, 0x14]));
    let mut bytes = vec![0x10];
    bytes.extend(SAMPLE_TIME);
    let p = M_SP_TB_1::from(buffer(&bytes));
    assert!(p.siq.bl);
    assert_eq!(p.time, sample_time());
    assert_eq!(DataBuffer::from(p), buffer(&bytes));
}

#[test]
fn step_position_payloads() {
    let p = M_ST_NA_1::from(buffer(&[0x85, 0x01]));
    assert_eq!(p.vti.value, 5);
    assert!(p.vti.qds.ov);
    let mut bytes = vec![0x85, 0x80];
    bytes.extend(SAMPLE_TIME);
    let p = M_ST_TB_1::from(buffer(&bytes));
    assert_eq!(p.vti_value, 0x85);
    assert!(p.qds.iv);
    assert_eq!(p.time, sample_time());
    assert_eq!(DataBuffer::from(p), buffer(&bytes));
}

#[test]
fn measured_value_payloads() {
    let p = M_ME_NA_1::from(buffer(&[0x34, 0x12, 0x10]));
    assert_eq!(p.nva, NVA { value: 0x1234 });
    assert!(p.qds.bl);
    assert_eq!(DataBuffer::from(p), buffer(&[0x34, 0x12, 0x10]));
    let p = M_ME_ND_1::from(buffer(&[0x34, 0x12, 0x10]));
    assert_eq!(DataBuffer::from(p), buffer(&[0x34, 0x12]));
    let mut bytes = vec![0x00, 0x00, 0x80, 0x3f, 0x01];
    bytes.extend(SAMPLE_TIME);
    let p = M_ME_TF_1::from(buffer(&bytes));
    assert_eq!(f32::from_bits(p.r32.bits), 1.0);
    assert!(p.qds.ov);
    assert_eq!(p.time, sample_time());
    assert_eq!(DataBuffer::from(p), buffer(&bytes));
    let p = M_IT_NA_1::from(buffer(&[1, 2, 3, 4, 0x85]));
    assert_eq!(p.bcr.value, 0x0403_0201);
    assert_eq!(p.seq_qd, SeqQD { iv: true, ca: false, cy: false, seq: 5 });
    assert_eq!(DataBuffer::from(p), buffer(&[1, 2, 3, 4, 0x85]));
}

#[test]
fn protection_event_payload() {
    let p = M_EP_TA_1::from(buffer(&[0x0A, 0x39, 0x30, 0x07, 0x87, 0x14]));
    assert!(p.sep.ei);
    assert_eq!(p.sep.es, EventState::On);
    assert_eq!(p.elapsed, CP16Time2a { ms: 12345 });
    assert_eq!(p.time, CP24Time2a { ms: 34567, min: 20, iv: false });
    assert_eq!(DataBuffer::from(p), buffer(&[0x0A, 0x39, 0x30, 0x07, 0x87, 0x14]));
}

#[test]
fn command_payloads() {
    let p = C_SC_NA_1::from(buffer(&[0x85]));
    assert_eq!(p.sco.qu, QU::ShortPulse);
    assert_eq!(DataBuffer::from(p), buffer(&[0x85]));
    let p = C_SE_NC_1::from(buffer(&[0x00, 0x00, 0x80, 0x3f, 0x85]));
    assert_eq!(p.r32.bits, 0x3f80_0000);
    assert_eq!(p.qos.ql.ql, 5);
    assert_eq!(DataBuffer::from(p), buffer(&[0x00, 0x00, 0x80, 0x3f, 0x85]));
    let p = P_ME_NA_1::from(buffer(&[0x34, 0x12, 0x41]));
    assert_eq!(p.qpm.kpa, KPA::Filter);
    assert_eq!(
        DataBuffer::from(P_ME_NA_1 {
            nva: NVA { value: 0x1234 },
            qpm: QPM { kpa: KPA::Thresh, pop: false, lpc: LPC::NoChange }
        }),
        buffer(&[0x34, 0x12, 0x20])
    );
}

#[test]
fn system_payloads() {
    let p = M_EI_NA_1::from(buffer(&[0x82]));
    assert_eq!(p.lpc, LPC::Changed);
    assert_eq!(p.coi, COI::Other(2));
    assert_eq!(
        DataBuffer::from(M_EI_NA_1 { lpc: LPC::Changed, coi: COI::RemoteReset }),
        buffer(&[0x82])
    );
    let p = C_CI_NA_1::from(buffer(&[0x45]));
    assert_eq!(p.frz, FRZ::Freeze);
    assert_eq!(p.rqt, RQT::ReqCoGen);
    assert_eq!(DataBuffer::from(p), buffer(&[0x45]));
    assert_eq!(DataBuffer::from(C_RD_NA_1::from(buffer(&[1, 2, 3]))), [0u8; 12]);
    let p = C_CS_NA_1::from(buffer(&SAMPLE_TIME));
    assert_eq!(p.time, sample_time());
    assert_eq!(DataBuffer::from(p), buffer(&SAMPLE_TIME));
}

#[test]
fn test_command_patterns() {
    assert_eq!(DataBuffer::from(C_TS_NA_1::default()), buffer(&[0xaa, 0x55]));
    assert_eq!(DataBuffer::from(C_TS_NA_1::from(buffer(&[1, 2, 3]))), buffer(&[1, 2]));
    // the test counter is big-endian
    let mut bytes = vec![0x12, 0x34];
    bytes.extend(SAMPLE_TIME);
    let p = C_TS_TA_1::from(buffer(&bytes));
    assert_eq!(p.tsc, 0x1234);
    assert_eq!(p.time, sample_time());
    assert_eq!(DataBuffer::from(p), buffer(&bytes));
}
