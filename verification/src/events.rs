use crate::telegram101::{Config, Telegram101, Telegram101View};
use crate::telegram104::{Telegram104_I, Telegram104_IView};
use crate::types::datatype::DataType;
use crate::types::{DataBuffer, Iou, COT};
use vstd::prelude::*;

verus! {

/// What a server event holds.
pub struct EventView {
    /// Application (ADSU) address
    pub adsu: u16,
    /// Address of the information object
    pub iou_addr: u32,
    /// Data type
    pub tid: DataType,
    /// Cause of transmission
    pub cot: COT,
    /// Value bytes
    pub data: DataBuffer,
}

/// Server event
#[derive(Clone, Debug)]
pub struct Event {
    adsu: u16,
    iou_addr: u32,
    tid: DataType,
    cot: COT,
    data: DataBuffer,
}

impl View for Event {
    type V = EventView;

    closed spec fn view(&self) -> EventView {
        EventView {
            adsu: self.adsu,
            iou_addr: self.iou_addr,
            tid: self.tid,
            cot: self.cot,
            data: self.data,
        }
    }
}

impl Event {
    /// Create a new event
    pub fn new<T: Into<DataBuffer>>(
        adsu: u16,
        iou_addr: u32,
        tid: DataType,
        cot: COT,
        data: T,
    ) -> (r: Self)
        ensures
            r@.adsu == adsu,
            r@.iou_addr == iou_addr,
            r@.tid == tid,
            r@.cot == cot,
            call_ensures(T::into, (data,), r@.data),
    {
        Self { adsu, iou_addr, tid, cot, data: data.into() }
    }

    /// Event ADSU
    pub fn adsu(&self) -> (r: u16)
        ensures
            r == self@.adsu,
    {
        self.adsu
    }

    /// Event IOU address
    pub fn iou_addr(&self) -> (r: u32)
        ensures
            r == self@.iou_addr,
    {
        self.iou_addr
    }

    /// Event data type
    pub fn tid(&self) -> (r: DataType)
        ensures
            r == self@.tid,
    {
        self.tid
    }

    /// Event COT
    pub fn cot(&self) -> (r: COT)
        ensures
            r == self@.cot,
    {
        self.cot
    }

    /// Event data
    pub fn data(&self) -> (r: DataBuffer)
        ensures
            r == self@.data,
    {
        self.data
    }

    /// Convert to IEC 60870-5-104 I-telegram: a new telegram of the event's data type, cause
    /// and ADSU, whose one information object is the event's.
    pub fn into_telegram_104_i(self) -> (r: Telegram104_I)
        ensures
            r@ == (Telegram104_IView {
                send_sn: 0,
                recv_sn: 0,
                data_type: self@.tid,
                test: false,
                negative: false,
                cot: self@.cot,
                originator: 0,
                adsu: self@.adsu,
                iou: seq![Iou { address: self@.iou_addr, value: self@.data }],
                sequental: false,
            }),
    {
        let mut iou: Vec<Iou> = Vec::new();
        iou.push(Iou { address: self.iou_addr, value: self.data });
        proof {
            assert(iou@ =~= seq![Iou { address: self@.iou_addr, value: self@.data }]);
        }
        Telegram104_I::new(self.tid, self.cot, self.adsu).with_iou(iou)
    }

    /// Convert to IEC 60870-5-101 telegram: a new variable-length telegram of the event's data
    /// type, cause and ADSU, whose one information object is the event's.
    pub fn into_telegram_101(self, config: Config) -> (r: Telegram101)
        ensures
            r@ == (Telegram101View {
                prm: false,
                fcb_acd: false,
                fcv_dfc: false,
                function_code: 0,
                link_address: 0,
                data_type: self@.tid,
                test: false,
                negative: false,
                cot: Some(self@.cot),
                originator: 0,
                adsu: self@.adsu,
                iou: seq![Iou { address: self@.iou_addr, value: self@.data }],
                sequental: false,
                config,
            }),
    {
        let mut iou: Vec<Iou> = Vec::new();
        iou.push(Iou { address: self.iou_addr, value: self.data });
        proof {
            assert(iou@ =~= seq![Iou { address: self@.iou_addr, value: self@.data }]);
        }
        Telegram101::new(self.tid, self.cot, self.adsu, config).with_iou(iou)
    }
}

} // verus!
