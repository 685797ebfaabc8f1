use vstd::prelude::*;

mod cot;
/// IEC 60870-5 101/104 common data types
pub mod datatype;
/// IEC 60870-5 101/104 time types
pub mod time;

pub use cot::COT;

verus! {

/// `From<T> for T` of std: the conversion of a value into its own type gives the value back.
pub assume_specification<A>[ <A as core::convert::From<A>>::from ](a: A) -> (r: A)
    ensures
        r == a,
;

/// Maximum length of IEC 60870-5 IOU data
pub const MAX_IEC_DATA_LEN: usize = 12;

/// IEC 60870-5 IOU data buffer
pub type DataBuffer = [u8; 12];

/// IEC 60870-5 IOU: an address and a value buffer, of which the first bytes, as many as the
/// frame's data type has, are meaningful
#[derive(Debug, Clone, Copy)]
pub struct Iou {
    /// Address of the information object
    pub address: u32,
    /// Value bytes, zero-padded
    pub value: DataBuffer,
}

impl Iou {
    /// Create a new IEC 60870-5 IOU
    pub fn new<T: Into<DataBuffer>>(address: u32, value: T) -> (r: Self)
        ensures
            r.address == address,
            call_ensures(T::into, (value,), r.value),
    {
        Iou { address, value: value.into() }
    }

    /// Get the address
    pub fn address(&self) -> (r: u32)
        ensures
            r == self.address,
    {
        self.address
    }

    /// Get the value
    pub fn value(&self) -> (r: DataBuffer)
        ensures
            r == self.value,
    {
        self.value
    }
}

} // verus!
