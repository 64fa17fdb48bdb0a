//! The imported form of a model: its raw ONNX bytes.

use vstd::prelude::*;

verus! {

/// Raw ONNX model bytes, as the import step stores them.
pub struct OnnxModelData {
    data: Vec<u8>,
}

impl OnnxModelData {
    /// The stored bytes.
    pub closed spec fn bytes(&self) -> Seq<u8> {
        self.data@
    }

    /// Model data with no bytes.
    pub fn new() -> (m: Self)
        ensures
            m.bytes() == Seq::<u8>::empty(),
    {
        OnnxModelData { data: Vec::new() }
    }

    /// A copy of the stored bytes.
    pub fn get_data(&self) -> (data: Vec<u8>)
        ensures
            data@ == self.bytes(),
    {
        self.data.clone()
    }

    /// Replaces the stored bytes.
    pub fn set_data(&mut self, data: Vec<u8>)
        ensures
            final(self).bytes() == data@,
    {
        self.data = data;
    }
}

/// Read-back law: the bytes that `get_data` returns after `set_data(data)` are `data`.
pub proof fn law_set_data_then_get_data(after_set: OnnxModelData, data: Seq<u8>, read: Seq<u8>)
    requires
        after_set.bytes() == data,
        read == after_set.bytes(),
    ensures
        read == data,
{
}

} // verus!
