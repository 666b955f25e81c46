use vstd::prelude::*;

verus! {

/// A single auxiliary input request from a subprotocol during preprocessing.
///
/// The `data` field contains the raw bytes that will be processed to generate
/// the corresponding auxiliary input data in the final [`AuxPayload`].
#[derive(Debug)]
pub struct AuxRequest {
    /// Raw data for the auxiliary input request.
    data: Vec<u8>,
}

impl View for AuxRequest {
    type V = Seq<u8>;

    open spec fn view(&self) -> Seq<u8> {
        self.spec_data()
    }
}

impl AuxRequest {
    /// The raw request bytes.
    pub closed spec fn spec_data(&self) -> Seq<u8> {
        self.data@
    }

    pub fn new(data: Vec<u8>) -> (r: Self)
        ensures
            r@ == data@,
    {
        Self { data }
    }

    pub fn data(&self) -> (r: &[u8])
        ensures
            r@ == self@,
    {
        self.data.as_slice()
    }
}

/// A single subprotocol's auxiliary input payload, containing processed auxiliary data.
///
/// Each [`AuxRequest`] must resolve into a corresponding [`AuxPayload`] before the main
/// processing phase can begin. The `data` field must deserialize into the auxiliary
/// input type of the associated subprotocol.
#[derive(Debug, Clone)]
pub struct AuxPayload {
    /// Processed auxiliary input data as raw bytes.
    pub data: Vec<u8>,
}

impl AuxPayload {
    pub fn new(data: Vec<u8>) -> (r: Self)
        ensures
            r.data@ == data@,
    {
        Self { data }
    }

    pub fn data(&self) -> (r: &[u8])
        ensures
            r@ == self.data@,
    {
        self.data.as_slice()
    }
}

} // verus!
