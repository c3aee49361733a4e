//! Multimodal input chunks, held as the data the C API copies in when the
//! chunk is handed to a session.
use vstd::prelude::*;
use vstd::string::StringSliceAdditionalSpecFns;
use crate::error::Error;
use crate::types::InputDataType;

verus! {

/// One chunk of multimodal input: its kind and its bytes (UTF-8 text for
/// `InputDataType::Text`, the raw media bytes for image and audio chunks).
///
/// Building a chunk only copies its bytes and never fails. The C object
/// (`litert_lm_input_data_create`) is made when a session is handed the
/// chunk, so a NULL from that call surfaces as
/// `Error::CreateFailed("litert_lm_input_data_create")` from
/// `Session::run_prefill`, `Session::generate_content` or
/// `Session::generate_content_stream`.
pub struct InputData {
    data_type: InputDataType,
    data: Vec<u8>,
}

impl View for InputData {
    type V = (InputDataType, Seq<u8>);

    closed spec fn view(&self) -> (InputDataType, Seq<u8>) {
        (self.data_type, self.data@)
    }
}

impl InputData {
    /// A chunk of the given kind holding a copy of `data`.
    pub fn new(data_type: InputDataType, data: &[u8]) -> (r: Result<Self, Error>)
        ensures
            r matches Ok(d) && d@ == (data_type, data@),
    {
        let mut copy: Vec<u8> = Vec::new();
        let mut i: usize = 0;
        while i < data.len()
            invariant
                i <= data@.len(),
                copy@ == data@.take(i as int),
            decreases data@.len() - i,
        {
            copy.push(data[i]);
            i = i + 1;
            assert(copy@ == data@.take(i as int));
        }
        assert(data@.take(i as int) == data@);
        Ok(InputData { data_type, data: copy })
    }

    /// Convenience constructor for `InputDataType::Text`: the UTF-8 bytes of
    /// `text`.
    pub fn text(text: &str) -> (r: Result<Self, Error>)
        ensures
            r matches Ok(d) && d@ == (InputDataType::Text, text.spec_bytes()),
    {
        Self::new(InputDataType::Text, text.as_bytes())
    }

    /// The kind of this chunk.
    pub fn data_type(&self) -> (r: InputDataType)
        ensures
            r == self@.0,
    {
        self.data_type
    }

    /// The bytes of this chunk.
    pub fn data(&self) -> (r: &[u8])
        ensures
            r@ == self@.1,
    {
        self.data.as_slice()
    }
}

} // verus!
