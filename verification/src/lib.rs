//! A verified core for bindings to Google's LiteRT LM C API (`engine.h`):
//! the error type, the checks applied to what every C call is given and hands
//! back, the plain-value models of input chunks and token unions, the
//! message-JSON text extraction and the decisions of the streaming protocol.
pub mod error;
pub mod input;
pub mod json;
pub mod results;
pub mod stream;
pub mod tokens;
pub mod types;

pub use error::{check_created, check_status, cstr, cstr_all, cstr_opt, Error};
pub use input::InputData;
pub use json::{extract_text, text_of_message, JsonValue};
pub use results::{
    check_count, copy_ids, owned_str_from, returned_string, token_ids, token_scores_len, tokens_from,
};
pub use stream::{chunk_outcome, finish_stream};
pub use tokens::{TokenUnion, TokenUnions};
pub use types::{
    ActivationDataType, ConstraintProviderType, ConstraintType, InputDataType, LogSeverity,
    SamplerType, TokenUnionType,
};
