//! The small enums shared across the configuration objects, each standing
//! for one C enum of the API.
use vstd::prelude::*;

verus! {

/// Minimum severity for the underlying C++ library's own logging (writes
/// straight to stderr, independent of anything in Rust -- this is the only
/// way to control it).
#[derive(Debug, Clone, Copy, PartialEq, Eq, Structural)]
pub enum LogSeverity {
    Verbose,
    Debug,
    Info,
    Warning,
    Error,
    Fatal,
    /// Suppresses everything, including errors.
    Silent,
}

/// Stands for `LiteRtLmSamplerType`.
#[derive(Debug, Clone, Copy, PartialEq, Eq, Structural)]
pub enum SamplerType {
    /// Probabilistically pick among the top-k tokens.
    TopK,
    /// Probabilistically pick among tokens whose cumulative probability
    /// reaches p, after first performing top-k sampling.
    TopP,
    /// Always pick the token with the maximum logit (argmax).
    Greedy,
}

/// Stands for `LiteRtLmConstraintType`, for constrained decoding.
#[derive(Debug, Clone, Copy, PartialEq, Eq, Structural)]
pub enum ConstraintType {
    /// No constraint (the C API's `kLiteRtLmConstraintTypeNone`).
    NoConstraint,
    Regex,
    JsonSchema,
}

/// Stands for `LiteRtLmConstraintProviderType`.
#[derive(Debug, Clone, Copy, PartialEq, Eq, Structural)]
pub enum ConstraintProviderType {
    LlGuidance,
}

/// Stands for `LiteRtLmInputDataType`.
#[derive(Debug, Clone, Copy, PartialEq, Eq, Structural)]
pub enum InputDataType {
    Text,
    Image,
    ImageEnd,
    Audio,
    AudioEnd,
}

/// Stands for `LiteRtLmActivationDataType`.
#[derive(Debug, Clone, Copy, PartialEq, Eq, Structural)]
pub enum ActivationDataType {
    Float32,
    Float16,
    Int16,
    Int8,
}

/// Stands for `LiteRtLmTokenUnionType`.
#[derive(Debug, Clone, Copy, PartialEq, Eq, Structural)]
pub enum TokenUnionType {
    String,
    Ids,
}

} // verus!
