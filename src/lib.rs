//! The serving core of a local inference server: model artifact lifecycle, model-kind
//! lookup, a streaming stop-word filter, and the OpenAI-compatible request pipeline.

pub mod model;
pub mod openai;
pub mod patterns;
pub mod stopping_stream;
pub mod text;
