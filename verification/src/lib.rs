//! A bidirectional codec between native filesystem path values and object
//! handles of a foreign, dynamically-typed host runtime.
//!
//! The runtime's object protocol is captured by a small model
//! ([`runtime`]): object handles record exactly what the codec may observe
//! of a runtime object, and the handful of runtime services the codec
//! consumes (class resolution with process-wide memoization, object
//! construction, the path-like protocol call, and the lossless raw-byte
//! boundary primitives) are functions over that model. The codec itself
//! ([`codec`]) is verified against it: encoding is lossless for every
//! representable path value, including byte sequences that no text
//! encoding accepts, and decoding accepts exactly the handles that
//! conform to the path-like protocol.

pub mod codec;
pub mod path;
pub mod runtime;
