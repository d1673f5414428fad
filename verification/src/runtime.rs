//! A model of the foreign runtime's object protocol, and the runtime
//! services the codec consumes.
//!
//! The runtime itself (its heap, reference counting and class registry)
//! is outside the codec; the codec only ever observes a runtime object
//! through a fixed set of protocol calls. The model therefore records,
//! for each kind of object the codec can meet, exactly what those calls
//! may observe of it, and the consumed services are functions over that
//! record: resolving and memoizing the path-helper class, constructing an
//! instance of it, the generic path-like protocol call, and the boundary
//! layer's lossless movement of raw bytes in and out of the runtime.

use vstd::prelude::*;

verus! {

/// The errors the codec surfaces. Conversions are single-shot and pure:
/// a failure is definitional, never transient, so none is retried and
/// nothing is rolled back.
#[derive(Debug, PartialEq, Eq, Structural)]
pub enum CodecError {
    /// The runtime could not resolve or construct its path-helper class,
    /// as in a degraded embedding that lacks the expected module.
    RuntimeUnavailable,
    /// The supplied handle does not implement the path-like protocol.
    ProtocolViolation,
}

/// A handle into the foreign runtime's managed heap. A handle is opaque
/// to the codec except for what the runtime's protocols report of it;
/// each variant records exactly that.
#[derive(Debug)]
pub enum ObjectHandle {
    /// A text object; the bytes are its lossless platform encoding.
    Text(Vec<u8>),
    /// A byte-sequence object.
    Bytes(Vec<u8>),
    /// An instance of the runtime's path-helper class: `class` is the
    /// identity of the class object that constructed it, `bytes` the raw
    /// path bytes it was constructed from.
    PathHelper { class: u64, bytes: Vec<u8> },
    /// Any other object that implements the path-like protocol by duck
    /// typing; the protocol reduces it to these bytes.
    PathLike(Vec<u8>),
    /// An object that does not implement the path-like protocol.
    Opaque,
}

/// Whether a handle conforms to the path-like protocol: text and
/// byte-sequence objects, helper-class instances, and any duck-typed
/// conforming object all do; only an opaque non-conforming object does
/// not.
pub open spec fn is_path_like(h: ObjectHandle) -> bool {
    !(h is Opaque)
}

/// Whether a handle is already in the canonical text-or-bytes form that
/// the path-like protocol reduces conforming objects to.
pub open spec fn is_text_or_bytes(h: ObjectHandle) -> bool {
    h is Text || h is Bytes
}

/// The byte form the path-like protocol reduces a conforming handle to.
pub open spec fn reduced_bytes(h: ObjectHandle) -> Seq<u8>
    recommends
        is_path_like(h),
{
    match h {
        ObjectHandle::Text(b) => b@,
        ObjectHandle::Bytes(b) => b@,
        ObjectHandle::PathHelper { class: _, bytes } => bytes@,
        ObjectHandle::PathLike(b) => b@,
        ObjectHandle::Opaque => Seq::empty(),
    }
}

/// The process-wide context token required to interact with the runtime.
/// Holding it exclusively for the duration of a call models exclusive
/// access to the runtime's global state, so the class-handle cache can be
/// read and written with no further locking; first-writer-wins, and every
/// later caller observes the already-initialized value.
#[derive(Debug)]
pub struct RuntimeSession {
    /// The identity of the runtime's path-helper class object, or `None`
    /// in a degraded embedding where the runtime cannot resolve it.
    /// Fixed for the life of the session.
    pub helper_class: Option<u64>,
    /// The process-wide, lazily-initialized class-handle cache: `None`
    /// until the first successful resolution, then the resolved identity
    /// ever after.
    pub class_cache: Option<u64>,
}

impl RuntimeSession {
    /// The cache only ever holds the handle the runtime itself resolved.
    pub open spec fn wf(&self) -> bool {
        self.class_cache matches Some(c) ==> self.helper_class == Some(c)
    }

    /// Enter a session with the given class registry state and a cold
    /// cache.
    pub fn new(helper_class: Option<u64>) -> (s: RuntimeSession)
        ensures
            s.helper_class == helper_class,
            s.class_cache is None,
            s.wf(),
    {
        RuntimeSession { helper_class, class_cache: None }
    }
}

/// An owned copy of a byte buffer: the lossless movement of raw bytes
/// across the native/runtime boundary, with no reinterpretation.
fn copy_bytes(b: &Vec<u8>) -> (r: Vec<u8>)
    ensures
        r@ == b@,
{
    vstd::slice::slice_to_vec(b.as_slice())
}

/// The runtime's "import an attribute and cache it" service, applied to
/// the path-helper class: resolve the class lazily and at most once per
/// process. The first successful call stores the handle in the session's
/// cache; every later call returns the cached handle without resolving
/// again. In a degraded embedding every call observes the same failure
/// and the cache stays cold.
pub fn resolve_helper_class(session: &mut RuntimeSession) -> (r: Result<u64, CodecError>)
    requires
        old(session).wf(),
    ensures
        final(session).wf(),
        final(session).helper_class == old(session).helper_class,
        old(session).helper_class matches Some(c) ==> (r == Ok::<u64, CodecError>(c)
            && final(session).class_cache == Some(c)),
        old(session).helper_class is None ==> r == Err::<u64, CodecError>(
            CodecError::RuntimeUnavailable,
        ) && final(session).class_cache == old(session).class_cache,
{
    match session.class_cache {
        Some(c) => Ok(c),
        None => match session.helper_class {
            Some(c) => {
                session.class_cache = Some(c);
                Ok(c)
            },
            None => Err(CodecError::RuntimeUnavailable),
        },
    }
}

/// The runtime's "construct an instance of a class from positional
/// arguments" service, applied to the path-helper class with the raw
/// path bytes as the sole argument. The raw-bytes import is lossless:
/// the new instance records every byte exactly, with no text decode.
pub fn construct_helper(class: u64, raw: &[u8]) -> (h: ObjectHandle)
    ensures
        h matches ObjectHandle::PathHelper { class: c, bytes } && c == class && bytes@ == raw@,
{
    ObjectHandle::PathHelper { class, bytes: vstd::slice::slice_to_vec(raw) }
}

/// The boundary layer's lossless import of raw platform bytes as a text
/// object. No text decode takes place: the object records the exact
/// bytes, valid in a text encoding or not.
pub fn make_text_object(raw: &[u8]) -> (h: ObjectHandle)
    ensures
        h matches ObjectHandle::Text(b) && b@ == raw@,
{
    ObjectHandle::Text(vstd::slice::slice_to_vec(raw))
}

/// The runtime's generic "reduce a path-like object to its canonical
/// text-or-bytes form" protocol call. Text and byte-sequence objects
/// reduce to themselves; a helper-class instance yields a text object
/// holding its raw path bytes; any duck-typed conforming object yields
/// its byte form; a non-conforming object raises a protocol violation.
pub fn fspath(handle: &ObjectHandle, _session: &RuntimeSession) -> (r: Result<
    ObjectHandle,
    CodecError,
>)
    ensures
        is_path_like(*handle) ==> (r matches Ok(h) && is_text_or_bytes(h) && reduced_bytes(h)
            == reduced_bytes(*handle)),
        !is_path_like(*handle) ==> r == Err::<ObjectHandle, CodecError>(
            CodecError::ProtocolViolation,
        ),
{
    match handle {
        ObjectHandle::Text(b) => Ok(ObjectHandle::Text(copy_bytes(b))),
        ObjectHandle::Bytes(b) => Ok(ObjectHandle::Bytes(copy_bytes(b))),
        ObjectHandle::PathHelper { class: _, bytes } => Ok(ObjectHandle::Text(copy_bytes(bytes))),
        ObjectHandle::PathLike(b) => Ok(ObjectHandle::Bytes(copy_bytes(b))),
        ObjectHandle::Opaque => Err(CodecError::ProtocolViolation),
    }
}

/// The boundary layer's lossless extraction: read the exact platform
/// bytes back out of a text or byte-sequence object, the inverse of the
/// raw-bytes import. On the permissive platform this library models,
/// every byte sequence is representable as a native path, so extraction
/// from a canonical form never fails; any other object is rejected.
pub fn extract_bytes(handle: &ObjectHandle) -> (r: Result<Vec<u8>, CodecError>)
    ensures
        is_text_or_bytes(*handle) ==> (r matches Ok(b) && b@ == reduced_bytes(*handle)),
        !is_text_or_bytes(*handle) ==> r == Err::<Vec<u8>, CodecError>(
            CodecError::ProtocolViolation,
        ),
{
    match handle {
        ObjectHandle::Text(b) => Ok(copy_bytes(b)),
        ObjectHandle::Bytes(b) => Ok(copy_bytes(b)),
        _ => Err(CodecError::ProtocolViolation),
    }
}

} // verus!
