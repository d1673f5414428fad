//! The path codec: encode a native path value into a runtime object
//! handle, and decode a conforming handle back into a native path value,
//! losslessly.

use vstd::prelude::*;
use crate::path::NativePath;
use crate::path::PathCow;
use crate::runtime::CodecError;
use crate::runtime::ObjectHandle;
use crate::runtime::RuntimeSession;
use crate::runtime::construct_helper;
use crate::runtime::extract_bytes;
use crate::runtime::fspath;
use crate::runtime::is_path_like;
use crate::runtime::make_text_object;
use crate::runtime::reduced_bytes;
use crate::runtime::resolve_helper_class;

verus! {

/// What encode promises of its result on success: an instance of the
/// resolved path-helper class holding exactly the path's bytes.
pub open spec fn encodes_to(h: ObjectHandle, class: u64, p: Seq<u8>) -> bool {
    h matches ObjectHandle::PathHelper { class: c, bytes } && c == class && bytes@ == p
}

/// How one encode call changes the session: the class registry is
/// untouched, and the cache ends warm exactly when the runtime can
/// resolve the helper class — warmed on the first success, unchanged
/// ever after, and left cold by every failure.
pub open spec fn session_step(pre: RuntimeSession, post: RuntimeSession) -> bool {
    &&& post.helper_class == pre.helper_class
    &&& (pre.helper_class is Some ==> post.class_cache == pre.helper_class)
    &&& (pre.helper_class is None ==> post.class_cache == pre.class_cache)
}

/// Encode, canonical entry point over the borrowed view: produce a
/// runtime object representing the same path. The helper class is
/// resolved lazily, once per process; its constructor is invoked with
/// the path's raw platform bytes as the sole argument, so every byte is
/// preserved exactly. Fails only when the runtime cannot resolve the
/// helper class.
pub fn encode(path: &NativePath, session: &mut RuntimeSession) -> (r: Result<
    ObjectHandle,
    CodecError,
>)
    requires
        old(session).wf(),
    ensures
        final(session).wf(),
        session_step(*old(session), *final(session)),
        old(session).helper_class matches Some(c) ==> (r matches Ok(h) && encodes_to(
            h,
            c,
            path@,
        )),
        old(session).helper_class is None ==> r == Err::<ObjectHandle, CodecError>(
            CodecError::RuntimeUnavailable,
        ),
{
    let class = match resolve_helper_class(session) {
        Ok(c) => c,
        Err(e) => {
            return Err(e);
        },
    };
    Ok(construct_helper(class, path.as_bytes()))
}

/// Encode for an owned path value; delegates to the canonical borrowed
/// view.
pub fn encode_owned(path: NativePath, session: &mut RuntimeSession) -> (r: Result<
    ObjectHandle,
    CodecError,
>)
    requires
        old(session).wf(),
    ensures
        final(session).wf(),
        session_step(*old(session), *final(session)),
        old(session).helper_class matches Some(c) ==> (r matches Ok(h) && encodes_to(
            h,
            c,
            path@,
        )),
        old(session).helper_class is None ==> r == Err::<ObjectHandle, CodecError>(
            CodecError::RuntimeUnavailable,
        ),
{
    encode(&path, session)
}

/// Encode for a copy-on-write path value; delegates to the canonical
/// borrowed view.
pub fn encode_cow(path: PathCow<'_>, session: &mut RuntimeSession) -> (r: Result<
    ObjectHandle,
    CodecError,
>)
    requires
        old(session).wf(),
    ensures
        final(session).wf(),
        session_step(*old(session), *final(session)),
        old(session).helper_class matches Some(c) ==> (r matches Ok(h) && encodes_to(
            h,
            c,
            path@,
        )),
        old(session).helper_class is None ==> r == Err::<ObjectHandle, CodecError>(
            CodecError::RuntimeUnavailable,
        ),
{
    encode(path.as_path(), session)
}

/// Encode for a reference to a copy-on-write path value; delegates to
/// the canonical borrowed view.
pub fn encode_cow_ref(path: &PathCow<'_>, session: &mut RuntimeSession) -> (r: Result<
    ObjectHandle,
    CodecError,
>)
    requires
        old(session).wf(),
    ensures
        final(session).wf(),
        session_step(*old(session), *final(session)),
        old(session).helper_class matches Some(c) ==> (r matches Ok(h) && encodes_to(
            h,
            c,
            path@,
        )),
        old(session).helper_class is None ==> r == Err::<ObjectHandle, CodecError>(
            CodecError::RuntimeUnavailable,
        ),
{
    encode(path.as_path(), session)
}

/// Encode to a plain text object instead of a helper-class instance:
/// the older conversion the codec still offers. The raw bytes are
/// imported losslessly, so decode accepts the result and round-trips it,
/// but the object carries no path-object semantics. Infallible, and the
/// session's cache is not involved.
pub fn encode_as_text(path: &NativePath, _session: &RuntimeSession) -> (h: ObjectHandle)
    ensures
        h matches ObjectHandle::Text(b) && b@ == path@,
{
    make_text_object(path.as_bytes())
}

/// Text-object encode for an owned path value.
pub fn encode_as_text_owned(path: NativePath, session: &RuntimeSession) -> (h: ObjectHandle)
    ensures
        h matches ObjectHandle::Text(b) && b@ == path@,
{
    encode_as_text(&path, session)
}

/// Text-object encode for a copy-on-write path value.
pub fn encode_as_text_cow(path: &PathCow<'_>, session: &RuntimeSession) -> (h: ObjectHandle)
    ensures
        h matches ObjectHandle::Text(b) && b@ == path@,
{
    encode_as_text(path.as_path(), session)
}

/// Decode: accept any runtime object conforming to the path-like
/// protocol — the handle encode produces, a plain text or byte-sequence
/// object, or any duck-typed conforming object — and reconstruct the
/// native path value from its canonical byte form. Two steps: the
/// runtime's generic protocol reduction, then the boundary layer's
/// lossless extraction; a handle without the protocol is rejected with a
/// protocol violation, never mapped to a default value.
pub fn decode(handle: &ObjectHandle, session: &RuntimeSession) -> (r: Result<
    NativePath,
    CodecError,
>)
    ensures
        is_path_like(*handle) ==> (r matches Ok(p) && p@ == reduced_bytes(*handle)),
        !is_path_like(*handle) ==> r == Err::<NativePath, CodecError>(
            CodecError::ProtocolViolation,
        ),
{
    let reduced = match fspath(handle, session) {
        Ok(h) => h,
        Err(e) => {
            return Err(e);
        },
    };
    let bytes = match extract_bytes(&reduced) {
        Ok(b) => b,
        Err(e) => {
            return Err(e);
        },
    };
    Ok(NativePath::new(bytes))
}

/// Round-trip identity: a handle encode can produce for path bytes `p`
/// conforms to the path-like protocol and reduces to exactly `p`, so
/// decode returns the identical path value — for every representable
/// path, including ones holding zero bytes, newlines, multi-byte
/// characters, or byte sequences not valid in any text encoding.
pub proof fn lemma_round_trip(h: ObjectHandle, class: u64, p: Seq<u8>)
    requires
        encodes_to(h, class, p),
    ensures
        is_path_like(h),
        reduced_bytes(h) == p,
{
}

/// Cross-type acceptance: the helper instance encode produces and a
/// plain text object holding the same bytes both conform to the
/// path-like protocol and reduce to the same byte form, so decode maps
/// them to equal path values.
pub proof fn lemma_cross_type_acceptance(
    helper: ObjectHandle,
    text: ObjectHandle,
    class: u64,
    p: Seq<u8>,
)
    requires
        encodes_to(helper, class, p),
        text matches ObjectHandle::Text(b) && b@ == p,
    ensures
        is_path_like(helper),
        is_path_like(text),
        reduced_bytes(helper) == reduced_bytes(text),
{
}

/// Class-handle memoization: across any run of encode calls the helper
/// class is resolved at most once. After the first call the cache never
/// changes again; when the runtime resolves the class, every call
/// observes that one handle; when it cannot, every call observes the
/// same failure and the cache stays exactly as it began.
pub proof fn lemma_class_memoized(s0: RuntimeSession, s1: RuntimeSession, s2: RuntimeSession)
    requires
        s0.wf(),
        session_step(s0, s1),
        session_step(s1, s2),
    ensures
        s2.class_cache == s1.class_cache,
        s0.helper_class matches Some(c) ==> s1.class_cache == Some(c),
        s0.helper_class is None ==> s1.class_cache == s0.class_cache && s2.class_cache
            == s0.class_cache,
{
}

} // verus!

