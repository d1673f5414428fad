//! Round-trip and cross-type conversion tests for the path codec.

use path_codec::codec::decode;
use path_codec::codec::encode;
use path_codec::codec::encode_as_text;
use path_codec::codec::encode_as_text_cow;
use path_codec::codec::encode_as_text_owned;
use path_codec::codec::encode_cow;
use path_codec::codec::encode_cow_ref;
use path_codec::codec::encode_owned;
use path_codec::path::NativePath;
use path_codec::path::PathCow;
use path_codec::runtime::CodecError;
use path_codec::runtime::ObjectHandle;
use path_codec::runtime::RuntimeSession;

#[test]
fn test_non_utf8_conversion() {
    // this is not valid UTF-8
    let payload = vec![250u8, 251, 252, 253, 254, 255, 0, 255];
    let path = NativePath::new(payload.clone());
    let mut session = RuntimeSession::new(Some(1));

    // do a roundtrip into the runtime and back and compare
    let handle = encode(&path, &mut session).unwrap();
    let path_2 = decode(&handle, &session).unwrap();
    assert_eq!(path, path_2);
}

#[test]
fn test_intopyobject_roundtrip() {
    let mut session = RuntimeSession::new(Some(1));
    let path = NativePath::new("Hello\0\n🐍".as_bytes().to_vec());

    let borrowed = encode(&path, &mut session).unwrap();
    assert_eq!(decode(&borrowed, &session).unwrap(), path);

    let cow_borrowed = encode_cow(PathCow::Borrowed(&path), &mut session).unwrap();
    assert_eq!(decode(&cow_borrowed, &session).unwrap(), path);

    let cow_owned = encode_cow(PathCow::Owned(path.clone()), &mut session).unwrap();
    assert_eq!(decode(&cow_owned, &session).unwrap(), path);

    let owned = encode_owned(path.clone(), &mut session).unwrap();
    assert_eq!(decode(&owned, &session).unwrap(), path);

    let cow_ref = encode_cow_ref(&PathCow::Borrowed(&path), &mut session).unwrap();
    assert_eq!(decode(&cow_ref, &session).unwrap(), path);
}

#[test]
fn test_from_pystring() {
    let path = "Hello\0\n🐍";
    let session = RuntimeSession::new(Some(1));
    let text = ObjectHandle::Text(path.as_bytes().to_vec());
    let roundtrip = decode(&text, &session).unwrap();
    assert_eq!(roundtrip, NativePath::new(path.as_bytes().to_vec()));
}

#[test]
fn test_intopy_string() {
    let bytes = "Hello\0\n🐍".as_bytes().to_vec();
    let path = NativePath::new(bytes.clone());
    let session = RuntimeSession::new(Some(1));

    let shapes = [
        encode_as_text(&path, &session),
        encode_as_text_cow(&PathCow::Borrowed(&path), &session),
        encode_as_text_cow(&PathCow::Owned(path.clone()), &session),
        encode_as_text_owned(path.clone(), &session),
    ];
    for handle in shapes {
        match &handle {
            ObjectHandle::Text(b) => assert_eq!(b, &bytes),
            _ => panic!("expected a text object"),
        }
        let roundtripped = decode(&handle, &session).unwrap();
        assert_eq!(roundtripped, path);
    }
}

#[test]
fn cross_type_decode_agrees() {
    let bytes = "Hello\0\n🐍".as_bytes().to_vec();
    let path = NativePath::new(bytes.clone());
    let mut session = RuntimeSession::new(Some(1));

    let from_encode = encode(&path, &mut session).unwrap();
    let plain_text = ObjectHandle::Text(bytes.clone());
    let duck_typed = ObjectHandle::PathLike(bytes.clone());
    let byte_object = ObjectHandle::Bytes(bytes);

    let decoded = decode(&from_encode, &session).unwrap();
    assert_eq!(decode(&plain_text, &session).unwrap(), decoded);
    assert_eq!(decode(&duck_typed, &session).unwrap(), decoded);
    assert_eq!(decode(&byte_object, &session).unwrap(), decoded);
    assert_eq!(decoded, path);
}

#[test]
fn example_helper_reduction_is_exact() {
    let bytes = "Hello\0\n🐍".as_bytes().to_vec();
    let path = NativePath::new(bytes.clone());
    let mut session = RuntimeSession::new(Some(9));

    let handle = encode(&path, &mut session).unwrap();
    match &handle {
        ObjectHandle::PathHelper {
            class,
            bytes: recorded,
        } => {
            assert_eq!(*class, 9);
            assert_eq!(recorded, &bytes);
        }
        _ => panic!("expected a path-helper instance"),
    }
    let reduced = path_codec::runtime::fspath(&handle, &session).unwrap();
    match &reduced {
        ObjectHandle::Text(b) => assert_eq!(b, &bytes),
        ObjectHandle::Bytes(b) => assert_eq!(b, &bytes),
        _ => panic!("expected a canonical text-or-bytes form"),
    }
    assert_eq!(decode(&handle, &session).unwrap(), path);
}

#[test]
fn empty_path_roundtrip() {
    let path = NativePath::new(Vec::new());
    let mut session = RuntimeSession::new(Some(1));
    let handle = encode(&path, &mut session).unwrap();
    assert_eq!(decode(&handle, &session).unwrap(), path);
}

#[test]
fn decode_rejects_opaque_handle() {
    let session = RuntimeSession::new(Some(1));
    let err = decode(&ObjectHandle::Opaque, &session).unwrap_err();
    assert_eq!(err, CodecError::ProtocolViolation);
}

#[test]
fn encode_fails_in_degraded_embedding() {
    let path = NativePath::new(vec![b'a', b'b']);
    let mut session = RuntimeSession::new(None);

    let first = encode(&path, &mut session).unwrap_err();
    assert_eq!(first, CodecError::RuntimeUnavailable);
    // every later call observes the same failure and the cache stays cold
    let second = encode(&path, &mut session).unwrap_err();
    assert_eq!(second, CodecError::RuntimeUnavailable);
    assert_eq!(session.class_cache, None);
}

#[test]
fn helper_class_resolved_once() {
    let path = NativePath::new(vec![b'x']);
    let mut session = RuntimeSession::new(Some(42));
    assert_eq!(session.class_cache, None);

    let first = encode(&path, &mut session).unwrap();
    assert_eq!(session.class_cache, Some(42));

    let second = encode(&path, &mut session).unwrap();
    assert_eq!(session.class_cache, Some(42));

    for handle in [first, second] {
        match handle {
            ObjectHandle::PathHelper { class, .. } => assert_eq!(class, 42),
            _ => panic!("expected a path-helper instance"),
        }
    }
}

#[test]
fn paths_with_different_bytes_differ() {
    let a = NativePath::new(vec![1u8, 2, 3]);
    let b = NativePath::new(vec![1u8, 2, 4]);
    let c = NativePath::new(vec![1u8, 2]);
    assert!(a == a.clone());
    assert!(a != b);
    assert!(a != c);
}
