use codec_context::codec::{Codec, Descriptor, Id, Kind};
use codec_context::context::Context;
use codec_context::dictionary::Dictionary;
use codec_context::error::Error;
use codec_context::media::Type;
use codec_context::native::{Call, Native, EINVAL, NULL};

fn descriptor(id: u32, kind: Kind, medium: Type, init_result: i32, options: &[&str]) -> Descriptor {
    Descriptor {
        id: Id(id),
        kind,
        medium,
        init_result,
        options: options.iter().map(|s| s.to_string()).collect(),
    }
}

fn count(native: &Native, call: Call) -> usize {
    native.calls().iter().filter(|c| **c == call).count()
}

#[test]
fn allocated_context_is_freed_once_on_release() {
    let mut native = Native::new(4);
    let ctx = Context::new(&mut native);
    let h = ctx.as_ptr();
    assert_eq!(h, 0);
    assert!(native.record(h).is_some());
    ctx.release(&mut native);
    assert_eq!(native.calls(), &vec![Call::Alloc(0), Call::Free(0)]);
    assert_eq!(count(&native, Call::Free(h)), 1);
    assert!(native.record(h).is_none());
}

#[test]
fn failed_allocation_gives_null_handle() {
    let mut native = Native::new(0);
    let ctx = Context::new(&mut native);
    assert_eq!(ctx.as_ptr(), NULL);
    assert!(ctx.codec(&native).is_none());
    assert_eq!(ctx.medium(&native), Type::Unknown);
    assert_eq!(ctx.id(&native), Id(0));
    ctx.release(&mut native);
    assert_eq!(native.calls(), &vec![Call::Alloc(NULL), Call::Free(NULL)]);
}

#[test]
fn wrapped_context_release_makes_no_call() {
    let mut native = Native::new(4);
    let owner = Context::new(&mut native);
    let h = owner.as_ptr();
    let borrowed = Context::wrap(h);
    let before = native.calls().clone();
    borrowed.release(&mut native);
    assert_eq!(native.calls(), &before);
    assert_eq!(count(&native, Call::Free(h)), 0);
    assert!(native.record(h).is_some());
    owner.release(&mut native);
    assert_eq!(count(&native, Call::Free(h)), 1);
}

#[test]
fn failed_open_returns_code_and_frees_once() {
    let mut native = Native::new(4);
    let codec = native.register(descriptor(7, Kind::Decoder, Type::Video, -12, &[]));
    let ctx = Context::new(&mut native);
    let h = ctx.as_ptr();
    let r = ctx.open(&mut native, &codec);
    assert_eq!(r.err(), Some(Error::Native(-12)));
    assert_eq!(native.calls(), &vec![Call::Alloc(h), Call::Open(h, codec), Call::Free(h)]);
    assert_eq!(count(&native, Call::Free(h)), 1);
    assert!(native.record(h).is_none());
}

#[test]
fn open_with_mismatched_id_is_invalid() {
    let mut native = Native::new(4);
    let codec = native.register(descriptor(7, Kind::Decoder, Type::Video, 0, &[]));
    let ctx = Context::new(&mut native);
    native.set_id(ctx.as_ptr(), Id(8));
    let r = ctx.open(&mut native, &codec);
    assert_eq!(r.err(), Some(Error::Native(EINVAL)));
}

#[test]
fn open_with_mismatched_medium_is_invalid() {
    let mut native = Native::new(4);
    let codec = native.register(descriptor(7, Kind::Decoder, Type::Video, 0, &[]));
    let ctx = Context::new(&mut native);
    native.set_medium(ctx.as_ptr(), Type::Audio);
    let r = ctx.open(&mut native, &codec);
    assert_eq!(r.err(), Some(Error::Native(EINVAL)));
}

#[test]
fn second_open_of_a_handle_fails() {
    let mut native = Native::new(4);
    let codec = native.register(descriptor(7, Kind::Decoder, Type::Video, 0, &[]));
    let ctx = Context::new(&mut native);
    let h = ctx.as_ptr();
    let opened = ctx.open(&mut native, &codec).ok().unwrap();
    let again = Context::wrap(h).open(&mut native, &codec);
    assert_eq!(again.err(), Some(Error::Native(EINVAL)));
    opened.release(&mut native);
    assert_eq!(count(&native, Call::Close(h)), 1);
    assert_eq!(count(&native, Call::Free(h)), 1);
}

#[test]
fn successful_open_records_codec() {
    let mut native = Native::new(4);
    let codec = native.register(descriptor(7, Kind::Encoder, Type::Audio, 0, &[]));
    let ctx = Context::new(&mut native);
    let h = ctx.as_ptr();
    let opened = ctx.open(&mut native, &codec).ok().unwrap();
    assert_eq!(opened.codec(&native), Some(codec));
    assert_eq!(opened.id(&native), Id(7));
    assert_eq!(opened.medium(&native), Type::Audio);
    opened.release(&mut native);
    assert_eq!(
        native.calls(),
        &vec![Call::Alloc(h), Call::Open(h, codec), Call::Close(h), Call::Free(h)]
    );
}

#[test]
fn missing_decoder_is_reported_without_open() {
    let mut native = Native::new(4);
    native.register(descriptor(7, Kind::Encoder, Type::Video, 0, &[]));
    let ctx = Context::new(&mut native);
    native.set_id(ctx.as_ptr(), Id(7));
    let before = native.calls().clone();
    let r = ctx.decoder(&mut native);
    assert_eq!(r.err(), Some(Error::DecoderNotFound));
    assert_eq!(native.calls(), &before);
}

#[test]
fn missing_encoder_is_reported_without_open() {
    let mut native = Native::new(4);
    native.register(descriptor(7, Kind::Decoder, Type::Video, 0, &[]));
    let ctx = Context::new(&mut native);
    native.set_id(ctx.as_ptr(), Id(7));
    let before = native.calls().clone();
    let r = ctx.encoder(&mut native);
    assert_eq!(r.err(), Some(Error::EncoderNotFound));
    assert_eq!(native.calls(), &before);
    assert_eq!(native.calls().iter().filter(|c| matches!(c, Call::Open(_, _))).count(), 0);
}

#[test]
fn kind_mismatch_closes_once() {
    let mut native = Native::new(4);
    let codec = native.register(descriptor(7, Kind::Encoder, Type::Video, 0, &[]));
    let ctx = Context::new(&mut native);
    let h = ctx.as_ptr();
    let opened = ctx.open(&mut native, &codec).ok().unwrap();
    let r = opened.decoder(&mut native);
    assert_eq!(r.err(), Some(Error::InvalidData));
    assert_eq!(count(&native, Call::Close(h)), 1);
    assert_eq!(count(&native, Call::Free(h)), 1);
    assert_eq!(
        native.calls(),
        &vec![Call::Alloc(h), Call::Open(h, codec), Call::Close(h), Call::Free(h)]
    );
}

#[test]
fn kind_mismatch_on_borrowed_closes_without_free() {
    let mut native = Native::new(4);
    let codec = native.register(descriptor(7, Kind::Decoder, Type::Video, 0, &[]));
    let owner = Context::new(&mut native);
    let h = owner.as_ptr();
    let opened = Context::wrap(h).open(&mut native, &codec).ok().unwrap();
    let r = opened.encoder(&mut native);
    assert_eq!(r.err(), Some(Error::InvalidData));
    assert_eq!(count(&native, Call::Close(h)), 1);
    assert_eq!(count(&native, Call::Free(h)), 0);
    assert!(native.record(h).is_some());
}

#[test]
fn clone_is_an_owning_deep_copy() {
    let mut native = Native::new(4);
    let owner = Context::new(&mut native);
    let h = owner.as_ptr();
    native.set_id(h, Id(27));
    native.set_medium(h, Type::Subtitle);
    let borrowed = Context::wrap(h);
    let a = owner.clone(&mut native);
    let b = borrowed.clone(&mut native);
    assert_eq!(a.as_ptr(), 1);
    assert_eq!(b.as_ptr(), 2);
    for c in [&a, &b] {
        assert_eq!(c.id(&native), Id(27));
        assert_eq!(c.medium(&native), Type::Subtitle);
        assert!(c.codec(&native).is_none());
    }
    native.set_id(h, Id(3));
    assert_eq!(a.id(&native), Id(27));
    b.release(&mut native);
    a.release(&mut native);
    assert_eq!(count(&native, Call::Free(1)), 1);
    assert_eq!(count(&native, Call::Free(2)), 1);
    assert_eq!(count(&native, Call::Duplicate(1, h)), 1);
    assert_eq!(count(&native, Call::Duplicate(2, h)), 1);
    assert!(native.record(h).is_some());
}

#[test]
fn clone_from_copies_into_existing_handle() {
    let mut native = Native::new(4);
    let src = Context::new(&mut native);
    native.set_id(src.as_ptr(), Id(5));
    let mut dst = Context::new(&mut native);
    dst.clone_from(&mut native, &src);
    assert_eq!(dst.id(&native), Id(5));
    assert_eq!(dst.as_ptr(), 1);
}

#[test]
fn decoder_round_trip_keeps_id() {
    let mut native = Native::new(4);
    native.register(descriptor(9, Kind::Encoder, Type::Video, 0, &[]));
    let dec = native.register(descriptor(9, Kind::Decoder, Type::Video, 0, &[]));
    let ctx = Context::new(&mut native);
    native.set_id(ctx.as_ptr(), Id(9));
    let d = ctx.decoder(&mut native).ok().unwrap();
    assert_eq!(d.0.id(&native), Id(9));
    assert_eq!(d.0.codec(&native), Some(dec));
    assert_eq!(ctx.id(&native), Id(9));
    assert!(ctx.codec(&native).is_none());
    let h = d.0.as_ptr();
    assert_ne!(h, ctx.as_ptr());
    d.release(&mut native);
    assert_eq!(count(&native, Call::Close(h)), 1);
    assert_eq!(count(&native, Call::Free(h)), 1);
}

#[test]
fn encoder_round_trip_keeps_id() {
    let mut native = Native::new(4);
    let enc = native.register(descriptor(4, Kind::Encoder, Type::Audio, 0, &[]));
    let ctx = Context::new(&mut native);
    native.set_id(ctx.as_ptr(), Id(4));
    let e = ctx.encoder(&mut native).ok().unwrap();
    assert_eq!(e.0.id(&native), Id(4));
    assert_eq!(e.0.codec(&native), Some(enc));
    e.release(&mut native);
}

#[test]
fn decoder_whose_open_fails_frees_the_clone() {
    let mut native = Native::new(4);
    native.register(descriptor(9, Kind::Decoder, Type::Video, -5, &[]));
    let ctx = Context::new(&mut native);
    native.set_id(ctx.as_ptr(), Id(9));
    let r = ctx.decoder(&mut native);
    assert_eq!(r.err(), Some(Error::Native(-5)));
    assert_eq!(count(&native, Call::Free(1)), 1);
    assert!(native.record(1).is_none());
    assert!(native.record(0).is_some());
}

#[test]
fn specialisation_matches_declared_kind() {
    for (kind, want_decoder) in [(Kind::Decoder, true), (Kind::Encoder, false)] {
        let mut native = Native::new(4);
        let codec = native.register(descriptor(2, kind, Type::Video, 0, &[]));
        let ctx = Context::new(&mut native);
        let opened = ctx.open(&mut native, &codec).ok().unwrap();
        assert_eq!(opened.decoder(&mut native).is_ok(), want_decoder);
        let ctx = Context::new(&mut native);
        let opened = ctx.open(&mut native, &codec).ok().unwrap();
        assert_eq!(opened.encoder(&mut native).is_ok(), !want_decoder);
    }
}

#[test]
fn wrap_null_has_no_codec() {
    let native = Native::new(4);
    let ctx = Context::wrap(NULL);
    assert_eq!(ctx.codec(&native), None::<Codec>);
}

#[test]
fn open_with_consumes_recognised_options() {
    let mut native = Native::new(4);
    let codec = native.register(descriptor(7, Kind::Decoder, Type::Video, 0, &["threads"]));
    let ctx = Context::new(&mut native);
    let h = ctx.as_ptr();
    let mut options = Dictionary::new();
    options.set("threads".to_string(), "4".to_string());
    options.set("bogus".to_string(), "1".to_string());
    assert_eq!(native.open_context(h, codec, &mut options), 0);
    assert_eq!(options.len(), 1);
    assert!(options.get(&"threads".to_string()).is_none());
    assert_eq!(options.get(&"bogus".to_string()), Some(&"1".to_string()));

    let other = Context::new(&mut native);
    let mut options = Dictionary::new();
    options.set("threads".to_string(), "4".to_string());
    options.set("bogus".to_string(), "1".to_string());
    let opened = other.open_with(&mut native, &codec, options);
    assert!(opened.is_ok());
}

#[test]
fn failed_native_open_leaves_options() {
    let mut native = Native::new(4);
    let codec = native.register(descriptor(7, Kind::Decoder, Type::Video, -1, &["threads"]));
    let h = native.alloc_context();
    let mut options = Dictionary::new();
    options.set("threads".to_string(), "4".to_string());
    assert_eq!(native.open_context(h, codec, &mut options), -1);
    assert_eq!(options.len(), 1);
}

#[test]
fn dictionary_set_replaces_first_match() {
    let mut d = Dictionary::new();
    assert_eq!(d.len(), 0);
    d.set("a".to_string(), "1".to_string());
    d.set("b".to_string(), "2".to_string());
    d.set("a".to_string(), "3".to_string());
    assert_eq!(d.len(), 2);
    assert_eq!(d.get(&"a".to_string()), Some(&"3".to_string()));
    assert_eq!(d.get(&"b".to_string()), Some(&"2".to_string()));
    assert!(d.get(&"c".to_string()).is_none());
}

#[test]
fn registry_lookup_takes_first_of_kind() {
    let mut native = Native::new(4);
    let e = native.register(descriptor(3, Kind::Encoder, Type::Video, 0, &[]));
    let d1 = native.register(descriptor(3, Kind::Decoder, Type::Video, 0, &[]));
    native.register(descriptor(3, Kind::Decoder, Type::Video, 0, &[]));
    assert_eq!(native.find_decoder(Id(3)), Some(d1));
    assert_eq!(native.find_encoder(Id(3)), Some(e));
    assert_eq!(native.find_decoder(Id(4)), None);
    assert!(d1.is_decoder(&native));
    assert!(!d1.is_encoder(&native));
    assert!(!Codec { ptr: 10 }.is_decoder(&native));
}
