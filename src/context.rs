use vstd::prelude::*;

use crate::codec::{Codec, Id, Kind};
use crate::dictionary::Dictionary;
use crate::error::Error;
use crate::media;
use crate::native::{
    blank_record, copied_record, first_serving, none_serving, open_code, opened_record,
    closed_record, Call, Native, NativeView, Slot, NULL,
};

verus! {

/// A codec context that has not been opened: either owning its native handle
/// (made by `new` or `clone`) or borrowing one that something else owns
/// (made by `wrap`).
pub struct Context {
    pub ptr: usize,
    own: bool,
}

/// A context known to be open; releasing it closes it first.
pub struct Opened(pub Context);

/// An opened context whose codec decodes.
pub struct Decoder(pub Opened);

/// An opened context whose codec encodes.
pub struct Encoder(pub Opened);

/// The native calls that releasing `c` makes: one free when it owns its handle.
pub open spec fn release_calls(c: Context) -> Seq<Call> {
    if c.is_owning() {
        seq![Call::Free(c.handle())]
    } else {
        Seq::empty()
    }
}

/// The context table after releasing `c`.
pub open spec fn released_slots(slots: Seq<Slot>, c: Context) -> Seq<Slot> {
    if c.is_owning() && c.handle() != NULL {
        slots.update(c.handle() as int, Slot::Freed)
    } else {
        slots
    }
}

/// Releasing `c`, from `pre` to `post`.
pub open spec fn release_step(pre: NativeView, post: NativeView, c: Context) -> bool {
    &&& post.same_setup(pre)
    &&& post.calls == pre.calls + release_calls(c)
    &&& post.slots == released_slots(pre.slots, c)
}

/// Releasing the opened context `o`: close, then release the context.
pub open spec fn opened_release_step(pre: NativeView, post: NativeView, o: Opened) -> bool {
    let h = o.0.handle();
    &&& post.same_setup(pre)
    &&& post.calls == pre.calls.push(Call::Close(h)) + release_calls(o.0)
    &&& post.slots == released_slots(
        pre.slots.update(h as int, Slot::Live(closed_record(pre.record(h)))),
        o.0,
    )
}

/// Opening `c` with codec `codec`: on success the same context, now open; on
/// a native failure the code, with `c` released.
pub open spec fn open_outcome(
    pre: NativeView,
    post: NativeView,
    c: Context,
    codec: Codec,
    r: Result<Opened, Error>,
) -> bool {
    let h = c.handle();
    let code = open_code(pre.record(h), pre.descriptor(codec));
    &&& post.same_setup(pre)
    &&& if code == 0 {
        &&& r == Ok::<Opened, Error>(Opened(c))
        &&& post.calls == pre.calls.push(Call::Open(h, codec))
        &&& post.slots == pre.slots.update(h as int, Slot::Live(opened_record(codec, pre.descriptor(codec))))
    } else {
        &&& r == Err::<Opened, Error>(Error::Native(code))
        &&& post.calls == pre.calls.push(Call::Open(h, codec)) + release_calls(c)
        &&& post.slots == released_slots(pre.slots, c)
    }
}

/// Cloning the context at `src` into the fresh owning context `r`.
pub open spec fn clone_step(pre: NativeView, post: NativeView, src: usize, r: Context) -> bool {
    &&& r.is_owning()
    &&& r.handle() == pre.slots.len()
    &&& r.handle() != NULL
    &&& post.same_setup(pre)
    &&& post.calls == pre.calls.push(Call::Alloc(r.handle())).push(Call::Duplicate(r.handle(), src))
    &&& post.slots == pre.slots.push(Slot::Live(copied_record(blank_record(), pre.record(src))))
}

/// The error for a missing codec of `kind`.
pub open spec fn not_found(kind: Kind) -> Error {
    match kind {
        Kind::Decoder => Error::DecoderNotFound,
        Kind::Encoder => Error::EncoderNotFound,
    }
}

/// Asking the context at `src` for a codec of `kind`: look the codec up by
/// the context's id; when there is one, open a clone of the context with it.
pub open spec fn specialize_outcome(
    pre: NativeView,
    post: NativeView,
    src: usize,
    kind: Kind,
    r: Result<Opened, Error>,
) -> bool {
    let id = pre.record(src).id;
    &&& none_serving(pre.codecs, id, kind) ==> r == Err::<Opened, Error>(not_found(kind)) && post == pre
    &&& forall|i: int|
        first_serving(pre.codecs, id, kind, i) ==> {
            let c = Codec { ptr: i as usize };
            let h = pre.slots.len() as usize;
            let code = open_code(copied_record(blank_record(), pre.record(src)), pre.codecs[i]);
            let calls = pre.calls.push(Call::Alloc(h)).push(Call::Duplicate(h, src)).push(
                Call::Open(h, c),
            );
            &&& post.same_setup(pre)
            &&& if code == 0 {
                &&& r matches Ok(o) && o.0.handle() == h && o.0.is_owning()
                &&& post.calls == calls
                &&& post.slots == pre.slots.push(Slot::Live(opened_record(c, pre.codecs[i])))
            } else {
                &&& r == Err::<Opened, Error>(Error::Native(code))
                &&& post.calls == calls.push(Call::Free(h))
                &&& post.slots == pre.slots.push(Slot::Freed)
            }
        }
}

/// Whether the opened context `o` carries a registered codec of `kind`.
pub open spec fn kind_matches(pre: NativeView, o: Opened, kind: Kind) -> bool {
    &&& pre.record(o.0.handle()).codec matches Some(c)
    &&& pre.has_codec(c)
    &&& pre.descriptor(c).kind == kind
}

/// Specialising the opened context `o` to `kind`: it is kept when its codec
/// is of that kind; otherwise it is closed and released, with `InvalidData`.
pub open spec fn narrow_outcome(
    pre: NativeView,
    post: NativeView,
    o: Opened,
    kind: Kind,
    r: Result<Opened, Error>,
) -> bool {
    if kind_matches(pre, o, kind) {
        r == Ok::<Opened, Error>(o) && post == pre
    } else {
        r == Err::<Opened, Error>(Error::InvalidData) && opened_release_step(pre, post, o)
    }
}

/// What specialising to a decoder returns, as an opened context.
pub open spec fn decoder_result(r: Result<Decoder, Error>) -> Result<Opened, Error> {
    match r {
        Ok(d) => Ok(d.0),
        Err(e) => Err(e),
    }
}

/// What specialising to an encoder returns, as an opened context.
pub open spec fn encoder_result(r: Result<Encoder, Error>) -> Result<Opened, Error> {
    match r {
        Ok(e) => Ok(e.0),
        Err(e) => Err(e),
    }
}

impl Context {
    /// The native handle this context refers to.
    pub closed spec fn handle(self) -> usize {
        self.ptr
    }

    /// The native handle this context refers to.
    pub fn as_ptr(&self) -> (r: usize)
        ensures
            r == self.handle(),
    {
        self.ptr
    }

    /// Whether releasing this context frees its handle.
    pub closed spec fn is_owning(self) -> bool {
        self.own
    }

    /// Allocates a context that owns its handle; the handle is `NULL` when
    /// allocation failed.
    pub fn new(native: &mut Native) -> (r: Context)
        ensures
            r.is_owning(),
            crate::native::alloc_step(old(native)@, final(native)@, r.handle()),
    {
        let ptr = native.alloc_context();
        Context { ptr, own: true }
    }

    /// A context that borrows `ptr`: releasing it leaves the handle alone.
    pub fn wrap(ptr: usize) -> (r: Context)
        ensures
            r.handle() == ptr,
            !r.is_owning(),
    {
        Context { ptr, own: false }
    }

    /// Ends the life of this context: frees the handle when it owns it.
    pub fn release(self, native: &mut Native)
        requires
            self.is_owning() ==> old(native)@.can_free(self.handle()),
        ensures
            release_step(old(native)@, final(native)@, self),
    {
        if self.own {
            native.free_context(self.ptr);
        }
        assert(native@.calls =~= old(native)@.calls + release_calls(self));
    }

    fn open_using(self, native: &mut Native, codec: &Codec, options: &mut Dictionary) -> (r: Result<
        Opened,
        Error,
    >)
        requires
            old(native)@.live(self.handle()),
            old(native)@.has_codec(*codec),
            self.is_owning() ==> !old(native)@.record(self.handle()).opened,
        ensures
            open_outcome(old(native)@, final(native)@, self, *codec, r),
    {
        let code = native.open_context(self.ptr, *codec, options);
        if code == 0 {
            Ok(Opened(self))
        } else {
            let ghost mid = native@;
            self.release(native);
            assert(native@.calls =~= mid.calls + release_calls(self));
            Err(Error::Native(code))
        }
    }

    /// Opens this context with `codec` and no options. On failure the context
    /// is released and the native code returned.
    pub fn open(self, native: &mut Native, codec: &Codec) -> (r: Result<Opened, Error>)
        requires
            old(native)@.live(self.handle()),
            old(native)@.has_codec(*codec),
            self.is_owning() ==> !old(native)@.record(self.handle()).opened,
        ensures
            open_outcome(old(native)@, final(native)@, self, *codec, r),
    {
        let mut options = Dictionary::new();
        self.open_using(native, codec, &mut options)
    }

    /// Opens this context with `codec`, handing `options` to the native open,
    /// which takes out the options that the codec recognises.
    pub fn open_with(self, native: &mut Native, codec: &Codec, options: Dictionary) -> (r: Result<
        Opened,
        Error,
    >)
        requires
            old(native)@.live(self.handle()),
            old(native)@.has_codec(*codec),
            self.is_owning() ==> !old(native)@.record(self.handle()).opened,
        ensures
            open_outcome(old(native)@, final(native)@, self, *codec, r),
    {
        let mut options = options;
        self.open_using(native, codec, &mut options)
    }

    fn specialize(&self, native: &mut Native, kind: Kind) -> (r: Result<Opened, Error>)
        requires
            old(native)@.live(self.handle()),
            old(native)@.can_alloc(),
        ensures
            specialize_outcome(old(native)@, final(native)@, self.handle(), kind, r),
            r matches Ok(o) ==> final(native)@.is_open(o.0.handle()) && kind_matches(
                final(native)@,
                o,
                kind,
            ),
    {
        let ghost pre = native@;
        let id = self.id(native);
        let found = match kind {
            Kind::Decoder => native.find_decoder(id),
            Kind::Encoder => native.find_encoder(id),
        };
        match found {
            Some(codec) => {
                let i = codec.ptr;
                assert(forall|j: int|
                    first_serving(pre.codecs, id, kind, j) ==> j == i as int);
                let copy = self.clone(native);
                let ghost mid = native@;
                let h = copy.ptr;
                let r = copy.open(native, &codec);
                proof {
                    assert(mid.record(h) == copied_record(blank_record(), pre.record(self.ptr)));
                    if open_code(mid.record(h), mid.descriptor(codec)) == 0 {
                        assert(native@.slots =~= pre.slots.push(
                            Slot::Live(opened_record(codec, pre.codecs[i as int])),
                        ));
                    } else {
                        assert(native@.slots =~= pre.slots.push(Slot::Freed));
                        assert(native@.calls =~= mid.calls.push(Call::Open(h, codec)).push(
                            Call::Free(h),
                        ));
                    }
                }
                r
            },
            None => match kind {
                Kind::Decoder => Err(Error::DecoderNotFound),
                Kind::Encoder => Err(Error::EncoderNotFound),
            },
        }
    }

    /// A decoder for this context: the first decoder registered for its id
    /// opens a clone of it, which this context does not consume.
    pub fn decoder(&self, native: &mut Native) -> (r: Result<Decoder, Error>)
        requires
            old(native)@.live(self.handle()),
            old(native)@.can_alloc(),
        ensures
            specialize_outcome(
                old(native)@,
                final(native)@,
                self.handle(),
                Kind::Decoder,
                decoder_result(r),
            ),
    {
        match self.specialize(native, Kind::Decoder) {
            Ok(o) => o.decoder(native),
            Err(e) => Err(e),
        }
    }

    /// An encoder for this context: the first encoder registered for its id
    /// opens a clone of it, which this context does not consume.
    pub fn encoder(&self, native: &mut Native) -> (r: Result<Encoder, Error>)
        requires
            old(native)@.live(self.handle()),
            old(native)@.can_alloc(),
        ensures
            specialize_outcome(
                old(native)@,
                final(native)@,
                self.handle(),
                Kind::Encoder,
                encoder_result(r),
            ),
    {
        match self.specialize(native, Kind::Encoder) {
            Ok(o) => o.encoder(native),
            Err(e) => Err(e),
        }
    }

    /// The codec the context is open with, if any (none for a handle that
    /// refers to no live context).
    pub fn codec(&self, native: &Native) -> (r: Option<Codec>)
        ensures
            r == if native@.live(self.handle()) {
                native@.record(self.handle()).codec
            } else {
                None::<Codec>
            },
    {
        match native.record(self.ptr) {
            Some(rec) => rec.codec,
            None => None,
        }
    }

    /// The media kind recorded in the context.
    pub fn medium(&self, native: &Native) -> (r: media::Type)
        ensures
            r == if native@.live(self.handle()) {
                native@.record(self.handle()).medium
            } else {
                media::Type::Unknown
            },
    {
        match native.record(self.ptr) {
            Some(rec) => rec.medium,
            None => media::Type::Unknown,
        }
    }

    /// The codec id recorded in the context.
    pub fn id(&self, native: &Native) -> (r: Id)
        ensures
            r == if native@.live(self.handle()) {
                native@.record(self.handle()).id
            } else {
                Id(0)
            },
    {
        match native.record(self.ptr) {
            Some(rec) => rec.id,
            None => Id(0),
        }
    }

    /// A new owning context holding a deep copy of this one, whether this one
    /// owns its handle or not.
    pub fn clone(&self, native: &mut Native) -> (r: Context)
        requires
            old(native)@.live(self.handle()),
            old(native)@.can_alloc(),
        ensures
            clone_step(old(native)@, final(native)@, self.handle(), r),
    {
        let ghost pre = native@;
        let mut ctx = Context::new(native);
        let ghost mid = native@;
        ctx.clone_from(native, self);
        assert(mid.record(ctx.ptr) == blank_record());
        assert(mid.record(self.ptr) == pre.record(self.ptr));
        assert(native@.slots =~= pre.slots.push(
            Slot::Live(copied_record(blank_record(), pre.record(self.ptr))),
        ));
        ctx
    }

    /// Copies the state of `source` into this context's handle.
    pub fn clone_from(&mut self, native: &mut Native, source: &Context)
        requires
            old(native)@.live(old(self).handle()),
            old(native)@.live(source.handle()),
        ensures
            *final(self) == *old(self),
            crate::native::duplicate_step(
                old(native)@,
                final(native)@,
                old(self).handle(),
                source.handle(),
                if old(native)@.record(old(self).handle()).opened {
                    crate::native::EINVAL
                } else {
                    0
                },
            ),
    {
        native.copy_context(self.ptr, source.ptr);
    }
}

impl Opened {
    /// Specialises to a decoder when the codec decodes; otherwise the context
    /// is closed and released, and the error is `InvalidData`.
    pub fn decoder(self, native: &mut Native) -> (r: Result<Decoder, Error>)
        requires
            old(native)@.is_open(self.0.handle()),
        ensures
            narrow_outcome(old(native)@, final(native)@, self, Kind::Decoder, decoder_result(r)),
    {
        let valid = match self.0.codec(native) {
            Some(c) => c.is_decoder(native),
            None => false,
        };
        if valid {
            Ok(Decoder(self))
        } else {
            self.release(native);
            Err(Error::InvalidData)
        }
    }

    /// Specialises to an encoder when the codec encodes; otherwise the context
    /// is closed and released, and the error is `InvalidData`.
    pub fn encoder(self, native: &mut Native) -> (r: Result<Encoder, Error>)
        requires
            old(native)@.is_open(self.0.handle()),
        ensures
            narrow_outcome(old(native)@, final(native)@, self, Kind::Encoder, encoder_result(r)),
    {
        let valid = match self.0.codec(native) {
            Some(c) => c.is_encoder(native),
            None => false,
        };
        if valid {
            Ok(Encoder(self))
        } else {
            self.release(native);
            Err(Error::InvalidData)
        }
    }

    /// Ends the life of this opened context: closes it, then releases the
    /// context (which frees the handle when it owns it).
    pub fn release(self, native: &mut Native)
        requires
            old(native)@.is_open(self.0.handle()),
        ensures
            opened_release_step(old(native)@, final(native)@, self),
    {
        let ghost o = self;
        let Opened(ctx) = self;
        native.close_context(ctx.ptr);
        let ghost mid = native@;
        ctx.release(native);
        assert(native@.calls =~= mid.calls + release_calls(o.0));
    }
}

impl std::ops::Deref for Opened {
    type Target = Context;

    fn deref(&self) -> (r: &Context)
        ensures
            *r == self.0,
    {
        &self.0
    }
}

impl Decoder {
    /// Ends the life of this decoder: closes and releases its context.
    pub fn release(self, native: &mut Native)
        requires
            old(native)@.is_open(self.0.0.handle()),
        ensures
            opened_release_step(old(native)@, final(native)@, self.0),
    {
        self.0.release(native)
    }
}

impl Encoder {
    /// Ends the life of this encoder: closes and releases its context.
    pub fn release(self, native: &mut Native)
        requires
            old(native)@.is_open(self.0.0.handle()),
        ensures
            opened_release_step(old(native)@, final(native)@, self.0),
    {
        self.0.release(native)
    }
}

} // verus!
