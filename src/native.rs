use vstd::prelude::*;

use crate::codec::{Codec, Descriptor, Id, Kind};
use crate::dictionary::{unlisted_entries, Dictionary, EntryView};
use crate::media;

verus! {

/// The handle value that refers to no context.
pub const NULL: usize = usize::MAX;

/// The code a native call returns for an invalid argument.
pub const EINVAL: i32 = -22;

/// The state that the native layer holds for one codec context.
#[derive(Debug, Clone, Copy, PartialEq, Eq)]
pub struct Record {
    /// The codec the context was opened with, if any.
    pub codec: Option<Codec>,
    pub medium: media::Type,
    pub id: Id,
    pub opened: bool,
}

/// One entry of the native context table.
#[derive(Debug, Clone, Copy, PartialEq, Eq)]
pub enum Slot {
    Live(Record),
    Freed,
}

/// One call into the native layer, as the log records it.
#[derive(Debug, Clone, Copy, PartialEq, Eq)]
pub enum Call {
    /// Allocation; the handle it returned (`NULL` on failure).
    Alloc(usize),
    Free(usize),
    /// Deep copy: destination, then source.
    Duplicate(usize, usize),
    Open(usize, Codec),
    Close(usize),
}

/// The mathematical state of the native layer.
pub struct NativeView {
    pub slots: Seq<Slot>,
    pub codecs: Seq<Descriptor>,
    pub calls: Seq<Call>,
    /// How many contexts can ever be allocated.
    pub limit: nat,
}

impl NativeView {
    pub open spec fn live(self, h: usize) -> bool {
        h < self.slots.len() && self.slots[h as int] is Live
    }

    pub open spec fn record(self, h: usize) -> Record {
        self.slots[h as int]->Live_0
    }

    pub open spec fn is_open(self, h: usize) -> bool {
        self.live(h) && self.record(h).opened
    }

    pub open spec fn has_codec(self, c: Codec) -> bool {
        c.ptr < self.codecs.len()
    }

    pub open spec fn descriptor(self, c: Codec) -> Descriptor {
        self.codecs[c.ptr as int]
    }

    pub open spec fn can_alloc(self) -> bool {
        self.slots.len() < self.limit
    }

    /// Freeing is allowed: the null handle, or a live context that is not open.
    pub open spec fn can_free(self, h: usize) -> bool {
        h == NULL || (self.live(h) && !self.record(h).opened)
    }

    /// Everything but the slot table and the log is as in `pre`.
    pub open spec fn same_setup(self, pre: NativeView) -> bool {
        self.codecs == pre.codecs && self.limit == pre.limit
    }
}

/// The state of a freshly allocated context.
pub open spec fn blank_record() -> Record {
    Record { codec: None, medium: media::Type::Unknown, id: Id(0), opened: false }
}

/// `dst` after a deep copy from `src`: it keeps its own codec and stays unopened.
pub open spec fn copied_record(dst: Record, src: Record) -> Record {
    Record { codec: dst.codec, medium: src.medium, id: src.id, opened: false }
}

/// A context after a successful open with `c`, whose descriptor is `d`.
pub open spec fn opened_record(c: Codec, d: Descriptor) -> Record {
    Record { codec: Some(c), medium: d.medium, id: d.id, opened: true }
}

/// A context after it was closed.
pub open spec fn closed_record(r: Record) -> Record {
    Record { codec: None, opened: false, ..r }
}

/// What the native open returns for a context in state `r` and a codec
/// described by `d`: zero on success, a negative code otherwise.
pub open spec fn open_code(r: Record, d: Descriptor) -> i32 {
    if r.opened {
        EINVAL
    } else if !r.id.spec_is_none() && r.id != d.id {
        EINVAL
    } else if r.medium != media::Type::Unknown && r.medium != d.medium {
        EINVAL
    } else if d.init_result < 0 {
        d.init_result
    } else {
        0
    }
}

/// Whether `d` is registered for `id` and `kind`.
pub open spec fn serves(d: Descriptor, id: Id, kind: Kind) -> bool {
    d.id == id && d.kind == kind
}

/// Whether position `i` is the first codec registered for `id` and `kind`.
pub open spec fn first_serving(codecs: Seq<Descriptor>, id: Id, kind: Kind, i: int) -> bool {
    &&& 0 <= i < codecs.len()
    &&& serves(codecs[i], id, kind)
    &&& forall|j: int| 0 <= j < i ==> !serves(#[trigger] codecs[j], id, kind)
}

/// Whether no codec is registered for `id` and `kind`.
pub open spec fn none_serving(codecs: Seq<Descriptor>, id: Id, kind: Kind) -> bool {
    forall|j: int| 0 <= j < codecs.len() ==> !serves(#[trigger] codecs[j], id, kind)
}

/// What a registry lookup returns: the first codec registered for `id` and `kind`.
pub open spec fn lookup(codecs: Seq<Descriptor>, id: Id, kind: Kind, r: Option<Codec>) -> bool {
    match r {
        Some(c) => first_serving(codecs, id, kind, c.ptr as int),
        None => none_serving(codecs, id, kind),
    }
}

/// An allocation from `pre` to `post` that returned `h`.
pub open spec fn alloc_step(pre: NativeView, post: NativeView, h: usize) -> bool {
    &&& post.same_setup(pre)
    &&& post.calls == pre.calls.push(Call::Alloc(h))
    &&& if pre.can_alloc() {
        &&& h == pre.slots.len()
        &&& h != NULL
        &&& post.slots == pre.slots.push(Slot::Live(blank_record()))
    } else {
        h == NULL && post.slots == pre.slots
    }
}

/// Freeing handle `h` (a no-op on the table for the null handle).
pub open spec fn free_step(pre: NativeView, post: NativeView, h: usize) -> bool {
    &&& post.same_setup(pre)
    &&& post.calls == pre.calls.push(Call::Free(h))
    &&& post.slots == if h == NULL {
        pre.slots
    } else {
        pre.slots.update(h as int, Slot::Freed)
    }
}

/// A deep copy from `src` into `dst` that returned `code`.
pub open spec fn duplicate_step(
    pre: NativeView,
    post: NativeView,
    dst: usize,
    src: usize,
    code: i32,
) -> bool {
    &&& post.same_setup(pre)
    &&& post.calls == pre.calls.push(Call::Duplicate(dst, src))
    &&& if pre.record(dst).opened {
        code == EINVAL && post.slots == pre.slots
    } else {
        &&& code == 0
        &&& post.slots == pre.slots.update(
            dst as int,
            Slot::Live(copied_record(pre.record(dst), pre.record(src))),
        )
    }
}

/// Opening `h` with `c`, options `opts` before and `rest` after, returning `code`.
pub open spec fn open_step(
    pre: NativeView,
    post: NativeView,
    h: usize,
    c: Codec,
    opts: Seq<EntryView>,
    rest: Seq<EntryView>,
    code: i32,
) -> bool {
    &&& post.same_setup(pre)
    &&& post.calls == pre.calls.push(Call::Open(h, c))
    &&& code == open_code(pre.record(h), pre.descriptor(c))
    &&& if code == 0 {
        &&& post.slots == pre.slots.update(h as int, Slot::Live(opened_record(c, pre.descriptor(c))))
        &&& rest == unlisted_entries(opts, pre.descriptor(c).names())
    } else {
        post.slots == pre.slots && rest == opts
    }
}

/// Closing `h`.
pub open spec fn close_step(pre: NativeView, post: NativeView, h: usize) -> bool {
    &&& post.same_setup(pre)
    &&& post.calls == pre.calls.push(Call::Close(h))
    &&& post.slots == pre.slots.update(h as int, Slot::Live(closed_record(pre.record(h))))
}

/// The native codec layer: its context table, its codec registry, and the log
/// of every call made into it.
pub struct Native {
    slots: Vec<Slot>,
    codecs: Vec<Descriptor>,
    calls: Vec<Call>,
    limit: usize,
}

impl View for Native {
    type V = NativeView;

    closed spec fn view(&self) -> NativeView {
        NativeView {
            slots: self.slots@,
            codecs: self.codecs@,
            calls: self.calls@,
            limit: self.limit as nat,
        }
    }
}

impl Native {
    /// A native layer with no codec registered, no context, and room for
    /// `limit` allocations.
    pub fn new(limit: usize) -> (r: Native)
        ensures
            r@.slots == Seq::<Slot>::empty(),
            r@.codecs == Seq::<Descriptor>::empty(),
            r@.calls == Seq::<Call>::empty(),
            r@.limit == limit,
    {
        Native { slots: Vec::new(), codecs: Vec::new(), calls: Vec::new(), limit }
    }

    /// Adds a codec implementation to the registry.
    pub fn register(&mut self, d: Descriptor) -> (r: Codec)
        ensures
            r.ptr == old(self)@.codecs.len(),
            final(self)@.codecs == old(self)@.codecs.push(d),
            final(self)@.slots == old(self)@.slots,
            final(self)@.calls == old(self)@.calls,
            final(self)@.limit == old(self)@.limit,
    {
        let r = Codec { ptr: self.codecs.len() };
        self.codecs.push(d);
        r
    }

    /// The calls made so far, oldest first.
    pub fn calls(&self) -> (r: &Vec<Call>)
        ensures
            r@ == self@.calls,
    {
        &self.calls
    }

    /// The state of context `h`, where `h` is live.
    pub fn record(&self, h: usize) -> (r: Option<Record>)
        ensures
            r == if self@.live(h) {
                Some(self@.record(h))
            } else {
                None::<Record>
            },
    {
        if h < self.slots.len() {
            match self.slots[h] {
                Slot::Live(rec) => Some(rec),
                Slot::Freed => None,
            }
        } else {
            None
        }
    }

    /// Number of registered codecs.
    pub fn codec_count(&self) -> (r: usize)
        ensures
            r == self@.codecs.len(),
    {
        self.codecs.len()
    }

    fn live_record(&self, h: usize) -> (r: Record)
        requires
            self@.live(h),
        ensures
            r == self@.record(h),
    {
        match self.slots[h] {
            Slot::Live(rec) => rec,
            Slot::Freed => Record {
                codec: None,
                medium: media::Type::Unknown,
                id: Id(0),
                opened: false,
            },
        }
    }

    /// What the registry holds for `c`.
    pub fn descriptor(&self, c: Codec) -> (r: &Descriptor)
        requires
            self@.has_codec(c),
        ensures
            *r == self@.descriptor(c),
    {
        &self.codecs[c.ptr]
    }

    fn find(&self, id: Id, kind: Kind) -> (r: Option<Codec>)
        ensures
            lookup(self@.codecs, id, kind, r),
    {
        let mut i: usize = 0;
        while i < self.codecs.len()
            invariant
                i <= self.codecs.len(),
                forall|j: int| 0 <= j < i ==> !serves(#[trigger] self@.codecs[j], id, kind),
            decreases self.codecs.len() - i,
        {
            if self.codecs[i].id == id && self.codecs[i].kind == kind {
                return Some(Codec { ptr: i });
            }
            i += 1;
        }
        None
    }

    /// The first decoder registered for `id`.
    pub fn find_decoder(&self, id: Id) -> (r: Option<Codec>)
        ensures
            lookup(self@.codecs, id, Kind::Decoder, r),
    {
        self.find(id, Kind::Decoder)
    }

    /// The first encoder registered for `id`.
    pub fn find_encoder(&self, id: Id) -> (r: Option<Codec>)
        ensures
            lookup(self@.codecs, id, Kind::Encoder, r),
    {
        self.find(id, Kind::Encoder)
    }

    /// Allocates a context; `NULL` when the table is full.
    pub fn alloc_context(&mut self) -> (h: usize)
        ensures
            alloc_step(old(self)@, final(self)@, h),
    {
        let h = if self.slots.len() < self.limit {
            let h = self.slots.len();
            self.slots.push(Slot::Live(Record {
                codec: None,
                medium: media::Type::Unknown,
                id: Id(0),
                opened: false,
            }));
            h
        } else {
            NULL
        };
        self.calls.push(Call::Alloc(h));
        h
    }

    /// Frees context `h`.
    pub fn free_context(&mut self, h: usize)
        requires
            old(self)@.can_free(h),
        ensures
            free_step(old(self)@, final(self)@, h),
    {
        if h != NULL {
            self.slots.set(h, Slot::Freed);
        }
        self.calls.push(Call::Free(h));
    }

    /// Copies the state of `src` into `dst`, which must not be open.
    pub fn copy_context(&mut self, dst: usize, src: usize) -> (code: i32)
        requires
            old(self)@.live(dst),
            old(self)@.live(src),
        ensures
            duplicate_step(old(self)@, final(self)@, dst, src, code),
    {
        let d = self.live_record(dst);
        let s = self.live_record(src);
        let code = if d.opened {
            EINVAL
        } else {
            self.slots.set(
                dst,
                Slot::Live(Record { codec: d.codec, medium: s.medium, id: s.id, opened: false }),
            );
            0
        };
        self.calls.push(Call::Duplicate(dst, src));
        code
    }

    /// Opens context `h` with codec `c`. On success the options that the codec
    /// recognises are taken out of `options`.
    pub fn open_context(&mut self, h: usize, c: Codec, options: &mut Dictionary) -> (code: i32)
        requires
            old(self)@.live(h),
            old(self)@.has_codec(c),
        ensures
            open_step(old(self)@, final(self)@, h, c, old(options)@, final(options)@, code),
    {
        let r = self.live_record(h);
        let d = &self.codecs[c.ptr];
        let code = if r.opened {
            EINVAL
        } else if !r.id.is_none() && r.id != d.id {
            EINVAL
        } else if r.medium != media::Type::Unknown && r.medium != d.medium {
            EINVAL
        } else if d.init_result < 0 {
            d.init_result
        } else {
            0
        };
        if code == 0 {
            options.retain_unlisted(&d.options);
            let rec = Record { codec: Some(c), medium: d.medium, id: d.id, opened: true };
            self.slots.set(h, Slot::Live(rec));
        }
        self.calls.push(Call::Open(h, c));
        code
    }

    /// Records codec id `id` in context `h`, which must not be open.
    pub fn set_id(&mut self, h: usize, id: Id)
        requires
            old(self)@.live(h),
            !old(self)@.record(h).opened,
        ensures
            final(self)@.same_setup(old(self)@),
            final(self)@.calls == old(self)@.calls,
            final(self)@.slots == old(self)@.slots.update(
                h as int,
                Slot::Live(Record { id, ..old(self)@.record(h) }),
            ),
    {
        if let Slot::Live(rec) = self.slots[h] {
            self.slots.set(h, Slot::Live(Record { id, ..rec }));
        }
    }

    /// Records media kind `medium` in context `h`, which must not be open.
    pub fn set_medium(&mut self, h: usize, medium: media::Type)
        requires
            old(self)@.live(h),
            !old(self)@.record(h).opened,
        ensures
            final(self)@.same_setup(old(self)@),
            final(self)@.calls == old(self)@.calls,
            final(self)@.slots == old(self)@.slots.update(
                h as int,
                Slot::Live(Record { medium, ..old(self)@.record(h) }),
            ),
    {
        if let Slot::Live(rec) = self.slots[h] {
            self.slots.set(h, Slot::Live(Record { medium, ..rec }));
        }
    }

    /// Closes context `h`, which must be open.
    pub fn close_context(&mut self, h: usize)
        requires
            old(self)@.is_open(h),
        ensures
            close_step(old(self)@, final(self)@, h),
    {
        let r = self.live_record(h);
        self.slots.set(h, Slot::Live(Record { codec: None, opened: false, ..r }));
        self.calls.push(Call::Close(h));
    }
}

} // verus!
