//! Laws of the context lifecycle, stated over the transition predicates that
//! the operations' contracts use.
use vstd::prelude::*;

use crate::codec::{Codec, Kind};
use crate::context::{
    kind_matches, narrow_outcome, open_outcome, release_step, specialize_outcome, not_found,
    release_calls, Context, Opened,
};
use crate::error::Error;
use crate::native::{alloc_step, none_serving, open_code, Call, NativeView, NULL};

verus! {

/// How many times `k` occurs in `calls`.
pub open spec fn count_calls(calls: Seq<Call>, k: Call) -> nat
    decreases calls.len(),
{
    if calls.len() == 0 {
        0
    } else {
        count_calls(calls.drop_last(), k) + if calls.last() == k {
            1nat
        } else {
            0nat
        }
    }
}

/// The calls made between `pre` and `post`.
pub open spec fn calls_since(pre: NativeView, post: NativeView) -> Seq<Call> {
    post.calls.skip(pre.calls.len() as int)
}

/// A context that was allocated and then released without being opened
/// frees its handle exactly once, after the allocation, and leaves no live
/// context behind.
pub proof fn lemma_allocated_release_frees_once(
    n0: NativeView,
    n1: NativeView,
    n2: NativeView,
    c: Context,
)
    requires
        c.is_owning(),
        alloc_step(n0, n1, c.handle()),
        release_step(n1, n2, c),
    ensures
        calls_since(n0, n2) == seq![Call::Alloc(c.handle()), Call::Free(c.handle())],
        count_calls(calls_since(n0, n2), Call::Free(c.handle())) == 1,
        c.handle() != NULL ==> n1.live(c.handle()) && !n2.live(c.handle()),
{
    let h = c.handle();
    assert(calls_since(n0, n2) =~= seq![Call::Alloc(h), Call::Free(h)]);
    reveal_with_fuel(count_calls, 3);
    assert(seq![Call::Alloc(h), Call::Free(h)].drop_last() =~= seq![Call::Alloc(h)]);
    assert(seq![Call::Alloc(h)].drop_last() =~= Seq::<Call>::empty());
}

/// Releasing a context that borrows its handle makes no native call and
/// changes nothing.
pub proof fn lemma_borrowed_release_is_silent(n0: NativeView, n1: NativeView, c: Context)
    requires
        !c.is_owning(),
        release_step(n0, n1, c),
    ensures
        n1 == n0,
{
    assert(n1.calls =~= n0.calls);
}

/// An open that fails in the native layer reports the native code and still
/// frees an owned handle exactly once, leaving it no longer live.
pub proof fn lemma_failed_open_releases(
    n0: NativeView,
    n1: NativeView,
    c: Context,
    codec: Codec,
    r: Result<Opened, Error>,
)
    requires
        c.is_owning(),
        n0.live(c.handle()),
        open_code(n0.record(c.handle()), n0.descriptor(codec)) != 0,
        open_outcome(n0, n1, c, codec, r),
    ensures
        r == Err::<Opened, Error>(Error::Native(open_code(n0.record(c.handle()), n0.descriptor(codec)))),
        calls_since(n0, n1) == seq![Call::Open(c.handle(), codec), Call::Free(c.handle())],
        count_calls(calls_since(n0, n1), Call::Free(c.handle())) == 1,
        c.handle() != NULL ==> !n1.live(c.handle()),
{
    let h = c.handle();
    assert(calls_since(n0, n1) =~= seq![Call::Open(h, codec), Call::Free(h)]);
    reveal_with_fuel(count_calls, 3);
    assert(seq![Call::Open(h, codec), Call::Free(h)].drop_last() =~= seq![Call::Open(h, codec)]);
    assert(seq![Call::Open(h, codec)].drop_last() =~= Seq::<Call>::empty());
}

/// Asking a context for a decoder or an encoder when none is registered for
/// its id fails with the matching not-found error and makes no native call,
/// so in particular no open.
pub proof fn lemma_missing_codec_makes_no_call(
    n0: NativeView,
    n1: NativeView,
    src: usize,
    kind: Kind,
    r: Result<Opened, Error>,
)
    requires
        none_serving(n0.codecs, n0.record(src).id, kind),
        specialize_outcome(n0, n1, src, kind, r),
    ensures
        r == Err::<Opened, Error>(not_found(kind)),
        n1 == n0,
        calls_since(n0, n1) == Seq::<Call>::empty(),
{
    assert(calls_since(n0, n1) =~= Seq::<Call>::empty());
}

/// An opened context whose codec is not of the requested kind is closed
/// exactly once, and closed before its handle is freed.
pub proof fn lemma_mismatch_closes_once(
    n0: NativeView,
    n1: NativeView,
    o: Opened,
    kind: Kind,
    r: Result<Opened, Error>,
)
    requires
        !kind_matches(n0, o, kind),
        narrow_outcome(n0, n1, o, kind, r),
    ensures
        r == Err::<Opened, Error>(Error::InvalidData),
        calls_since(n0, n1) == seq![Call::Close(o.0.handle())] + release_calls(o.0),
        count_calls(calls_since(n0, n1), Call::Close(o.0.handle())) == 1,
{
    let h = o.0.handle();
    assert(calls_since(n0, n1) =~= seq![Call::Close(h)] + release_calls(o.0));
    reveal_with_fuel(count_calls, 3);
    assert(seq![Call::Close(h)].drop_last() =~= Seq::<Call>::empty());
    if o.0.is_owning() {
        let s = seq![Call::Close(h)] + release_calls(o.0);
        assert(s =~= seq![Call::Close(h), Call::Free(h)]);
        assert(s.drop_last() =~= seq![Call::Close(h)]);
    } else {
        assert(seq![Call::Close(h)] + release_calls(o.0) =~= seq![Call::Close(h)]);
    }
}

/// Allocating a context, opening it with a registered codec, and asking the
/// opened context for a kind succeeds exactly when the codec is of that kind.
pub proof fn lemma_round_trip(
    n0: NativeView,
    n1: NativeView,
    n2: NativeView,
    n3: NativeView,
    c: Context,
    codec: Codec,
    o: Opened,
    kind: Kind,
    r: Result<Opened, Error>,
)
    requires
        c.is_owning(),
        alloc_step(n0, n1, c.handle()),
        n1.live(c.handle()),
        n1.has_codec(codec),
        open_outcome(n1, n2, c, codec, Ok(o)),
        narrow_outcome(n2, n3, o, kind, r),
    ensures
        r is Ok <==> n0.codecs[codec.ptr as int].kind == kind,
        r is Ok ==> r == Ok::<Opened, Error>(o) && o.0 == c,
{
    let h = c.handle();
    assert(o == Opened(c));
    assert(n2.record(h) == crate::native::opened_record(codec, n1.descriptor(codec)));
    assert(n2.codecs == n0.codecs);
}

} // verus!
