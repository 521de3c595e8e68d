use vstd::prelude::*;

verus! {

/// Registering a handle with the barrier set: a duplicate registration
/// leaves the set unchanged, a new handle is appended.
pub open spec fn spec_register(s: Seq<u64>, handle: u64) -> Seq<u64> {
    if s.contains(handle) {
        s
    } else {
        s.push(handle)
    }
}

/// No handle occurs twice in the sequence.
pub open spec fn spec_nodup(s: Seq<u64>) -> bool {
    forall|i: int, j: int| 0 <= i < j < s.len() ==> s[i] != s[j]
}

/// How many entries of the sequence hold the given handle.
pub open spec fn spec_count_of(s: Seq<u64>, handle: u64) -> nat
    decreases s.len(),
{
    if s.len() == 0 {
        0
    } else {
        spec_count_of(s.drop_last(), handle) + if s.last() == handle {
            1nat
        } else {
            0nat
        }
    }
}

/// Tracks the native images touched while translating one frame's
/// resources, and hands out the single batched pre-dispatch and
/// post-dispatch barrier sets around the upscaler dispatch.
///
/// Single use: handles are registered first, then the pre-dispatch set is
/// taken exactly once, then the post-dispatch set exactly once; a fresh
/// tracker is built for every dispatch.
pub struct Barriers {
    images: Vec<u64>,
    started: bool,
    ended: bool,
}

impl Barriers {
    /// The handles registered so far, in registration order.
    pub closed spec fn handles(self) -> Seq<u64> {
        self.images@
    }

    /// The pre-dispatch barrier set has been taken.
    pub closed spec fn started(self) -> bool {
        self.started
    }

    /// The post-dispatch barrier set has been taken.
    pub closed spec fn ended(self) -> bool {
        self.ended
    }

    /// Validity: no handle is registered twice, and the post-dispatch
    /// barrier can only have been taken after the pre-dispatch one.
    pub closed spec fn wf(self) -> bool {
        spec_nodup(self.images@) && (self.ended ==> self.started)
    }

    /// A fresh tracker with no registered handles.
    pub fn new() -> (t: Barriers)
        ensures
            t.wf(),
            t.handles() == Seq::<u64>::empty(),
            !t.started(),
            !t.ended(),
    {
        Barriers { images: Vec::new(), started: false, ended: false }
    }

    /// Register an image handle for this frame's barriers. Registering the
    /// same handle again is a no-op.
    pub fn add(&mut self, handle: u64)
        requires
            old(self).wf(),
            !old(self).started(),
        ensures
            final(self).wf(),
            final(self).handles() == spec_register(old(self).handles(), handle),
            final(self).started() == old(self).started(),
            final(self).ended() == old(self).ended(),
    {
        let mut i: usize = 0;
        while i < self.images.len()
            invariant
                i <= self.images.len(),
                old(self).wf(),
                !old(self).started(),
                forall|k: int| 0 <= k < i ==> self.images@[k] != handle,
                self.images@ == old(self).images@,
                self.started == old(self).started,
                self.ended == old(self).ended,
            decreases self.images.len() - i,
        {
            if self.images[i] == handle {
                assert(old(self).handles().contains(handle));
                return ;
            }
            i += 1;
        }
        assert(!self.images@.contains(handle));
        self.images.push(handle);
    }

    /// Take the pre-dispatch barrier set: one transition per registered
    /// image, to be recorded on the command buffer strictly before the
    /// dispatch.
    pub fn cmd_start(&mut self) -> (v: Vec<u64>)
        requires
            old(self).wf(),
            !old(self).started(),
        ensures
            final(self).wf(),
            final(self).handles() == old(self).handles(),
            final(self).started(),
            !final(self).ended(),
            v@ == old(self).handles(),
            spec_nodup(v@),
    {
        self.started = true;
        copy_handles(&self.images)
    }

    /// Take the matching post-dispatch barrier set: the same images,
    /// restored after the dispatch.
    pub fn cmd_end(&mut self) -> (v: Vec<u64>)
        requires
            old(self).wf(),
            old(self).started(),
            !old(self).ended(),
        ensures
            final(self).wf(),
            final(self).handles() == old(self).handles(),
            final(self).started(),
            final(self).ended(),
            v@ == old(self).handles(),
            spec_nodup(v@),
    {
        self.ended = true;
        copy_handles(&self.images)
    }
}

fn copy_handles(src: &Vec<u64>) -> (v: Vec<u64>)
    ensures
        v@ == src@,
{
    let mut v: Vec<u64> = Vec::new();
    let mut i: usize = 0;
    while i < src.len()
        invariant
            i <= src.len(),
            v@ == src@.take(i as int),
        decreases src.len() - i,
    {
        v.push(src[i]);
        i += 1;
    }
    assert(v@ == src@);
    v
}

/// Registering a handle twice is the same as registering it once.
pub proof fn lemma_register_idempotent(s: Seq<u64>, handle: u64)
    ensures
        spec_register(spec_register(s, handle), handle) == spec_register(s, handle),
{
    if !s.contains(handle) {
        assert(s.push(handle)[s.len() as int] == handle);
        assert(s.push(handle).contains(handle));
    }
}

/// A handle occurs in a duplicate-free sequence at most once, and when it
/// is contained, exactly once.
pub proof fn lemma_nodup_count(s: Seq<u64>, handle: u64)
    requires
        spec_nodup(s),
    ensures
        s.contains(handle) ==> spec_count_of(s, handle) == 1,
        !s.contains(handle) ==> spec_count_of(s, handle) == 0,
    decreases s.len(),
{
    if s.len() == 0 {
    } else {
        let prefix = s.drop_last();
        assert(spec_nodup(prefix)) by {
            assert forall|i: int, j: int|
                0 <= i < j < prefix.len() implies prefix[i] != prefix[j] by {
                assert(s[i] == prefix[i] && s[j] == prefix[j]);
            }
        }
        lemma_nodup_count(prefix, handle);
        if s.last() == handle {
            assert(!prefix.contains(handle)) by {
                if prefix.contains(handle) {
                    let i = choose|i: int| 0 <= i < prefix.len() && prefix[i] == handle;
                    assert(s[i] == handle && s[s.len() - 1] == handle);
                }
            }
        } else {
            if s.contains(handle) {
                let i = choose|i: int| 0 <= i < s.len() && s[i] == handle;
                assert(prefix[i] == handle);
                assert(prefix.contains(handle));
            }
            if prefix.contains(handle) {
                let i = choose|i: int| 0 <= i < prefix.len() && prefix[i] == handle;
                assert(s[i] == handle);
            }
        }
    }
}

/// After `add` is called twice with the same handle, the pre-dispatch
/// barrier set emitted by `cmd_start` holds exactly one transition for
/// that handle: the batched barrier never duplicates an image.
pub proof fn lemma_single_transition(t: Barriers, handle: u64)
    requires
        t.wf(),
        t.handles().contains(handle),
    ensures
        spec_count_of(t.handles(), handle) == 1,
{
    lemma_nodup_count(t.handles(), handle);
}

} // verus!
