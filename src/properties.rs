use vstd::prelude::*;
use vstd::rwlock::RwLock;

verus! {

/// A call into the native runtime, as handed to a caller's port.
#[derive(PartialEq, Eq, Structural, Clone, Copy, Debug)]
pub enum NativeCall {
    /// Gives back one reference to `object`.
    Release { object: usize },
    /// Sets a layer's corner radius; the radius is the bit pattern of a
    /// native-width float.
    SetCornerRadius { object: usize, radius_bits: u64 },
    /// Sets a layer's contents to the object at `contents`.
    SetContents { object: usize, contents: usize },
}

/// The release of the reference held on `object`.
pub open spec fn release_call(object: usize) -> NativeCall {
    NativeCall::Release { object }
}

/// How many releases of `object` a sequence of native calls holds.
pub open spec fn releases_of(calls: Seq<NativeCall>, object: usize) -> nat
    decreases calls.len(),
{
    if calls.len() == 0 {
        0
    } else {
        let last: nat = if calls.last() == release_call(object) { 1 } else { 0 };
        releases_of(calls.drop_last(), object) + last
    }
}

/// Over a handle's whole lifetime, exactly one release of its object is
/// made. Taking over a retained reference (`from_retained`, which every
/// layer constructor uses) hands no call to the runtime, the messages sent
/// while the handle lives release nothing, and `release` hands one release.
/// So until the end the count of releases stays at zero, and the calls of the
/// whole lifetime hold exactly one.
pub proof fn lemma_lifetime_releases_once(object: usize, sends: Seq<NativeCall>)
    requires
        forall|i: int| 0 <= i < sends.len() ==> !(#[trigger] sends[i] is Release),
    ensures
        releases_of(sends, object) == 0,
        releases_of(sends.push(release_call(object)), object) == 1,
    decreases sends.len(),
{
    if sends.len() > 0 {
        let rest = sends.drop_last();
        assert forall|i: int| 0 <= i < rest.len() implies !(#[trigger] rest[i] is Release) by {
            assert(rest[i] == sends[i]);
        }
        lemma_lifetime_releases_once(object, rest);
        assert(!(sends[sends.len() - 1] is Release));
    }
    assert(sends.push(release_call(object)).drop_last() =~= sends);
}

/// Owns one reference to a native object and serialises access to it.
///
/// The address sits behind a write lock: `with_mut` holds the lock for the
/// whole of its operation, so two operations on one handle never overlap.
/// The reference is given back by `release`, which consumes the handle.
pub struct ObjcProperty {
    handle: RwLock<usize, spec_fn(usize) -> bool>,
    object: Ghost<usize>,
}

impl ObjcProperty {
    /// The address of the owned object.
    pub closed spec fn object(&self) -> usize {
        self.object@
    }

    #[verifier::type_invariant]
    spec fn inv(&self) -> bool {
        &&& self.object@ != 0
        &&& forall|v: usize| self.handle.inv(v) <==> v == self.object@
    }

    /// Takes over a reference that the caller already holds on `object`:
    /// no retain is made, and the one release comes from `release`.
    pub fn from_retained(object: usize) -> (r: Self)
        requires
            object != 0,
        ensures
            r.object() == object,
    {
        let ghost pred = |v: usize| v == object;
        ObjcProperty { handle: RwLock::new(object, Ghost(pred)), object: Ghost(object) }
    }

    /// Runs `f` on the object's address with exclusive access, and returns
    /// what `f` returned, faults included. The handle is unchanged afterwards.
    pub fn with_mut<R, F: FnOnce(usize) -> R>(&self, f: F) -> (r: R)
        requires
            f.requires((self.object(),)),
        ensures
            f.ensures((self.object(),), r),
    {
        proof {
            use_type_invariant(self);
        }
        let (object, guard) = self.handle.acquire_write();
        let r = f(object);
        guard.release_write(object);
        r
    }

    /// Gives back the owned reference: hands exactly one release of the
    /// object to `send`, and returns what `send` returned.
    pub fn release<R, F: FnOnce(NativeCall) -> R>(self, send: F) -> (r: R)
        requires
            send.requires((release_call(self.object()),)),
        ensures
            send.ensures((release_call(self.object()),), r),
    {
        proof {
            use_type_invariant(&self);
        }
        let object = self.handle.into_inner();
        send(NativeCall::Release { object })
    }
}

} // verus!
