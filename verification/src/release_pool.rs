//! The scoped native context: a capability token certifying that a native
//! resource scope is active, together with the per-thread scope stack the
//! native runtime keeps.
//!
//! On platforms whose runtime tracks nested resource scopes, scopes must be
//! released in strict reverse order of acquisition. Rather than leaving that
//! rule to caller discipline, the stack is modelled explicitly and a release
//! out of order is a detectable failure, never silent.

use vstd::prelude::*;

verus! {

/// A release out of nesting order: the scope handed back is not the one most
/// recently acquired.
#[derive(Debug, PartialEq, Eq, Structural)]
pub struct NestingViolation;

/// A capability token: holding one proves a native resource scope is active.
/// Tokens are not copyable; each stands for one acquisition.
#[derive(Debug)]
pub struct ReleasePool {
    id: u64,
}

impl ReleasePool {
    /// The identity of the acquisition this token stands for.
    pub closed spec fn id_spec(&self) -> u64 {
        self.id
    }

    /// A bare marker token, as on platforms whose native runtime tracks no
    /// resource scopes and the scoped context is a zero-size always-valid
    /// marker. Against a tracked scope stack it matches nothing that
    /// [`PoolStack::acquire`] issued, so a release with it is detected.
    pub fn new() -> (p: ReleasePool)
        ensures
            p.id_spec() == 0,
    {
        ReleasePool { id: 0 }
    }
}

/// Whether handing `id` back to a runtime whose scope stack is `s` is a
/// release in nesting order: `id` must be the scope acquired last.
pub open spec fn release_in_order(s: Seq<u64>, id: u64) -> bool {
    s.len() > 0 && s.last() == id
}

/// The native runtime's per-thread stack of resource scopes. Its view is the
/// stack of live scope identities, innermost last.
#[derive(Debug)]
pub struct PoolStack {
    live: Vec<u64>,
    next: u64,
}

impl View for PoolStack {
    type V = Seq<u64>;

    closed spec fn view(&self) -> Seq<u64> {
        self.live@
    }
}

impl PoolStack {
    /// The identity the next acquisition will be issued; identities start
    /// at 1, so no issued scope collides with the bare marker token.
    pub closed spec fn next_id(&self) -> u64 {
        self.next
    }

    /// Scope identities are distinct: the stack grows strictly, and nothing
    /// on it has been issued twice.
    pub closed spec fn wf(&self) -> bool {
        &&& self.next >= 1
        &&& forall|i: int, j: int| 0 <= i < j < self.live@.len() ==> self.live@[i] < self.live@[j]
        &&& forall|i: int| 0 <= i < self.live@.len() ==> 1 <= #[trigger] self.live@[i] < self.next
    }

    /// A stack with no live scope.
    pub fn new() -> (s: PoolStack)
        ensures
            s@ == Seq::<u64>::empty(),
            s.next_id() == 1,
            s.wf(),
    {
        PoolStack { live: Vec::new(), next: 1 }
    }

    /// Enters a new scope: issues a fresh token and pushes its identity.
    pub fn acquire(&mut self) -> (p: ReleasePool)
        requires
            old(self).wf(),
            old(self).next_id() < u64::MAX,
        ensures
            final(self).wf(),
            final(self)@ == old(self)@.push(p.id_spec()),
            final(self).next_id() == old(self).next_id() + 1,
            p.id_spec() != 0,
            forall|i: int| 0 <= i < old(self)@.len() ==> old(self)@[i] != p.id_spec(),
    {
        let id = self.next;
        self.next = self.next + 1;
        self.live.push(id);
        ReleasePool { id }
    }

    /// Leaves a scope. Succeeds exactly when `pool` is the scope acquired
    /// last, and then pops it; a release out of nesting order changes nothing
    /// and reports the violation.
    pub fn release(&mut self, pool: &ReleasePool) -> (r: Result<(), NestingViolation>)
        requires
            old(self).wf(),
        ensures
            final(self).wf(),
            final(self).next_id() == old(self).next_id(),
            release_in_order(old(self)@, pool.id_spec()) ==> r is Ok && final(self)@ == old(
                self,
            )@.drop_last(),
            !release_in_order(old(self)@, pool.id_spec()) ==> r is Err && final(self)@ == old(
                self,
            )@,
    {
        if self.live.len() > 0 && self.live[self.live.len() - 1] == pool.id {
            self.live.pop();
            proof {
                assert(self.live@ =~= old(self).live@.drop_last());
            }
            Ok(())
        } else {
            Err(NestingViolation)
        }
    }
}

/// The safe scoped form: runs `f` with a token for a scope entered on a
/// fresh stack, and leaves the scope again on every exit path. The token is
/// only lent to `f`, so the scope cannot outlive the call.
pub fn autoreleasepool<R, F: FnOnce(&ReleasePool) -> R>(f: F) -> (r: R)
    requires
        forall|p: &ReleasePool| call_requires(f, (p,)),
    ensures
        exists|p: &ReleasePool| call_ensures(f, (p,), r),
{
    let mut stack = PoolStack::new();
    let pool = stack.acquire();
    let r = f(&pool);
    let released = stack.release(&pool);
    proof {
        assert(released is Ok);
    }
    r
}

/// Law (scope nesting): with scope `a` acquired before scope `b`, releasing
/// `b` and then `a` is in order, while releasing `a` while `b` is still held
/// is a detectable violation. The tokens of two acquisitions are distinct,
/// as [`PoolStack::acquire`] ensures.
pub proof fn lemma_release_discipline(s: Seq<u64>, a: u64, b: u64)
    requires
        a != b,
    ensures
        release_in_order(s.push(a).push(b), b),
        s.push(a).push(b).drop_last() == s.push(a),
        release_in_order(s.push(a), a),
        !release_in_order(s.push(a).push(b), a),
{
    assert(s.push(a).push(b).drop_last() =~= s.push(a));
}

} // verus!
