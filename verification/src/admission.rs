//! Admission control: a gate that bounds the number of concurrently
//! in-flight generation requests.
//!
//! Exactly one [`Permit`] exists per admitted request, and returning a permit
//! is the only event that frees a capacity slot. Admission itself never
//! blocks: when every slot is taken and the backend has capacity, the caller is
//! told to wait and try again; when the backend reports saturation, admission
//! fails immediately with `Overloaded` instead of queuing.

use vstd::prelude::*;

verus! {

/// Mathematical state of an admission gate: its configured capacity and the
/// number of permits currently alive.
pub struct GateView {
    pub capacity: nat,
    pub live: nat,
}

impl GateView {
    /// A gate never has more live permits than its capacity allows.
    pub open spec fn wf(self) -> bool {
        self.live <= self.capacity
    }

    /// Whether an admission attempt succeeds in this state.
    pub open spec fn admits(self) -> bool {
        self.live < self.capacity
    }

    /// The state after a successful admission.
    pub open spec fn after_acquire(self) -> GateView {
        GateView { capacity: self.capacity, live: self.live + 1 }
    }

    /// The state after a permit is returned.
    pub open spec fn after_release(self) -> GateView {
        GateView {
            capacity: self.capacity,
            live: if self.live > 0 {
                (self.live - 1) as nat
            } else {
                0
            },
        }
    }
}

/// A capacity token. One permit exists per admitted request; its owner must
/// hand it back exactly once, whether the request succeeds,
/// fails, or its consumer disconnects.
#[derive(Debug)]
pub struct Permit {
    granted: bool,
}

impl Permit {
    /// A permit only ever exists in granted form.
    pub closed spec fn wf(self) -> bool {
        self.granted
    }
}

/// What one admission attempt decides.
#[derive(Debug)]
pub enum AdmissionDecision {
    /// A slot was free: the request owns the returned permit.
    Admitted(Permit),
    /// Every slot is taken but the backend is healthy: wait for a release and
    /// try again. No state changed.
    Wait,
    /// The backend reported saturation: fail immediately rather than queue.
    /// No state changed.
    Refuse,
}

/// Bounds the number of concurrently in-flight requests. This is the only
/// cross-request shared mutable state in the core.
pub struct AdmissionGate {
    capacity: usize,
    live: usize,
}

impl View for AdmissionGate {
    type V = GateView;

    closed spec fn view(&self) -> GateView {
        GateView { capacity: self.capacity as nat, live: self.live as nat }
    }
}

impl AdmissionGate {
    /// A fresh gate has no live permits.
    pub fn new(capacity: usize) -> (g: AdmissionGate)
        ensures
            g@.capacity == capacity,
            g@.live == 0,
            g@.wf(),
    {
        AdmissionGate { capacity, live: 0 }
    }

    /// One admission attempt. `backend_saturated` is the backend's own
    /// capacity report: when it is set, admission fails immediately with
    /// `Refuse`; otherwise the attempt succeeds exactly when a slot is free.
    pub fn try_acquire(&mut self, backend_saturated: bool) -> (d: AdmissionDecision)
        requires
            old(self)@.wf(),
        ensures
            final(self)@.wf(),
            final(self)@.capacity == old(self)@.capacity,
            d is Admitted <==> (!backend_saturated && old(self)@.admits()),
            d is Admitted ==> final(self)@ == old(self)@.after_acquire(),
            !(d is Admitted) ==> final(self)@ == old(self)@,
            backend_saturated ==> d is Refuse,
            (!backend_saturated && !old(self)@.admits()) ==> d is Wait,
            d matches AdmissionDecision::Admitted(p) ==> p.wf(),
    {
        if backend_saturated {
            AdmissionDecision::Refuse
        } else if self.live < self.capacity {
            self.live = self.live + 1;
            AdmissionDecision::Admitted(Permit { granted: true })
        } else {
            AdmissionDecision::Wait
        }
    }

    /// Return a permit, freeing its slot. Consumes the permit, so a slot can be
    /// freed at most once per admitted request.
    pub fn release(&mut self, permit: Permit) -> (freed: bool)
        requires
            old(self)@.wf(),
            permit.wf(),
        ensures
            final(self)@.wf(),
            final(self)@ == old(self)@.after_release(),
            freed == (old(self)@.live > 0),
    {
        let _ = permit;
        if self.live > 0 {
            self.live = self.live - 1;
            true
        } else {
            false
        }
    }

    /// How many permits are alive right now.
    pub fn live_permits(&self) -> (n: usize)
        ensures
            n == self@.live,
    {
        self.live
    }

    /// The configured capacity.
    pub fn capacity(&self) -> (n: usize)
        ensures
            n == self@.capacity,
    {
        self.capacity
    }
}

/// Law: admission never pushes a well-formed gate past its capacity, so at
/// no point do more than `capacity` permits exist simultaneously.
pub proof fn lemma_acquire_bounded(g: GateView)
    requires
        g.wf(),
    ensures
        g.admits() ==> g.after_acquire().wf(),
        g.after_release().wf(),
{
}

/// Law: on a full gate admission fails; releasing one permit immediately
/// allows exactly one more admission to succeed, after which every slot is
/// taken again and the next attempt fails.
pub proof fn lemma_release_enables_exactly_one(g: GateView)
    requires
        g.wf(),
        g.live == g.capacity,
        g.capacity > 0,
    ensures
        !g.admits(),
        g.after_release().admits(),
        g.after_release().after_acquire().live == g.capacity,
        !g.after_release().after_acquire().admits(),
{
}

} // verus!
