//! The store of pending approvals.
//!
//! [`ApprovalStore`] tracks every approval waiting on a human decision,
//! each with the channel that delivers the decision to its waiter. A
//! decision or an expiry removes the approval, so an approval is decided
//! at most once.

use vstd::prelude::*;
use crate::approval::{same_request, ApprovalDecision, ApprovalError, ApprovalId, ApprovalRequest};
use crate::text::{str_eq, string_of};

verus! {

#[verifier::external_type_specification]
#[verifier::external_body]
#[verifier::reject_recursive_types(T)]
pub struct ExOneshotSender<T>(tokio::sync::oneshot::Sender<T>);

#[verifier::external_type_specification]
#[verifier::external_body]
#[verifier::reject_recursive_types(T)]
pub struct ExOneshotReceiver<T>(tokio::sync::oneshot::Receiver<T>);

#[verifier::external_type_specification]
#[verifier::external_body]
pub struct ExOneshotRecvError(tokio::sync::oneshot::error::RecvError);

/// `tokio::sync::oneshot::channel`: a fresh single-use channel for one
/// decision. Nothing is claimed of the two halves beyond their types.
#[verifier::external_body]
fn decision_channel() -> (tokio::sync::oneshot::Sender<ApprovalDecision>, tokio::sync::oneshot::Receiver<ApprovalDecision>) {
    tokio::sync::oneshot::channel()
}

/// `oneshot::Sender::send`: hands the decision to the waiter. Returns
/// whether the waiter was still there to receive it (the channel's own
/// state, which nothing here can predict).
#[verifier::external_body]
fn deliver(tx: tokio::sync::oneshot::Sender<ApprovalDecision>, decision: ApprovalDecision) -> (delivered: bool) {
    tx.send(decision).is_ok()
}

/// A pending approval together with the channel that resolves it.
#[derive(Debug)]
pub struct PendingApproval {
    request: ApprovalRequest,
    tx: tokio::sync::oneshot::Sender<ApprovalDecision>,
}

/// The receiving half of a pending approval.
#[derive(Debug)]
pub struct ApprovalHandle {
    request: ApprovalRequest,
    rx: tokio::sync::oneshot::Receiver<ApprovalDecision>,
}

impl ApprovalHandle {
    /// The proposal under review.
    pub closed spec fn spec_request(&self) -> ApprovalRequest {
        self.request
    }

    /// The proposal the frontend is reviewing.
    pub fn request(&self) -> (r: &ApprovalRequest)
        ensures
            *r == self.spec_request(),
    {
        &self.request
    }

    /// Splits the handle into the proposal and the channel on which the
    /// decision arrives.
    pub fn into_parts(self) -> (r: (ApprovalRequest, tokio::sync::oneshot::Receiver<ApprovalDecision>))
        ensures
            r.0 == self.spec_request(),
    {
        (self.request, self.rx)
    }

    /// The outcome of waiting for the decision, given what the wait
    /// observed: `None` when the wait timed out, `Some(None)` when the
    /// channel closed without a decision, `Some(Some(d))` for a decision.
    pub fn resolve(&self, received: Option<Option<ApprovalDecision>>) -> (r: Result<ApprovalDecision, ApprovalError>)
        ensures
            match received {
                Some(Some(d)) => r == Ok::<ApprovalDecision, ApprovalError>(d),
                Some(None) => r matches Err(ApprovalError::Dropped(s)) && s@ == self.spec_request().id.text(),
                None => r matches Err(ApprovalError::Expired(s)) && s@ == self.spec_request().id.text(),
            },
    {
        resolve_wait(&self.request, received)
    }
}

/// The outcome of waiting for the decision on `request`, given what the
/// wait observed: `None` when the wait timed out, `Some(None)` when the
/// channel closed without a decision, `Some(Some(d))` for a decision.
pub fn resolve_wait(request: &ApprovalRequest, received: Option<Option<ApprovalDecision>>) -> (r: Result<
    ApprovalDecision,
    ApprovalError,
>)
    ensures
        match received {
            Some(Some(d)) => r == Ok::<ApprovalDecision, ApprovalError>(d),
            Some(None) => r matches Err(ApprovalError::Dropped(s)) && s@ == request.id.text(),
            None => r matches Err(ApprovalError::Expired(s)) && s@ == request.id.text(),
        },
{
    match received {
        Some(Some(d)) => Ok(d),
        Some(None) => Err(ApprovalError::Dropped(request.id.to_text())),
        None => Err(ApprovalError::Expired(request.id.to_text())),
    }
}

/// Whether a request with this id is pending.
pub open spec fn pending_has(s: Seq<ApprovalRequest>, id: Seq<char>) -> bool {
    exists|i: int| 0 <= i < s.len() && (#[trigger] s[i]).id.text() == id
}

/// Ids are unique among the pending requests.
pub open spec fn unique_ids(s: Seq<ApprovalRequest>) -> bool {
    forall|i: int, j: int| 0 <= i < s.len() && 0 <= j < s.len() && i != j ==> (#[trigger] s[i]).id.text()
        != (#[trigger] s[j]).id.text()
}

/// The pending requests once the one with this id is gone.
pub open spec fn without_id(s: Seq<ApprovalRequest>, id: Seq<char>) -> Seq<ApprovalRequest> {
    s.filter(|r: ApprovalRequest| r.id.text() != id)
}

/// Tracks pending human approvals, at most one per id.
#[derive(Debug)]
pub struct ApprovalStore {
    pending: Vec<PendingApproval>,
}

impl ApprovalStore {
    /// No two pending approvals share an id.
    #[verifier::type_invariant]
    spec fn ids_unique(&self) -> bool {
        unique_ids(self.requests())
    }

    /// The pending requests, in the order they were created.
    pub closed spec fn requests(&self) -> Seq<ApprovalRequest> {
        self.pending@.map_values(|p: PendingApproval| p.request)
    }

    /// An empty store.
    pub fn new() -> (s: ApprovalStore)
        ensures
            s.requests().len() == 0,
    {
        let s = ApprovalStore { pending: Vec::new() };
        assert(s.requests() =~= Seq::empty());
        s
    }

    /// Where the approval with this id is, if pending.
    fn position(&self, id: &str) -> (r: Option<usize>)
        ensures
            r is None <==> !pending_has(self.requests(), id@),
            r matches Some(i) ==> i < self.requests().len() && self.requests()[i as int].id.text() == id@,
    {
        let mut i: usize = 0;
        while i < self.pending.len()
            invariant
                i <= self.pending@.len(),
                forall|j: int| 0 <= j < i ==> (#[trigger] self.requests()[j]).id.text() != id@,
            decreases self.pending.len() - i,
        {
            if str_eq(self.pending[i].request.id.as_str(), id) {
                return Some(i);
            }
            i += 1;
        }
        None
    }

    /// Whether an approval with this id is still pending.
    pub fn is_pending(&self, id: &str) -> (b: bool)
        ensures
            b == pending_has(self.requests(), id@),
    {
        self.position(id).is_some()
    }

    /// The pending approval with this id, if any.
    pub fn get(&self, id: &str) -> (r: Option<ApprovalRequest>)
        ensures
            r is None <==> !pending_has(self.requests(), id@),
            r matches Some(q) ==> q.id.text() == id@ && exists|i: int|
                0 <= i < self.requests().len() && same_request(q, #[trigger] self.requests()[i]),
    {
        match self.position(id) {
            Some(i) => Some(self.pending[i].request.duplicate()),
            None => None,
        }
    }

    /// Every pending approval, in the order they were created.
    pub fn pending(&self) -> (r: Vec<ApprovalRequest>)
        ensures
            r@.len() == self.requests().len(),
            forall|i: int| 0 <= i < r@.len() ==> same_request(#[trigger] r@[i], self.requests()[i]),
    {
        let mut out: Vec<ApprovalRequest> = Vec::new();
        let mut i: usize = 0;
        while i < self.pending.len()
            invariant
                i <= self.pending@.len(),
                out@.len() == i,
                forall|j: int| 0 <= j < i ==> same_request(#[trigger] out@[j], self.requests()[j]),
            decreases self.pending.len() - i,
        {
            out.push(self.pending[i].request.duplicate());
            i += 1;
        }
        out
    }

    /// How many approvals are pending.
    pub fn len(&self) -> (n: usize)
        ensures
            n == self.requests().len(),
    {
        self.pending.len()
    }

    /// Whether no approvals are pending.
    pub fn is_empty(&self) -> (b: bool)
        ensures
            b == (self.requests().len() == 0),
    {
        self.pending.len() == 0
    }

    /// Removes the pending approval at `i`, returning it.
    fn take(&mut self, i: usize) -> (p: PendingApproval)
        requires
            i < old(self).requests().len(),
        ensures
            p.request == old(self).requests()[i as int],
            final(self).requests() == old(self).requests().remove(i as int),
    {
        proof { use_type_invariant(&*self); }
        let mut pending: Vec<PendingApproval> = Vec::new();
        std::mem::swap(&mut pending, &mut self.pending);
        let ghost before = pending@;
        let p = pending.remove(i);
        proof {
            let olds = before.map_values(|q: PendingApproval| q.request);
            let news = pending@.map_values(|q: PendingApproval| q.request);
            assert(news =~= olds.remove(i as int));
            assert forall|a: int, b: int| 0 <= a < news.len() && 0 <= b < news.len() && a != b implies
                (#[trigger] news[a]).id.text() != (#[trigger] news[b]).id.text() by {
                let a2 = if a < i { a } else { a + 1 };
                let b2 = if b < i { b } else { b + 1 };
                assert(news[a] == olds[a2]);
                assert(news[b] == olds[b2]);
            }
        }
        self.pending = pending;
        p
    }

    /// Registers a new pending approval and returns the waiting handle.
    ///
    /// A pending approval with the same id is replaced (its waiter will
    /// see the channel close).
    pub fn create(&mut self, request: ApprovalRequest) -> (h: ApprovalHandle)
        ensures
            same_request(h.spec_request(), request),
            final(self).requests() == without_id(old(self).requests(), request.id.text()).push(request),
    {
        let ghost id = request.id.text();
        let ghost start = self.requests();
        proof { use_type_invariant(&*self); }
        match self.position(request.id.as_str()) {
            Some(i) => {
                proof { lemma_without_unique(start, id, i as int); }
                let _ = self.take(i);
            },
            None => {
                proof { lemma_without_absent(start, id); }
            },
        }
        let (tx, rx) = decision_channel();
        let copy = request.duplicate();
        proof {
            use_type_invariant(&*self);
            let s = self.requests();
            assert(s == without_id(start, id));
            let t = s.push(request);
            assert(!pending_has(s, id)) by {
                if pending_has(s, id) {
                    let w = choose|w: int| 0 <= w < s.len() && (#[trigger] s[w]).id.text() == id;
                    lemma_filter_member(start, id, w);
                }
            }
            assert forall|a: int, b: int| 0 <= a < t.len() && 0 <= b < t.len() && a != b implies
                (#[trigger] t[a]).id.text() != (#[trigger] t[b]).id.text() by {
                if a < s.len() && b < s.len() {
                    assert(t[a] == s[a] && t[b] == s[b]);
                } else if a < s.len() {
                    assert(t[a] == s[a]);
                } else {
                    assert(t[b] == s[b]);
                }
            }
        }
        let mut pending: Vec<PendingApproval> = Vec::new();
        std::mem::swap(&mut pending, &mut self.pending);
        pending.push(PendingApproval { request, tx });
        proof {
            assert(pending@.map_values(|q: PendingApproval| q.request) =~= without_id(start, id).push(request));
        }
        self.pending = pending;
        ApprovalHandle { request: copy, rx }
    }

    /// Resolves a pending approval with the human's decision.
    ///
    /// Fails with [`ApprovalError::NotFound`] if the id is unknown (or was
    /// already decided or expired), leaving the store unchanged. Otherwise
    /// the approval is no longer pending, and the decision goes to the
    /// waiter; if the waiter is gone the result is
    /// [`ApprovalError::Dropped`].
    pub fn decide(&mut self, id: &str, decision: ApprovalDecision) -> (r: Result<(), ApprovalError>)
        ensures
            !pending_has(old(self).requests(), id@) ==> (r matches Err(ApprovalError::NotFound(s)) && s@ == id@
                && final(self).requests() == old(self).requests()),
            pending_has(old(self).requests(), id@) ==> (final(self).requests() == without_id(
                old(self).requests(),
                id@,
            ) && (r is Ok || (r matches Err(ApprovalError::Dropped(s)) && s@ == id@))),
            pending_has(old(self).requests(), id@) ==> final(self).requests().len() == old(self).requests().len() - 1,
    {
        match self.position(id) {
            None => Err(ApprovalError::NotFound(string_of(id))),
            Some(i) => {
                proof {
                    use_type_invariant(&*self);
                    lemma_without_unique(self.requests(), id@, i as int);
                }
                let p = self.take(i);
                if deliver(p.tx, decision) {
                    Ok(())
                } else {
                    Err(ApprovalError::Dropped(string_of(id)))
                }
            },
        }
    }

    /// Marks a pending approval as expired: it is no longer pending. Fails
    /// with [`ApprovalError::NotFound`] if the id is unknown.
    pub fn expire(&mut self, id: &str) -> (r: Result<(), ApprovalError>)
        ensures
            r is Ok <==> pending_has(old(self).requests(), id@),
            r matches Err(e) ==> e matches ApprovalError::NotFound(s) && s@ == id@,
            final(self).requests() == without_id(old(self).requests(), id@),
            r is Ok ==> final(self).requests().len() == old(self).requests().len() - 1,
    {
        match self.position(id) {
            None => {
                proof { lemma_without_absent(self.requests(), id@); }
                Err(ApprovalError::NotFound(string_of(id)))
            },
            Some(i) => {
                proof {
                    use_type_invariant(&*self);
                    lemma_without_unique(self.requests(), id@, i as int);
                }
                let _ = self.take(i);
                Ok(())
            },
        }
    }
}

/// Filtering out an id that is not pending changes nothing.
pub proof fn lemma_without_absent(s: Seq<ApprovalRequest>, id: Seq<char>)
    requires
        !pending_has(s, id),
    ensures
        without_id(s, id) == s,
    decreases s.len(),
{
    if s.len() > 0 {
        assert(!pending_has(s.drop_last(), id)) by {
            if pending_has(s.drop_last(), id) {
                let w = choose|w: int| 0 <= w < s.drop_last().len() && (#[trigger] s.drop_last()[w]).id.text() == id;
                assert(s[w] == s.drop_last()[w]);
            }
        }
        lemma_without_absent(s.drop_last(), id);
        assert(s.last().id.text() != id);
        assert(s =~= s.drop_last().push(s.last()));
    }
    reveal_with_fuel(Seq::<ApprovalRequest>::filter, 2);
    if s.len() > 0 {
        assert(s.drop_last().push(s.last()).drop_last() =~= s.drop_last());
    } else {
        assert(s.filter(|r: ApprovalRequest| r.id.text() != id) =~= s);
    }
}

/// With unique ids, filtering out the id found at `i` removes exactly
/// entry `i`.
pub proof fn lemma_without_unique(s: Seq<ApprovalRequest>, id: Seq<char>, i: int)
    requires
        unique_ids(s),
        0 <= i < s.len(),
        s[i].id.text() == id,
    ensures
        without_id(s, id) == s.remove(i),
    decreases s.len(),
{
    reveal_with_fuel(Seq::<ApprovalRequest>::filter, 2);
    let init = s.drop_last();
    assert(s =~= init.push(s.last()));
    assert(init.push(s.last()).drop_last() =~= init);
    if i == s.len() - 1 {
        assert(!pending_has(init, id)) by {
            if pending_has(init, id) {
                let w = choose|w: int| 0 <= w < init.len() && (#[trigger] init[w]).id.text() == id;
                assert(s[w] == init[w]);
            }
        }
        lemma_without_absent(init, id);
        assert(s.remove(i) =~= init);
    } else {
        assert forall|a: int, b: int| 0 <= a < init.len() && 0 <= b < init.len() && a != b implies
            (#[trigger] init[a]).id.text() != (#[trigger] init[b]).id.text() by {
            assert(init[a] == s[a] && init[b] == s[b]);
        }
        assert(init[i] == s[i]);
        lemma_without_unique(init, id, i);
        assert(s.last().id.text() != id) by {
            assert(s.last() == s[s.len() - 1]);
        }
        assert(s.remove(i) =~= init.remove(i).push(s.last()));
    }
}

/// Whatever survives the filter does not carry the filtered id.
pub proof fn lemma_filter_member(s: Seq<ApprovalRequest>, id: Seq<char>, w: int)
    requires
        0 <= w < without_id(s, id).len(),
    ensures
        without_id(s, id)[w].id.text() != id,
{
    let f = |r: ApprovalRequest| r.id.text() != id;
    #[allow(deprecated)]
    s.filter_lemma(f);
    assert(without_id(s, id) == s.filter(f));
    assert(f(s.filter(f)[w]));
}

/// Deciding (or expiring) a pending approval removes exactly one entry:
/// ids are unique among the pending requests, so the one with this id is
/// the only one that goes.
pub proof fn law_decide_removes_one(s: Seq<ApprovalRequest>, id: Seq<char>)
    requires
        unique_ids(s),
        pending_has(s, id),
    ensures
        without_id(s, id).len() == s.len() - 1,
{
    let i = choose|i: int| 0 <= i < s.len() && (#[trigger] s[i]).id.text() == id;
    lemma_without_unique(s, id, i);
}

/// A decided approval stays decided: once `decide` or `expire` has removed
/// an id, it is no longer pending, so a second decision is answered with
/// [`ApprovalError::NotFound`].
pub proof fn law_decision_is_final(s: Seq<ApprovalRequest>, id: Seq<char>)
    ensures
        !pending_has(without_id(s, id), id),
{
    if pending_has(without_id(s, id), id) {
        let w = choose|w: int| 0 <= w < without_id(s, id).len() && (#[trigger] without_id(s, id)[w]).id.text() == id;
        lemma_filter_member(s, id, w);
    }
}

/// Removing an id leaves every other pending approval in place.
pub proof fn law_other_approvals_untouched(s: Seq<ApprovalRequest>, id: Seq<char>, other: Seq<char>)
    requires
        other != id,
    ensures
        pending_has(without_id(s, id), other) <==> pending_has(s, other),
{
    let f = |r: ApprovalRequest| r.id.text() != id;
    #[allow(deprecated)]
    s.filter_lemma(f);
    assert(without_id(s, id) == s.filter(f));
    if pending_has(s, other) {
        let w = choose|w: int| 0 <= w < s.len() && (#[trigger] s[w]).id.text() == other;
        assert(f(s[w]));
        assert(s.filter(f).contains(s[w]));
        let k = choose|k: int| 0 <= k < s.filter(f).len() && s.filter(f)[k] == s[w];
        assert(s.filter(f)[k].id.text() == other);
    }
    if pending_has(without_id(s, id), other) {
        let w = choose|w: int| 0 <= w < s.filter(f).len() && (#[trigger] s.filter(f)[w]).id.text() == other;
        s.lemma_filter_contains_rev(f, s.filter(f)[w]);
        assert(s.filter(f).contains(s.filter(f)[w]));
        let k = choose|k: int| 0 <= k < s.len() && s[k] == s.filter(f)[w];
        assert(s[k].id.text() == other);
    }
}

} // verus!
