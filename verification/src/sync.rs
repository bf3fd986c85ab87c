//! The host/device synchronization capability and the two bulk operations.
//!
//! A paired buffer couples host contents with a device allocation of the same
//! element count and moves whole buffers in either direction.  An aggregate is
//! an ordered collection of such fields; its bulk operations transfer each
//! eligible field in declaration order and abort at the first failure.

use crate::policy::SyncPolicy;
use vstd::prelude::*;

verus! {

/// Direction of one buffer transfer.
#[derive(Clone, Copy, PartialEq, Eq, Structural, Debug)]
pub enum Direction {
    /// Host to device.
    Push,
    /// Device to host.
    Pull,
}

/// Runtime failure of a single transfer.
#[derive(Clone, Copy, PartialEq, Eq, Structural, Debug)]
pub enum TransferError {
    /// The host container's storage is not one contiguous run of memory.
    NotContiguous,
    /// The device or its work queue rejected the transfer.
    Device,
}

/// Capability of a field that can synchronize with a compute device: it
/// carries a policy, host contents, device contents of matching size, and a
/// record of every transfer it attempted, in order.
///
/// Element values are modelled as 64-bit words: the bit pattern of one
/// element, whatever its concrete element type.
pub trait SyncBuffer: Sized {
    /// Well-formedness: the pairing invariant of the concrete buffer type.
    spec fn wf(&self) -> bool;

    /// The field's synchronization policy.
    spec fn policy_view(&self) -> SyncPolicy;

    /// Host contents, one word per element, in row-major order.
    spec fn host_view(&self) -> Seq<u64>;

    /// Device contents, one word per element, in row-major order.
    spec fn device_view(&self) -> Seq<u64>;

    /// Every transfer this buffer attempted, in order.
    spec fn attempts(&self) -> Seq<Direction>;

    /// A well-formed pair keeps its device allocation sized to exactly the
    /// host element count.
    proof fn wf_implies_matched_len(&self)
        requires
            self.wf(),
        ensures
            self.host_view().len() == self.device_view().len(),
    ;

    /// Reads the field's policy.
    fn policy(&self) -> (p: SyncPolicy)
        requires
            self.wf(),
        ensures
            p == self.policy_view(),
    ;

    /// Copies the entire host contents to the device buffer.  On failure the
    /// host is untouched and the device contents are unspecified; either way
    /// the attempt goes on record.
    fn push(&mut self) -> (r: Result<(), TransferError>)
        requires
            old(self).wf(),
        ensures
            final(self).wf(),
            final(self).policy_view() == old(self).policy_view(),
            final(self).host_view() == old(self).host_view(),
            final(self).attempts() == old(self).attempts().push(Direction::Push),
            r is Ok ==> final(self).device_view() == old(self).host_view(),
    ;

    /// Copies the entire device contents back into the host container.  On
    /// failure the device is untouched and the host contents are unspecified;
    /// either way the attempt goes on record.
    fn pull(&mut self) -> (r: Result<(), TransferError>)
        requires
            old(self).wf(),
        ensures
            final(self).wf(),
            final(self).policy_view() == old(self).policy_view(),
            final(self).device_view() == old(self).device_view(),
            final(self).attempts() == old(self).attempts().push(Direction::Pull),
            r is Ok ==> final(self).host_view() == old(self).device_view(),
    ;
}

/// A successful push: the device now mirrors the host, the host is untouched,
/// and the attempt is on record.
pub open spec fn push_ok<B: SyncBuffer>(pre: B, post: B) -> bool {
    &&& post.wf()
    &&& post.policy_view() == pre.policy_view()
    &&& post.host_view() == pre.host_view()
    &&& post.device_view() == pre.host_view()
    &&& post.attempts() == pre.attempts().push(Direction::Push)
}

/// A failed push: the host is untouched and the attempt is on record; the
/// device contents are deliberately unspecified.
pub open spec fn push_err<B: SyncBuffer>(pre: B, post: B) -> bool {
    &&& post.wf()
    &&& post.policy_view() == pre.policy_view()
    &&& post.host_view() == pre.host_view()
    &&& post.attempts() == pre.attempts().push(Direction::Push)
}

/// A successful pull: the host now mirrors the device, the device is
/// untouched, and the attempt is on record.
pub open spec fn pull_ok<B: SyncBuffer>(pre: B, post: B) -> bool {
    &&& post.wf()
    &&& post.policy_view() == pre.policy_view()
    &&& post.device_view() == pre.device_view()
    &&& post.host_view() == pre.device_view()
    &&& post.attempts() == pre.attempts().push(Direction::Pull)
}

/// A failed pull: the device is untouched and the attempt is on record; the
/// host contents are deliberately unspecified.
pub open spec fn pull_err<B: SyncBuffer>(pre: B, post: B) -> bool {
    &&& post.wf()
    &&& post.policy_view() == pre.policy_view()
    &&& post.device_view() == pre.device_view()
    &&& post.attempts() == pre.attempts().push(Direction::Pull)
}

/// Outcome for field `i` of a send that got past it: pushed successfully if
/// its policy asks for the host-to-device direction, untouched otherwise.
pub open spec fn sent_field<B: SyncBuffer>(pre: Seq<B>, post: Seq<B>, i: int) -> bool {
    if pre[i].policy_view().push {
        push_ok(pre[i], post[i])
    } else {
        post[i] == pre[i]
    }
}

/// A send that aborted at field `k`: every earlier field got its transfer,
/// field `k` attempted its push and failed, and no later field was touched.
pub open spec fn send_aborted_at<B: SyncBuffer>(pre: Seq<B>, post: Seq<B>, k: int) -> bool {
    &&& 0 <= k < pre.len()
    &&& pre[k].policy_view().push
    &&& push_err(pre[k], post[k])
    &&& forall|i: int| 0 <= i < k ==> sent_field(pre, post, i)
    &&& forall|i: int| k < i < pre.len() ==> post[i] == pre[i]
}

/// Outcome for field `i` of a retrieve that got past it.
pub open spec fn retrieved_field<B: SyncBuffer>(pre: Seq<B>, post: Seq<B>, i: int) -> bool {
    if pre[i].policy_view().pull {
        pull_ok(pre[i], post[i])
    } else {
        post[i] == pre[i]
    }
}

/// A retrieve that aborted at field `k`.
pub open spec fn retrieve_aborted_at<B: SyncBuffer>(pre: Seq<B>, post: Seq<B>, k: int) -> bool {
    &&& 0 <= k < pre.len()
    &&& pre[k].policy_view().pull
    &&& pull_err(pre[k], post[k])
    &&& forall|i: int| 0 <= i < k ==> retrieved_field(pre, post, i)
    &&& forall|i: int| k < i < pre.len() ==> post[i] == pre[i]
}

/// Pushes every field whose policy requests the host-to-device direction, in
/// declaration order, aborting at the first failing transfer.  Fields with
/// `push` disabled, and every field after a failure, are not touched.
pub fn send_all<B: SyncBuffer>(fields: &mut Vec<B>) -> (r: Result<(), TransferError>)
    requires
        forall|i: int| 0 <= i < old(fields)@.len() ==> (#[trigger] old(fields)@[i]).wf(),
    ensures
        final(fields)@.len() == old(fields)@.len(),
        forall|i: int| 0 <= i < final(fields)@.len() ==> (#[trigger] final(fields)@[i]).wf(),
        r is Ok ==> forall|i: int|
            0 <= i < old(fields)@.len() ==> sent_field(old(fields)@, final(fields)@, i),
        r is Err ==> exists|k: int| #[trigger] send_aborted_at(old(fields)@, final(fields)@, k),
{
    let ghost pre = fields@;
    let n = fields.len();
    let mut idx: usize = 0;
    while idx < n
        invariant
            pre == old(fields)@,
            n == fields@.len(),
            fields@.len() == pre.len(),
            idx <= n,
            forall|i: int| idx <= i < n ==> fields@[i] == pre[i],
            forall|i: int| 0 <= i < idx ==> sent_field(pre, fields@, i),
            forall|i: int| 0 <= i < n ==> (#[trigger] fields@[i]).wf(),
        decreases n - idx,
    {
        let ghost fs0 = fields@;
        let mut b = fields.remove(idx);
        let p = b.policy();
        if p.push {
            let res = b.push();
            let ghost bpost = b;
            fields.insert(idx, b);
            proof {
                assert(fields@ =~= fs0.update(idx as int, bpost));
                assert forall|i: int| 0 <= i < idx implies sent_field(pre, fields@, i) by {
                    assert(fields@[i] == fs0[i]);
                    assert(sent_field(pre, fs0, i));
                }
            }
            if let Err(e) = res {
                proof {
                    assert(push_err(pre[idx as int], bpost));
                    assert(send_aborted_at(pre, fields@, idx as int));
                }
                return Err(e);
            }
            proof {
                assert(push_ok(pre[idx as int], bpost));
                assert(sent_field(pre, fields@, idx as int));
            }
        } else {
            fields.insert(idx, b);
            proof {
                assert(fields@ =~= fs0);
                assert(sent_field(pre, fields@, idx as int));
            }
        }
        idx = idx + 1;
    }
    Ok(())
}

/// Pulls every field whose policy requests the device-to-host direction, in
/// declaration order, aborting at the first failing transfer.
pub fn retrieve_all<B: SyncBuffer>(fields: &mut Vec<B>) -> (r: Result<(), TransferError>)
    requires
        forall|i: int| 0 <= i < old(fields)@.len() ==> (#[trigger] old(fields)@[i]).wf(),
    ensures
        final(fields)@.len() == old(fields)@.len(),
        forall|i: int| 0 <= i < final(fields)@.len() ==> (#[trigger] final(fields)@[i]).wf(),
        r is Ok ==> forall|i: int|
            0 <= i < old(fields)@.len() ==> retrieved_field(old(fields)@, final(fields)@, i),
        r is Err ==> exists|k: int|
            #[trigger] retrieve_aborted_at(old(fields)@, final(fields)@, k),
{
    let ghost pre = fields@;
    let n = fields.len();
    let mut idx: usize = 0;
    while idx < n
        invariant
            pre == old(fields)@,
            n == fields@.len(),
            fields@.len() == pre.len(),
            idx <= n,
            forall|i: int| idx <= i < n ==> fields@[i] == pre[i],
            forall|i: int| 0 <= i < idx ==> retrieved_field(pre, fields@, i),
            forall|i: int| 0 <= i < n ==> (#[trigger] fields@[i]).wf(),
        decreases n - idx,
    {
        let ghost fs0 = fields@;
        let mut b = fields.remove(idx);
        let p = b.policy();
        if p.pull {
            let res = b.pull();
            let ghost bpost = b;
            fields.insert(idx, b);
            proof {
                assert(fields@ =~= fs0.update(idx as int, bpost));
                assert forall|i: int| 0 <= i < idx implies retrieved_field(pre, fields@, i) by {
                    assert(fields@[i] == fs0[i]);
                    assert(retrieved_field(pre, fs0, i));
                }
            }
            if let Err(e) = res {
                proof {
                    assert(pull_err(pre[idx as int], bpost));
                    assert(retrieve_aborted_at(pre, fields@, idx as int));
                }
                return Err(e);
            }
            proof {
                assert(pull_ok(pre[idx as int], bpost));
                assert(retrieved_field(pre, fields@, idx as int));
            }
        } else {
            fields.insert(idx, b);
            proof {
                assert(fields@ =~= fs0);
                assert(retrieved_field(pre, fields@, idx as int));
            }
        }
        idx = idx + 1;
    }
    Ok(())
}

/// Round trip: a successful push followed immediately by a successful pull,
/// with no intervening device-side mutation, restores the host contents
/// exactly, whatever they were.
pub proof fn lemma_push_then_pull_restores_host<B: SyncBuffer>(pre: B, mid: B, post: B)
    requires
        push_ok(pre, mid),
        pull_ok(mid, post),
    ensures
        post.host_view() == pre.host_view(),
{
}

/// Fail-fast: when a send aborts at field `k`, every field before `k` got
/// exactly its policy's transfer, field `k` has exactly one more attempt on
/// record, and every field after `k` is untouched — it was never attempted.
pub proof fn lemma_send_fail_fast<B: SyncBuffer>(pre: Seq<B>, post: Seq<B>, k: int, i: int)
    requires
        send_aborted_at(pre, post, k),
        0 <= i < pre.len(),
    ensures
        i < k ==> sent_field(pre, post, i),
        i == k ==> post[i].attempts() == pre[i].attempts().push(Direction::Push),
        i > k ==> post[i] == pre[i] && post[i].attempts() == pre[i].attempts(),
{
}

/// Fail-fast for the device-to-host direction.
pub proof fn lemma_retrieve_fail_fast<B: SyncBuffer>(pre: Seq<B>, post: Seq<B>, k: int, i: int)
    requires
        retrieve_aborted_at(pre, post, k),
        0 <= i < pre.len(),
    ensures
        i < k ==> retrieved_field(pre, post, i),
        i == k ==> post[i].attempts() == pre[i].attempts().push(Direction::Pull),
        i > k ==> post[i] == pre[i] && post[i].attempts() == pre[i].attempts(),
{
}

/// The two bulk synchronization operations of an aggregate of paired buffers.
pub trait DeviceToFrom {
    /// Well-formedness of the aggregate's synchronizable fields.
    spec fn sync_wf(&self) -> bool;

    /// Sends every field that opts into the host-to-device direction.
    fn send_pairedbuffs(&mut self) -> (r: Result<(), TransferError>)
        requires
            old(self).sync_wf(),
        ensures
            final(self).sync_wf(),
    ;

    /// Retrieves every field that opts into the device-to-host direction.
    fn retrieve_pairedbuffs(&mut self) -> (r: Result<(), TransferError>)
        requires
            old(self).sync_wf(),
        ensures
            final(self).sync_wf(),
    ;
}

/// An ordered collection of synchronizable fields is itself an aggregate:
/// its declaration order is the order of the vector.
impl<B: SyncBuffer> DeviceToFrom for Vec<B> {
    open spec fn sync_wf(&self) -> bool {
        forall|i: int| 0 <= i < self@.len() ==> (#[trigger] self@[i]).wf()
    }

    fn send_pairedbuffs(&mut self) -> (r: Result<(), TransferError>)
        ensures
            final(self)@.len() == old(self)@.len(),
            r is Ok ==> forall|i: int|
                0 <= i < old(self)@.len() ==> sent_field(old(self)@, final(self)@, i),
            r is Err ==> exists|k: int| #[trigger] send_aborted_at(old(self)@, final(self)@, k),
    {
        send_all(self)
    }

    fn retrieve_pairedbuffs(&mut self) -> (r: Result<(), TransferError>)
        ensures
            final(self)@.len() == old(self)@.len(),
            r is Ok ==> forall|i: int|
                0 <= i < old(self)@.len() ==> retrieved_field(old(self)@, final(self)@, i),
            r is Err ==> exists|k: int|
                #[trigger] retrieve_aborted_at(old(self)@, final(self)@, k),
    {
        retrieve_all(self)
    }
}

} // verus!
