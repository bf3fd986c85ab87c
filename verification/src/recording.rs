//! An in-memory paired buffer that records every transfer it attempts.
//!
//! It couples a host-side multi-dimensional container with a same-sized
//! in-memory stand-in for a device allocation, and implements the full
//! synchronization capability.  Elements are 64-bit words: the bit pattern of
//! one element of whatever concrete element type the caller models.  A fault
//! can be armed per direction to force the next transfers in that direction
//! to fail, which makes the buffer an instrument for observing invocation
//! order and fail-fast behaviour.

use crate::policy::SyncPolicy;
use crate::sync::{Direction, SyncBuffer, TransferError};
use vstd::prelude::*;

verus! {

/// Rejected buffer configurations.
#[derive(Clone, Copy, PartialEq, Eq, Structural, Debug)]
pub enum BufferConfigError {
    /// The policy requests neither direction.
    RedundantPolicy,
    /// The declared dimensions do not multiply out to the element count.
    ShapeMismatch,
}

/// The element count a list of dimensions describes (the empty list is a
/// scalar).
pub open spec fn shape_product(dims: Seq<usize>) -> nat
    decreases dims.len(),
{
    if dims.len() == 0 {
        1
    } else {
        shape_product(dims.drop_last()) * (dims.last() as nat)
    }
}

/// A host container paired with an equally sized in-memory device stand-in,
/// with a per-direction fault switch and a record of attempted transfers.
pub struct RecordingBuffer {
    host: Vec<u64>,
    device: Vec<u64>,
    dims: Vec<usize>,
    policy: SyncPolicy,
    push_fault: Option<TransferError>,
    pull_fault: Option<TransferError>,
    log: Vec<Direction>,
}

impl RecordingBuffer {
    /// The declared dimensions of the host container.
    pub closed spec fn dims_view(self) -> Seq<usize> {
        self.dims@
    }

    /// The fault armed for host-to-device transfers, if any.
    pub closed spec fn push_fault_view(self) -> Option<TransferError> {
        self.push_fault
    }

    /// The fault armed for device-to-host transfers, if any.
    pub closed spec fn pull_fault_view(self) -> Option<TransferError> {
        self.pull_fault
    }

    /// Creates a paired buffer from host contents, their dimensions, and a
    /// synchronization policy.  The device side is allocated to exactly the
    /// host element count and starts zeroed.  Rejects a policy that requests
    /// neither direction and dimensions that do not match the element count.
    pub fn create_from(host: Vec<u64>, dims: Vec<usize>, policy: SyncPolicy) -> (r: Result<
        RecordingBuffer,
        BufferConfigError,
    >)
        ensures
            match r {
                Ok(b) => {
                    &&& policy.is_meaningful()
                    &&& shape_product(dims@) == host@.len()
                    &&& b.wf()
                    &&& b.host_view() == host@
                    &&& b.device_view() == Seq::new(host@.len(), |i: int| 0u64)
                    &&& b.dims_view() == dims@
                    &&& b.policy_view() == policy
                    &&& b.attempts() == Seq::<Direction>::empty()
                    &&& b.push_fault_view() is None
                    &&& b.pull_fault_view() is None
                },
                Err(e) => {
                    match e {
                        BufferConfigError::RedundantPolicy => !policy.is_meaningful(),
                        BufferConfigError::ShapeMismatch => policy.is_meaningful()
                            && shape_product(dims@) != host@.len(),
                    }
                },
            },
    {
        if !policy.meaningful() {
            return Err(BufferConfigError::RedundantPolicy);
        }
        let mut product: usize = 1;
        let mut k: usize = 0;
        let mut overflowed = false;
        while k < dims.len()
            invariant
                k <= dims@.len(),
                !overflowed ==> product == shape_product(dims@.subrange(0, k as int)),
                overflowed ==> shape_product(dims@.subrange(0, k as int)) > usize::MAX,
            decreases dims@.len() - k,
        {
            proof {
                assert(dims@.subrange(0, k + 1).drop_last() =~= dims@.subrange(0, k as int));
                assert(dims@.subrange(0, k + 1).last() == dims@[k as int]);
            }
            if overflowed {
                proof {
                    vstd::arithmetic::mul::lemma_mul_inequality(
                        usize::MAX + 1,
                        shape_product(dims@.subrange(0, k as int)) as int,
                        dims@[k as int] as int,
                    );
                }
                if dims[k] == 0 {
                    overflowed = false;
                    product = 0;
                }
            } else {
                match product.checked_mul(dims[k]) {
                    Some(p) => {
                        product = p;
                    },
                    None => {
                        overflowed = true;
                    },
                }
            }
            k = k + 1;
        }
        proof {
            assert(dims@.subrange(0, dims@.len() as int) =~= dims@);
        }
        let n = host.len();
        if overflowed || product != n {
            return Err(BufferConfigError::ShapeMismatch);
        }
        let mut device: Vec<u64> = Vec::new();
        let mut j: usize = 0;
        while j < n
            invariant
                j <= n,
                device@ =~= Seq::new(j as nat, |i: int| 0u64),
            decreases n - j,
        {
            device.push(0);
            j = j + 1;
        }
        Ok(
            RecordingBuffer {
                host,
                device,
                dims,
                policy,
                push_fault: None,
                pull_fault: None,
                log: Vec::new(),
            },
        )
    }

    /// Arms a fault for host-to-device transfers: every later `push` fails
    /// with it until the fault is cleared.
    pub fn arm_push_fault(&mut self, e: TransferError)
        ensures
            final(self).push_fault_view() == Some(e),
            final(self).pull_fault_view() == old(self).pull_fault_view(),
            final(self).host_view() == old(self).host_view(),
            final(self).device_view() == old(self).device_view(),
            final(self).dims_view() == old(self).dims_view(),
            final(self).policy_view() == old(self).policy_view(),
            final(self).attempts() == old(self).attempts(),
            final(self).wf() == old(self).wf(),
    {
        self.push_fault = Some(e);
    }

    /// Arms a fault for device-to-host transfers.
    pub fn arm_pull_fault(&mut self, e: TransferError)
        ensures
            final(self).pull_fault_view() == Some(e),
            final(self).push_fault_view() == old(self).push_fault_view(),
            final(self).host_view() == old(self).host_view(),
            final(self).device_view() == old(self).device_view(),
            final(self).dims_view() == old(self).dims_view(),
            final(self).policy_view() == old(self).policy_view(),
            final(self).attempts() == old(self).attempts(),
            final(self).wf() == old(self).wf(),
    {
        self.pull_fault = Some(e);
    }

    /// Number of elements of the pair.
    pub fn len(&self) -> (n: usize)
        ensures
            n == self.host_view().len(),
    {
        self.host.len()
    }

    /// Reads one host element.
    pub fn host_elem(&self, i: usize) -> (v: u64)
        requires
            i < self.host_view().len(),
        ensures
            v == self.host_view()[i as int],
    {
        self.host[i]
    }

    /// Reads one device element.
    pub fn device_elem(&self, i: usize) -> (v: u64)
        requires
            i < self.device_view().len(),
        ensures
            v == self.device_view()[i as int],
    {
        self.device[i]
    }

    /// Writes one host element: the host side is freely writable between
    /// transfers.
    pub fn set_host_elem(&mut self, i: usize, v: u64)
        requires
            i < old(self).host_view().len(),
        ensures
            final(self).host_view() == old(self).host_view().update(i as int, v),
            final(self).device_view() == old(self).device_view(),
            final(self).dims_view() == old(self).dims_view(),
            final(self).policy_view() == old(self).policy_view(),
            final(self).attempts() == old(self).attempts(),
            final(self).push_fault_view() == old(self).push_fault_view(),
            final(self).pull_fault_view() == old(self).pull_fault_view(),
            final(self).wf() == old(self).wf(),
    {
        self.host.set(i, v);
    }

    /// Writes one device element: stands for device-side computation (a
    /// kernel writing the buffer) between transfers.
    pub fn set_device_elem(&mut self, i: usize, v: u64)
        requires
            i < old(self).device_view().len(),
        ensures
            final(self).device_view() == old(self).device_view().update(i as int, v),
            final(self).host_view() == old(self).host_view(),
            final(self).dims_view() == old(self).dims_view(),
            final(self).policy_view() == old(self).policy_view(),
            final(self).attempts() == old(self).attempts(),
            final(self).push_fault_view() == old(self).push_fault_view(),
            final(self).pull_fault_view() == old(self).pull_fault_view(),
            final(self).wf() == old(self).wf(),
    {
        self.device.set(i, v);
    }

    /// How many transfers this buffer attempted.
    pub fn attempt_count(&self) -> (n: usize)
        ensures
            n == self.attempts().len(),
    {
        self.log.len()
    }

    /// The direction of the `i`-th attempted transfer.
    pub fn attempt_at(&self, i: usize) -> (d: Direction)
        requires
            i < self.attempts().len(),
        ensures
            d == self.attempts()[i as int],
    {
        self.log[i]
    }
}

impl SyncBuffer for RecordingBuffer {
    /// The pairing invariant: the device side holds exactly as many elements
    /// as the host side, the declared dimensions multiply out to that count,
    /// and the policy requests at least one direction.
    closed spec fn wf(&self) -> bool {
        &&& self.device@.len() == self.host@.len()
        &&& shape_product(self.dims@) == self.host@.len()
        &&& self.policy.is_meaningful()
    }

    closed spec fn policy_view(&self) -> SyncPolicy {
        self.policy
    }

    closed spec fn host_view(&self) -> Seq<u64> {
        self.host@
    }

    closed spec fn device_view(&self) -> Seq<u64> {
        self.device@
    }

    closed spec fn attempts(&self) -> Seq<Direction> {
        self.log@
    }

    proof fn wf_implies_matched_len(&self) {
    }

    fn policy(&self) -> (p: SyncPolicy) {
        self.policy
    }

    fn push(&mut self) -> (r: Result<(), TransferError>)
        ensures
            r is Err <==> old(self).push_fault_view() is Some,
            r is Err ==> r == Err::<(), TransferError>(old(self).push_fault_view().unwrap()),
            r is Err ==> final(self).device_view() == old(self).device_view(),
            final(self).dims_view() == old(self).dims_view(),
            final(self).push_fault_view() == old(self).push_fault_view(),
            final(self).pull_fault_view() == old(self).pull_fault_view(),
    {
        self.log.push(Direction::Push);
        match self.push_fault {
            Some(e) => Err(e),
            None => {
                let n = self.host.len();
                let mut copy: Vec<u64> = Vec::new();
                let mut j: usize = 0;
                while j < n
                    invariant
                        j <= n,
                        n == self.host@.len(),
                        copy@ =~= self.host@.subrange(0, j as int),
                    decreases n - j,
                {
                    let v = self.host[j];
                    copy.push(v);
                    j = j + 1;
                }
                proof {
                    assert(copy@ =~= self.host@);
                }
                self.device = copy;
                Ok(())
            },
        }
    }

    fn pull(&mut self) -> (r: Result<(), TransferError>)
        ensures
            r is Err <==> old(self).pull_fault_view() is Some,
            r is Err ==> r == Err::<(), TransferError>(old(self).pull_fault_view().unwrap()),
            r is Err ==> final(self).host_view() == old(self).host_view(),
            final(self).dims_view() == old(self).dims_view(),
            final(self).push_fault_view() == old(self).push_fault_view(),
            final(self).pull_fault_view() == old(self).pull_fault_view(),
    {
        self.log.push(Direction::Pull);
        match self.pull_fault {
            Some(e) => Err(e),
            None => {
                let n = self.device.len();
                let mut copy: Vec<u64> = Vec::new();
                let mut j: usize = 0;
                while j < n
                    invariant
                        j <= n,
                        n == self.device@.len(),
                        copy@ =~= self.device@.subrange(0, j as int),
                    decreases n - j,
                {
                    let v = self.device[j];
                    copy.push(v);
                    j = j + 1;
                }
                proof {
                    assert(copy@ =~= self.device@);
                }
                self.host = copy;
                Ok(())
            },
        }
    }
}

} // verus!
