//! The managed tensor: a descriptor bundled with the capability to hand its
//! buffer back to whoever lent it.
//!
//! A producer wraps the descriptor of a live buffer with [`DLManagedTensor::transfer`]
//! and passes the wrapper on by value. The consumer reads the buffer through
//! the descriptor and, when it is done, calls [`DLManagedTensor::release`],
//! which runs the producer's release function. That function runs at most
//! once: the wrapper gives it up when it is called, and every later call is
//! refused.
//!
//! Two stations of a tensor's life have no value of their own here. Before
//! the transfer there is only the bare descriptor; and a tensor that is
//! dropped while still held has leaked, which nothing can observe at that
//! point but the producer, whose buffer never comes back.

use vstd::prelude::*;

use crate::dlpack::{DLTensor, TensorView};

verus! {

/// Where a managed tensor stands in its life with the consumer.
#[derive(Debug, Copy, Clone, PartialEq, Eq, Structural)]
pub enum TensorState {
    /// The consumer holds the tensor and may read the buffer.
    Held,
    /// The buffer was handed back. Nothing leads out of this state.
    Released,
}

/// A use of the protocol that its rules forbid. None of them can be
/// recovered from by trying again; each is reported instead of being acted
/// on.
#[derive(Debug, Copy, Clone, PartialEq, Eq, Structural)]
pub enum ContractViolation {
    /// The slot of a registry was to be finalized while it held nothing.
    EmptySlot,
    /// A tensor was offered to a registry whose slot was occupied.
    SlotOccupied,
    /// A tensor that was released already was to be released or used again.
    AlreadyReleased,
    /// A tensor was to be released that carries no release function.
    ReleaseAbsent,
}

/// What a managed tensor is, as plain mathematical values.
pub struct ManagedView {
    /// The descriptor that the tensor wraps.
    pub tensor: TensorView,
    /// The producer's context, opaque to everyone else.
    pub manager_ctx: usize,
    /// Whether the tensor still carries a release function.
    pub has_release: bool,
    /// Where the tensor stands in its life.
    pub state: TensorState,
}

impl ManagedView {
    /// What an attempt to release the tensor comes to: it succeeds on a held
    /// tensor that carries a release function, and on no other.
    pub open spec fn release_outcome(self) -> Result<(), ContractViolation> {
        if self.state is Released {
            Err(ContractViolation::AlreadyReleased)
        } else if !self.has_release {
            Err(ContractViolation::ReleaseAbsent)
        } else {
            Ok(())
        }
    }

    /// The tensor after an attempt to release it: released and without its
    /// release function where the attempt succeeds, unchanged where it does
    /// not.
    pub open spec fn after_release(self) -> ManagedView {
        if self.release_outcome() is Ok {
            ManagedView { has_release: false, state: TensorState::Released, ..self }
        } else {
            self
        }
    }

    /// Releasing a held tensor that carries a release function succeeds and
    /// takes it to `Released`; its descriptor and context stay as they were.
    pub proof fn lemma_release_once(self)
        requires
            self.state is Held,
            self.has_release,
        ensures
            self.release_outcome() is Ok,
            self.after_release().state is Released,
            self.after_release().tensor == self.tensor,
            self.after_release().manager_ctx == self.manager_ctx,
    {
    }

    /// Whatever the tensor, and whatever the first attempt came to, a second
    /// attempt to release it fails and changes nothing; after a first
    /// attempt that succeeded it fails with `AlreadyReleased`.
    pub proof fn lemma_second_release_fails(self)
        ensures
            self.after_release().release_outcome() is Err,
            self.after_release().after_release() == self.after_release(),
            self.release_outcome() is Ok ==> self.after_release().release_outcome() == Err::<
                (),
                ContractViolation,
            >(ContractViolation::AlreadyReleased),
    {
    }
}

/// A tensor whose memory another party manages. It lets one framework borrow
/// the buffer of another: the borrower holds the value, and when it no
/// longer needs the buffer it calls `release`, which tells the lender so.
///
/// The release function receives the descriptor and the manager context. It
/// may be absent where the lender can provide none; the borrower can then
/// not hand the buffer back through this value.
pub struct DLManagedTensor<F: FnOnce(&DLTensor, usize)> {
    /// The descriptor of the buffer that is being managed
    dl_tensor: DLTensor,
    /// The context of the lender, opaque to the borrower. It can be 0.
    manager_ctx: usize,
    /// The release function; gone once it was called.
    deleter: Option<F>,
    /// Whether the buffer is still held.
    state: TensorState,
}

impl<F: FnOnce(&DLTensor, usize)> View for DLManagedTensor<F> {
    type V = ManagedView;

    open spec fn view(&self) -> ManagedView {
        ManagedView {
            tensor: self.descriptor()@,
            manager_ctx: self.context(),
            has_release: self.release_fn() is Some,
            state: self.phase(),
        }
    }
}

impl<F: FnOnce(&DLTensor, usize)> DLManagedTensor<F> {
    /// A release function that is still there can be called with this
    /// descriptor and context, and a released tensor has none left.
    #[verifier::type_invariant]
    spec fn inv(self) -> bool {
        &&& self.deleter matches Some(f) ==> call_requires(f, (&self.dl_tensor, self.manager_ctx))
        &&& self.state is Released ==> self.deleter is None
    }

    /// The descriptor that the tensor wraps.
    pub closed spec fn descriptor(self) -> DLTensor {
        self.dl_tensor
    }

    /// The producer's context.
    pub closed spec fn context(self) -> usize {
        self.manager_ctx
    }

    /// The release function that the tensor carries, if it carries one.
    pub closed spec fn release_fn(self) -> Option<F> {
        self.deleter
    }

    /// Where the tensor stands in its life.
    pub closed spec fn phase(self) -> TensorState {
        self.state
    }

    /// Bundles a descriptor with the producer's context and release
    /// function, ready to be passed to a consumer. Nothing is allocated or
    /// copied: the buffer exists already, and `descriptor` points at it.
    ///
    /// A release function, where one is given, has to accept this descriptor
    /// and this context.
    pub fn transfer(descriptor: DLTensor, manager_ctx: usize, release: Option<F>) -> (m: Self)
        requires
            release matches Some(f) ==> call_requires(f, (&descriptor, manager_ctx)),
        ensures
            m.descriptor() == descriptor,
            m.context() == manager_ctx,
            m.release_fn() == release,
            m.phase() == TensorState::Held,
            m@ == (ManagedView {
                tensor: descriptor@,
                manager_ctx,
                has_release: release is Some,
                state: TensorState::Held,
            }),
    {
        DLManagedTensor { dl_tensor: descriptor, manager_ctx, deleter: release, state: TensorState::Held }
    }

    /// Hands the buffer back: calls the release function with the descriptor
    /// and the manager context, and takes the tensor to `Released`.
    ///
    /// This succeeds on a held tensor that carries a release function, and
    /// then the release function has run, once. A tensor that was released
    /// before is refused with `AlreadyReleased`, a held one without a release
    /// function with `ReleaseAbsent`; a refused call changes nothing and
    /// calls nothing.
    pub fn release(&mut self) -> (r: Result<(), ContractViolation>)
        ensures
            r == old(self)@.release_outcome(),
            final(self)@ == old(self)@.after_release(),
            final(self).descriptor() == old(self).descriptor(),
            r is Ok ==> (old(self).release_fn() matches Some(f) && call_ensures(
                f,
                (&old(self).descriptor(), old(self).context()),
                (),
            )),
            r is Err ==> *final(self) == *old(self),
    {
        proof {
            use_type_invariant(&*self);
        }
        match self.state {
            TensorState::Released => Err(ContractViolation::AlreadyReleased),
            TensorState::Held => {
                let mut taken: Option<F> = None;
                std::mem::swap(&mut taken, &mut self.deleter);
                match taken {
                    None => Err(ContractViolation::ReleaseAbsent),
                    Some(f) => {
                        f(&self.dl_tensor, self.manager_ctx);
                        self.state = TensorState::Released;
                        Ok(())
                    },
                }
            },
        }
    }

    /// The descriptor, for as long as the tensor is held. Once the buffer
    /// was handed back the descriptor points at nothing that may be read,
    /// and the call is refused with `AlreadyReleased`.
    pub fn tensor(&self) -> (t: Result<&DLTensor, ContractViolation>)
        ensures
            t is Ok <==> self@.state is Held,
            t matches Ok(d) ==> *d == self.descriptor() && d@ == self@.tensor,
            t matches Err(e) ==> e == ContractViolation::AlreadyReleased,
    {
        match self.state {
            TensorState::Held => Ok(&self.dl_tensor),
            TensorState::Released => Err(ContractViolation::AlreadyReleased),
        }
    }

    /// The producer's context.
    pub fn manager_ctx(&self) -> (c: usize)
        ensures
            c == self@.manager_ctx,
    {
        self.manager_ctx
    }

    /// Whether the tensor carries a release function that has not run.
    pub fn has_release(&self) -> (b: bool)
        ensures
            b == self@.has_release,
    {
        self.deleter.is_some()
    }

    /// Where the tensor stands in its life.
    pub fn state(&self) -> (s: TensorState)
        ensures
            s == self@.state,
            s is Released ==> !self@.has_release,
    {
        proof {
            use_type_invariant(self);
        }
        self.state
    }
}

} // verus!
