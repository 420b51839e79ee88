//! The exchange registry: the consumer's side of a hand-off, a single slot
//! that holds at most one managed tensor between the moment it is accepted
//! and the moment its buffer is handed back.
//!
//! A registry is an ordinary value, owned by whoever drives the exchange and
//! passed by reference to whoever takes part in it. It is not shared state:
//! callers that reach one registry from several threads have to serialise
//! `accept`, `finalize` and `clear_without_release` themselves.

use vstd::prelude::*;

use crate::dlpack::DLTensor;
use crate::managed::{ContractViolation, DLManagedTensor, ManagedView, TensorState};

verus! {

/// What a registry is, as plain mathematical values.
pub struct RegistryView {
    /// The tensor in the slot, if there is one.
    pub slot: Option<ManagedView>,
}

impl RegistryView {
    /// A tensor in the slot is one that is still held.
    pub open spec fn wf(self) -> bool {
        self.slot matches Some(m) ==> m.state is Held
    }

    /// What offering `tensor` to the registry comes to: it is accepted where
    /// the slot is empty and the tensor is still held, and not otherwise.
    pub open spec fn accept_outcome(self, tensor: ManagedView) -> Result<(), ContractViolation> {
        if self.slot is Some {
            Err(ContractViolation::SlotOccupied)
        } else if tensor.state is Released {
            Err(ContractViolation::AlreadyReleased)
        } else {
            Ok(())
        }
    }

    /// The registry after `tensor` was offered to it: holding the tensor
    /// where it was accepted, unchanged where it was not.
    pub open spec fn after_accept(self, tensor: ManagedView) -> RegistryView {
        if self.accept_outcome(tensor) is Ok {
            RegistryView { slot: Some(tensor) }
        } else {
            self
        }
    }

    /// What finalizing comes to: on an empty slot `EmptySlot`, on an occupied
    /// one whatever releasing its tensor comes to.
    pub open spec fn finalize_outcome(self) -> Result<(), ContractViolation> {
        match self.slot {
            None => Err(ContractViolation::EmptySlot),
            Some(m) => m.release_outcome(),
        }
    }

    /// The registry after finalizing: empty where that succeeded, unchanged
    /// where it did not.
    pub open spec fn after_finalize(self) -> RegistryView {
        if self.finalize_outcome() is Ok {
            RegistryView { slot: None }
        } else {
            self
        }
    }

    /// Finalizing a registry whose tensor is held and carries a release
    /// function succeeds and leaves the slot empty; finalizing an empty
    /// registry fails with `EmptySlot`.
    pub proof fn lemma_finalize_once(self)
        ensures
            self.slot matches Some(m) && m.state is Held && m.has_release ==> self.finalize_outcome()
                is Ok && self.after_finalize().slot is None,
            self.slot is None ==> self.finalize_outcome() == Err::<(), ContractViolation>(
                ContractViolation::EmptySlot,
            ),
    {
    }

    /// Whatever the registry, and whatever the first attempt came to, a
    /// second attempt to finalize fails and changes nothing; after a first
    /// attempt that succeeded it fails with `EmptySlot`.
    pub proof fn lemma_second_finalize_fails(self)
        ensures
            self.after_finalize().finalize_outcome() is Err,
            self.after_finalize().after_finalize() == self.after_finalize(),
            self.finalize_outcome() is Ok ==> self.after_finalize().finalize_outcome() == Err::<
                (),
                ContractViolation,
            >(ContractViolation::EmptySlot),
    {
    }

    /// Once a tensor was accepted, every further tensor is refused with
    /// `SlotOccupied` and the first stays in the slot, until the registry is
    /// finalized or cleared.
    pub proof fn lemma_second_accept_refused(self, first: ManagedView, second: ManagedView)
        requires
            self.accept_outcome(first) is Ok,
        ensures
            self.after_accept(first).slot == Some(first),
            self.after_accept(first).accept_outcome(second) == Err::<(), ContractViolation>(
                ContractViolation::SlotOccupied,
            ),
            self.after_accept(first).after_accept(second) == self.after_accept(first),
    {
    }

    /// One round of the hand-off leaves the registry as it found it: an
    /// empty registry that accepts a held tensor with a release function and
    /// is then finalized is empty again, and both steps succeed.
    pub proof fn lemma_accept_finalize_cycle(self, tensor: ManagedView)
        requires
            self.slot is None,
            tensor.state is Held,
            tensor.has_release,
        ensures
            self.accept_outcome(tensor) is Ok,
            self.after_accept(tensor).finalize_outcome() is Ok,
            self.after_accept(tensor).after_finalize() == self,
    {
    }

    /// Accepting and finalizing keep the slot well-formed: what they leave
    /// in it is a tensor that is still held.
    pub proof fn lemma_steps_keep_wf(self, tensor: ManagedView)
        requires
            self.wf(),
        ensures
            self.after_accept(tensor).wf(),
            self.after_finalize().wf(),
    {
    }
}

/// A single slot for one borrowed tensor at a time.
pub struct ExchangeRegistry<F: FnOnce(&DLTensor, usize)> {
    /// The tensor that was accepted and not yet handed back.
    slot: Option<DLManagedTensor<F>>,
}

impl<F: FnOnce(&DLTensor, usize)> View for ExchangeRegistry<F> {
    type V = RegistryView;

    open spec fn view(&self) -> RegistryView {
        RegistryView {
            slot: match self.occupant() {
                Some(m) => Some(m@),
                None => None,
            },
        }
    }
}

impl<F: FnOnce(&DLTensor, usize)> ExchangeRegistry<F> {
    /// A tensor in the slot is one that is still held.
    #[verifier::type_invariant]
    spec fn inv(self) -> bool {
        self.slot matches Some(m) ==> m.phase() is Held
    }

    /// The tensor in the slot, if there is one.
    pub closed spec fn occupant(self) -> Option<DLManagedTensor<F>> {
        self.slot
    }

    /// A registry with an empty slot.
    pub fn new() -> (r: Self)
        ensures
            r.occupant() is None,
            r@ == (RegistryView { slot: None }),
    {
        ExchangeRegistry { slot: None }
    }

    /// Whether the slot is empty.
    pub fn is_empty(&self) -> (b: bool)
        ensures
            b == (self@.slot is None),
    {
        self.slot.is_none()
    }

    /// The tensor in the slot, to read the buffer through its descriptor.
    pub fn held(&self) -> (m: Option<&DLManagedTensor<F>>)
        ensures
            m matches Some(t) ==> Some(*t) == self.occupant(),
            m is None ==> self.occupant() is None,
            m matches Some(t) ==> Some(t@) == self@.slot && t@.state is Held,
            m is None ==> self@.slot is None,
    {
        proof {
            use_type_invariant(self);
        }
        self.slot.as_ref()
    }

    /// Takes a tensor into the slot.
    ///
    /// A tensor is accepted where the slot is empty and the tensor is still
    /// held. Where the slot is occupied the tensor is refused with
    /// `SlotOccupied`, and the occupant stays: it is never overwritten, which
    /// would leak it. A tensor that was released is refused with
    /// `AlreadyReleased`. A refused tensor comes back to the caller beside
    /// the reason, as it was.
    pub fn accept(&mut self, tensor: DLManagedTensor<F>) -> (r: Result<
        (),
        (ContractViolation, DLManagedTensor<F>),
    >)
        ensures
            r is Ok == old(self)@.accept_outcome(tensor@) is Ok,
            r matches Err(refused) ==> Err::<(), ContractViolation>(refused.0) == old(
                self,
            )@.accept_outcome(tensor@) && refused.1 == tensor,
            r is Ok ==> final(self).occupant() == Some(tensor),
            r is Err ==> final(self).occupant() == old(self).occupant(),
            final(self)@ == old(self)@.after_accept(tensor@),
            final(self)@.wf(),
    {
        proof {
            use_type_invariant(&*self);
        }
        if self.slot.is_some() {
            return Err((ContractViolation::SlotOccupied, tensor));
        }
        match tensor.state() {
            TensorState::Released => Err((ContractViolation::AlreadyReleased, tensor)),
            TensorState::Held => {
                self.slot = Some(tensor);
                Ok(())
            },
        }
    }

    /// Hands the buffer of the tensor in the slot back and empties the slot.
    ///
    /// This succeeds where the slot holds a tensor that carries a release
    /// function, and then that function has run, once, with the tensor's
    /// descriptor and context. On an empty slot it fails with `EmptySlot`,
    /// on a tensor without a release function with `ReleaseAbsent`; a call
    /// that fails changes nothing and calls nothing.
    pub fn finalize(&mut self) -> (r: Result<(), ContractViolation>)
        ensures
            r == old(self)@.finalize_outcome(),
            final(self)@ == old(self)@.after_finalize(),
            final(self)@.wf(),
            r is Ok ==> (old(self).occupant() matches Some(m) && m.release_fn() matches Some(f)
                && call_ensures(f, (&m.descriptor(), m.context()), ())),
            r is Err ==> final(self).occupant() == old(self).occupant(),
    {
        proof {
            use_type_invariant(&*self);
        }
        let mut taken: Option<DLManagedTensor<F>> = None;
        std::mem::swap(&mut taken, &mut self.slot);
        match taken {
            None => Err(ContractViolation::EmptySlot),
            Some(mut held) => {
                match held.release() {
                    Ok(()) => Ok(()),
                    Err(violation) => {
                        self.slot = Some(held);
                        Err(violation)
                    },
                }
            },
        }
    }

    /// Empties the slot without handing the buffer back, and gives the
    /// tensor that was in it to the caller, still held and with its release
    /// function untouched. Dropping that tensor leaks the buffer: this is the
    /// way to model that defect, not a step of the protocol.
    pub fn clear_without_release(&mut self) -> (m: Option<DLManagedTensor<F>>)
        ensures
            m == old(self).occupant(),
            m matches Some(t) ==> Some(t@) == old(self)@.slot && t@.state is Held,
            m is None ==> old(self)@.slot is None,
            final(self).occupant() is None,
            final(self)@ == (RegistryView { slot: None }),
    {
        proof {
            use_type_invariant(&*self);
        }
        let mut taken: Option<DLManagedTensor<F>> = None;
        std::mem::swap(&mut taken, &mut self.slot);
        taken
    }
}

} // verus!
