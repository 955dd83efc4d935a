//! The onboarding state machine.
//!
//! Onboarding goes `Disconnected` → (`request_connection`) →
//! `RequestingApproval` → (`wait_for_approval`) → `Approved` →
//! (`register`) → `Finalized`; or, from `Disconnected`, `connected` with a
//! known app key ends in `Finalized` when the key is recognized and leaves
//! the builder `Disconnected` when it is not.
//!
//! Each step takes the state out of the builder, lets the caller run the
//! network step on the handle it held, and puts back the state that the
//! step's outcome leads to. A step asked for in the wrong state, or one
//! whose network part fails, leaves the builder with no state: every later
//! step is refused. The handles of each state are type parameters, so the
//! machine is the same whatever carries out the network steps.
use vstd::prelude::*;

use crate::error::Error;
use crate::types::AppMetadata;

verus! {

/// The phase a builder is in.
#[derive(PartialEq, Eq, Structural, Clone, Copy)]
pub enum Phase {
    Disconnected,
    RequestingApproval,
    Approved,
    Finalized,
}

/// The state of a builder, with the handle that the next step works on.
pub enum BuilderState<D, R, A> {
    Disconnected(D),
    RequestingApproval(R),
    Approved(A),
    Finalized,
}

/// The phase of a state.
pub open spec fn phase_of<D, R, A>(s: BuilderState<D, R, A>) -> Phase {
    match s {
        BuilderState::Disconnected(_) => Phase::Disconnected,
        BuilderState::RequestingApproval(_) => Phase::RequestingApproval,
        BuilderState::Approved(_) => Phase::Approved,
        BuilderState::Finalized => Phase::Finalized,
    }
}

/// Builder onboards an application to a Sia indexer.
///
/// Two flows are supported:
///
/// 1. **Reconnect**: `connected` with an existing app key. If the key is
///    registered the SDK is returned; otherwise `None`.
/// 2. **Approve & register**: `request_connection`, read the response URL
///    to display the approval URL, then `wait_for_approval`, then
///    `register` with the user's BIP-39 mnemonic.
///
/// Each successful state transition consumes the builder's state;
/// subsequent calls from a wrong state error out.
pub struct Builder<D, R, A> {
    state: Option<BuilderState<D, R, A>>,
}

impl<D, R, A> Builder<D, R, A> {
    /// The builder's phase; `None` once a step was refused or failed.
    pub closed spec fn phase(&self) -> Option<Phase> {
        match self.state {
            Some(s) => Some(phase_of(s)),
            None => None,
        }
    }

    /// The handle of a builder in `Disconnected`.
    pub closed spec fn disconnected_handle(&self) -> D
        recommends
            self.phase() == Some(Phase::Disconnected),
    {
        match self.state {
            Some(BuilderState::Disconnected(d)) => d,
            _ => arbitrary(),
        }
    }

    /// The handle of a builder in `Approved`.
    pub closed spec fn approved_handle(&self) -> A
        recommends
            self.phase() == Some(Phase::Approved),
    {
        match self.state {
            Some(BuilderState::Approved(a)) => a,
            _ => arbitrary(),
        }
    }

    /// The handle of a builder in `RequestingApproval`.
    pub closed spec fn requesting_handle(&self) -> R
        recommends
            self.phase() == Some(Phase::RequestingApproval),
    {
        match self.state {
            Some(BuilderState::RequestingApproval(r)) => r,
            _ => arbitrary(),
        }
    }

    /// A builder in `Disconnected` with the handle `disconnected`.
    pub fn new(disconnected: D) -> (b: Self)
        ensures
            b.phase() == Some(Phase::Disconnected),
            b.disconnected_handle() == disconnected,
    {
        Builder { state: Some(BuilderState::Disconnected(disconnected)) }
    }

    /// Takes the state out for a step that needs the phase `needed`. The
    /// builder is left without a state, whether the step may run or not.
    fn take_for(&mut self, needed: Phase) -> (r: Result<BuilderState<D, R, A>, Error>)
        ensures
            final(self).phase() is None,
            r is Ok <==> old(self).phase() == Some(needed),
            r matches Ok(s) ==> phase_of(s) == needed && old(self).state == Some(s),
            r matches Err(e) ==> e == Error::BuilderInvalidState,
    {
        let state = self.state.take();
        match state {
            Some(s) => {
                let ok = match &s {
                    BuilderState::Disconnected(_) => needed == Phase::Disconnected,
                    BuilderState::RequestingApproval(_) => needed == Phase::RequestingApproval,
                    BuilderState::Approved(_) => needed == Phase::Approved,
                    BuilderState::Finalized => needed == Phase::Finalized,
                };
                if ok {
                    Ok(s)
                } else {
                    Err(Error::BuilderInvalidState)
                }
            },
            None => Err(Error::BuilderInvalidState),
        }
    }

    /// Starts `connected` (or `request_connection`): hands out the
    /// `Disconnected` handle. Refused in any other phase.
    pub fn begin_disconnected(&mut self) -> (r: Result<D, Error>)
        ensures
            final(self).phase() is None,
            r is Ok <==> old(self).phase() == Some(Phase::Disconnected),
            r matches Ok(h) ==> h == old(self).disconnected_handle(),
            r matches Err(e) ==> e == Error::BuilderInvalidState,
    {
        match self.take_for(Phase::Disconnected) {
            Ok(BuilderState::Disconnected(d)) => Ok(d),
            Ok(_) => Err(Error::BuilderInvalidState),
            Err(e) => Err(e),
        }
    }

    /// Starts `wait_for_approval`: hands out the `RequestingApproval`
    /// handle. Refused in any other phase.
    pub fn begin_requesting_approval(&mut self) -> (r: Result<R, Error>)
        ensures
            final(self).phase() is None,
            r is Ok <==> old(self).phase() == Some(Phase::RequestingApproval),
            r matches Ok(h) ==> h == old(self).requesting_handle(),
            r matches Err(e) ==> e == Error::BuilderInvalidState,
    {
        match self.take_for(Phase::RequestingApproval) {
            Ok(BuilderState::RequestingApproval(h)) => Ok(h),
            Ok(_) => Err(Error::BuilderInvalidState),
            Err(e) => Err(e),
        }
    }

    /// Starts `register`: hands out the `Approved` handle. Refused in any
    /// other phase.
    pub fn begin_approved(&mut self) -> (r: Result<A, Error>)
        ensures
            final(self).phase() is None,
            r is Ok <==> old(self).phase() == Some(Phase::Approved),
            r matches Ok(h) ==> h == old(self).approved_handle(),
            r matches Err(e) ==> e == Error::BuilderInvalidState,
    {
        match self.take_for(Phase::Approved) {
            Ok(BuilderState::Approved(h)) => Ok(h),
            Ok(_) => Err(Error::BuilderInvalidState),
            Err(e) => Err(e),
        }
    }

    /// Ends `connected`: a recognized key (`Ok(Some(sdk))`) finalizes the
    /// builder, an unknown key (`Ok(None)`) puts the `Disconnected` handle
    /// back, a failure leaves the builder without a state. The outcome is
    /// handed back unchanged.
    pub fn finish_connected<S, E>(&mut self, disconnected: D, outcome: Result<Option<S>, E>) -> (r:
        Result<Option<S>, E>)
        requires
            old(self).phase() is None,
        ensures
            r == outcome,
            final(self).phase() == (match outcome {
                Ok(Some(_)) => Some(Phase::Finalized),
                Ok(None) => Some(Phase::Disconnected),
                Err(_) => None::<Phase>,
            }),
            outcome matches Ok(None) ==> final(self).disconnected_handle() == disconnected,
    {
        match outcome {
            Ok(Some(sdk)) => {
                self.state = Some(BuilderState::Finalized);
                Ok(Some(sdk))
            },
            Ok(None) => {
                self.state = Some(BuilderState::Disconnected(disconnected));
                Ok(None)
            },
            Err(e) => Err(e),
        }
    }

    /// Ends `request_connection`: on success the builder is
    /// `RequestingApproval` with the new handle; a failure leaves it
    /// without a state.
    pub fn finish_request_connection<E>(&mut self, outcome: Result<R, E>) -> (r: Result<(), E>)
        requires
            old(self).phase() is None,
        ensures
            r is Ok <==> outcome is Ok,
            outcome matches Err(e) ==> r == Err::<(), E>(e),
            final(self).phase() == (if outcome is Ok {
                Some(Phase::RequestingApproval)
            } else {
                None::<Phase>
            }),
            outcome matches Ok(h) ==> final(self).requesting_handle() == h,
    {
        match outcome {
            Ok(next) => {
                self.state = Some(BuilderState::RequestingApproval(next));
                Ok(())
            },
            Err(e) => Err(e),
        }
    }

    /// Ends `wait_for_approval`: on success the builder is `Approved` with
    /// the new handle; a failure leaves it without a state.
    pub fn finish_wait_for_approval<E>(&mut self, outcome: Result<A, E>) -> (r: Result<(), E>)
        requires
            old(self).phase() is None,
        ensures
            r is Ok <==> outcome is Ok,
            outcome matches Err(e) ==> r == Err::<(), E>(e),
            final(self).phase() == (if outcome is Ok {
                Some(Phase::Approved)
            } else {
                None::<Phase>
            }),
            outcome matches Ok(h) ==> final(self).approved_handle() == h,
    {
        match outcome {
            Ok(next) => {
                self.state = Some(BuilderState::Approved(next));
                Ok(())
            },
            Err(e) => Err(e),
        }
    }

    /// Ends `register`: on success the builder is `Finalized` and the SDK
    /// is handed back; a failure leaves it without a state.
    pub fn finish_register<S, E>(&mut self, outcome: Result<S, E>) -> (r: Result<S, E>)
        requires
            old(self).phase() is None,
        ensures
            r == outcome,
            final(self).phase() == (if outcome is Ok {
                Some(Phase::Finalized)
            } else {
                None::<Phase>
            }),
    {
        match outcome {
            Ok(sdk) => {
                self.state = Some(BuilderState::Finalized);
                Ok(sdk)
            },
            Err(e) => Err(e),
        }
    }

    /// The handle of a builder waiting for approval, from which the URL to
    /// show the user is read. The builder is unchanged.
    pub fn requesting_approval(&self) -> (r: Result<&R, Error>)
        ensures
            r is Ok <==> self.phase() == Some(Phase::RequestingApproval),
            r matches Ok(h) ==> *h == self.requesting_handle(),
            r matches Err(e) ==> e == Error::BuilderInvalidState,
    {
        match &self.state {
            Some(BuilderState::RequestingApproval(h)) => Ok(h),
            _ => Err(Error::BuilderInvalidState),
        }
    }
}

impl AppMetadata {
    /// The app ID as 32 bytes; any other length is refused.
    pub fn app_id(&self) -> (r: Result<[u8; 32], Error>)
        ensures
            r is Ok <==> self.id@.len() == 32,
            r matches Ok(id) ==> id@ == self.id@,
            r matches Err(e) ==> e == Error::InvalidAppId,
    {
        if self.id.len() != 32 {
            return Err(Error::InvalidAppId);
        }
        let mut id = [0u8; 32];
        let mut i: usize = 0;
        while i < 32
            invariant
                self.id@.len() == 32,
                0 <= i <= 32,
                forall|j: int| 0 <= j < i ==> id@[j] == self.id@[j],
            decreases 32 - i,
        {
            id[i] = self.id[i];
            i = i + 1;
        }
        assert(id@ =~= self.id@);
        Ok(id)
    }
}

} // verus!
