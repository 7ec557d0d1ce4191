//! Carrying out an operation: the ordered steps that it consists of, and the
//! state of a run of them.
//!
//! The caller performs the steps (bus writes, enable line, delays) one at a
//! time and reports how each went; the session decides what comes next and
//! what the operation returns.

use vstd::prelude::*;

use crate::address::Address;
use crate::error::Error;

verus! {

/// One step of an operation.
#[derive(Debug, PartialEq, Eq)]
pub enum Step {
    /// Hand the frame (register address, then data) to the transport, for
    /// the chip at the address.
    Write(Address, Vec<u8>),
    /// Drive the enable line low.
    EnableLow,
    /// Drive the enable line high.
    EnableHigh,
    /// Wait for the given number of milliseconds.
    DelayMs(u32),
}

/// A step with its frame as a sequence of bytes.
pub ghost enum StepView {
    Write(Address, Seq<u8>),
    EnableLow,
    EnableHigh,
    DelayMs(u32),
}

impl View for Step {
    type V = StepView;

    open spec fn view(&self) -> StepView {
        match self {
            Step::Write(a, f) => StepView::Write(*a, f@),
            Step::EnableLow => StepView::EnableLow,
            Step::EnableHigh => StepView::EnableHigh,
            Step::DelayMs(ms) => StepView::DelayMs(*ms),
        }
    }
}

/// The steps of a plan, each as its view.
pub open spec fn plan_view(steps: Seq<Step>) -> Seq<StepView> {
    steps.map_values(|s: Step| s@)
}

/// The error that a failed step makes the operation return; a delay has no
/// failure mode.
pub open spec fn fault_of(step: StepView) -> Option<Error> {
    match step {
        StepView::Write(_, _) => Some(Error::CommError),
        StepView::EnableLow => Some(Error::EnableLine),
        StepView::EnableHigh => Some(Error::EnableLine),
        StepView::DelayMs(_) => None,
    }
}

/// The state of a run of a plan.
pub ghost struct SessionView {
    /// The steps, in order.
    pub plan: Seq<StepView>,
    /// Whether a transport (blocking bus or callback) is there to take writes.
    pub transport: bool,
    /// How many steps have been performed successfully.
    pub next: nat,
    /// The error that ended the run, if one did.
    pub failure: Option<Error>,
}

impl SessionView {
    /// No more steps will be handed out.
    pub open spec fn finished(self) -> bool {
        self.failure is Some || self.next >= self.plan.len()
    }

    /// What the operation returns once the run is finished.
    pub open spec fn result(self) -> Result<(), Error> {
        match self.failure {
            Some(e) => Err(e),
            None => Ok(()),
        }
    }
}

/// The state of a run that has performed the first `next` steps of `plan`
/// successfully. A write that comes up with no transport to take it ends the
/// run there, before anything is handed out.
pub open spec fn settled(plan: Seq<StepView>, transport: bool, next: nat) -> SessionView {
    SessionView {
        plan,
        transport,
        next,
        failure: if next < plan.len() && plan[next as int] is Write && !transport {
            Some(Error::NoInterfaceDefined)
        } else {
            None
        },
    }
}

/// A run of a plan, one step at a time.
pub struct Session {
    steps: Vec<Step>,
    transport: bool,
    next: usize,
    failure: Option<Error>,
}

impl Session {
    pub closed spec fn view(&self) -> SessionView {
        SessionView {
            plan: plan_view(self.steps@),
            transport: self.transport,
            next: self.next as nat,
            failure: self.failure,
        }
    }

    #[verifier::type_invariant]
    closed spec fn inv(&self) -> bool {
        &&& self.next <= self.steps.len()
        &&& self@ == settled(self@.plan, self.transport, self.next as nat) || (
        self.failure is Some && self.next < self.steps.len())
    }

    /// Settles the failure field for the step at `next`.
    fn blocked_at(steps: &Vec<Step>, transport: bool, next: usize) -> (r: Option<Error>)
        requires
            next <= steps.len(),
        ensures
            r == settled(plan_view(steps@), transport, next as nat).failure,
    {
        if next < steps.len() && !transport {
            match &steps[next] {
                Step::Write(_, _) => Some(Error::NoInterfaceDefined),
                _ => None,
            }
        } else {
            None
        }
    }

    /// Starts a run of `steps`; `transport` says whether a blocking bus or a
    /// transfer callback will take the writes.
    pub fn new(steps: Vec<Step>, transport: bool) -> (r: Session)
        ensures
            r@ == settled(plan_view(steps@), transport, 0),
    {
        let failure = Session::blocked_at(&steps, transport, 0);
        Session { steps, transport, next: 0, failure }
    }

    /// The step to perform next, or `None` once the run is finished.
    pub fn current(&self) -> (r: Option<&Step>)
        ensures
            r is None <==> self@.finished(),
            r matches Some(s) ==> s@ == self@.plan[self@.next as int],
    {
        proof {
            use_type_invariant(self);
        }
        if self.failure.is_some() || self.next >= self.steps.len() {
            None
        } else {
            Some(&self.steps[self.next])
        }
    }

    /// Records how the current step went: `completed` is false where the bus
    /// write or the enable line failed.
    pub fn advance(&mut self, completed: bool)
        requires
            !old(self)@.finished(),
        ensures
            ({
                let s = old(self)@;
                let step = s.plan[s.next as int];
                if completed || fault_of(step) is None {
                    final(self)@ == settled(s.plan, s.transport, s.next + 1)
                } else {
                    final(self)@ == SessionView { failure: fault_of(step), ..s }
                }
            }),
    {
        proof {
            use_type_invariant(&*self);
        }
        let fault = match &self.steps[self.next] {
            Step::Write(_, _) => Some(Error::CommError),
            Step::EnableLow => Some(Error::EnableLine),
            Step::EnableHigh => Some(Error::EnableLine),
            Step::DelayMs(_) => None,
        };
        if completed || fault.is_none() {
            let next = self.next + 1;
            self.failure = Session::blocked_at(&self.steps, self.transport, next);
            self.next = next;
        } else {
            self.failure = fault;
        }
    }

    /// What the operation returns; `Ok` once every step has been performed.
    pub fn result(&self) -> (r: Result<(), Error>)
        requires
            self@.finished(),
        ensures
            r == self@.result(),
    {
        match self.failure {
            Some(e) => Err(e),
            None => Ok(()),
        }
    }
}

} // verus!
