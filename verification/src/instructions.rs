//! The two transitions of the protocol, each as the list of steps that the host is to carry
//! out in order. A step that fails ends the transition, and the host undoes those before it.

pub mod exchange;
pub mod initialize;

use crate::derivation::seeds_view;
use crate::error::{EscrowError, Failure, FailureKind};
use crate::instruction::{Instruction, InstructionView, Request};
use crate::programs::token_program_id;
use vstd::prelude::*;

verus! {

/// A request to another module, ready to be sent.
#[derive(Debug, PartialEq, Eq)]
pub struct Invocation {
    /// What is asked.
    pub request: Request,
    /// The instruction that carries the request.
    pub instruction: Instruction,
    /// The positions, in the transition's account list, of the accounts handed to the module.
    pub accounts: Vec<usize>,
    /// The seeds of the custody address for which the protocol signs, if it signs.
    pub signer_seeds: Option<Vec<Vec<u8>>>,
}

/// One step of a transition.
#[derive(Debug, PartialEq, Eq)]
pub enum Step {
    /// Send a request to another module.
    Invoke(Invocation),
    /// Write `bytes` to the start of the data of the account at position `account`.
    Store { account: usize, bytes: Vec<u8> },
    /// Destroy the account at position `account`: credit its whole balance to the account at
    /// `beneficiary`, as `close_balances` computes it, and leave it without balance or data.
    Close { account: usize, beneficiary: usize },
}

/// A step with its lists as sequences.
pub enum StepView {
    Invoke {
        request: Request,
        instruction: InstructionView,
        accounts: Seq<usize>,
        signer_seeds: Option<Seq<Seq<u8>>>,
    },
    Store { account: usize, bytes: Seq<u8> },
    Close { account: usize, beneficiary: usize },
}

/// The view of seeds that may be absent.
pub open spec fn signer_view(signer_seeds: Option<Vec<Vec<u8>>>) -> Option<Seq<Seq<u8>>> {
    match signer_seeds {
        Some(seeds) => Some(seeds_view(seeds@)),
        None => None,
    }
}

impl View for Step {
    type V = StepView;

    open spec fn view(&self) -> StepView {
        match *self {
            Step::Invoke(invocation) => StepView::Invoke {
                request: invocation.request,
                instruction: invocation.instruction@,
                accounts: invocation.accounts@,
                signer_seeds: signer_view(invocation.signer_seeds),
            },
            Step::Store { account, bytes } => StepView::Store { account, bytes: bytes@ },
            Step::Close { account, beneficiary } => StepView::Close { account, beneficiary },
        }
    }
}

/// The views of a list of steps.
pub open spec fn steps_view(steps: Seq<Step>) -> Seq<StepView> {
    steps.map_values(|s: Step| s@)
}

/// The outcome of a transition with its lists as sequences, and its failure without what it
/// carries from outside.
pub open spec fn outcome_view(outcome: Result<Vec<Step>, Failure>) -> Result<
    Seq<StepView>,
    FailureKind,
> {
    match outcome {
        Ok(steps) => Ok(steps_view(steps@)),
        Err(f) => Err(f@),
    }
}

/// The step that sends `request`, with the instruction that is built for it.
pub open spec fn invoked(
    request: Request,
    accounts: Seq<usize>,
    signer_seeds: Option<Seq<Seq<u8>>>,
) -> StepView {
    StepView::Invoke { request, instruction: request.built()->Ok_0, accounts, signer_seeds }
}

/// Makes the step that sends `request`: builds its instruction and notes which accounts go
/// with it and for which custody address the protocol signs.
pub fn invoke(request: Request, accounts: Vec<usize>, signer_seeds: Option<Vec<Vec<u8>>>) -> (r:
    Result<Step, Failure>)
    ensures
        request.built() is Ok ==> (r matches Ok(step) && step@ == invoked(
            request,
            accounts@,
            signer_view(signer_seeds),
        )),
        request.built() matches Err(kind) ==> r matches Err(f) && f@ == kind,
        request.for_token_program() ==> (r is Ok <==> request.addressed_to(token_program_id())),
{
    match request.instruction() {
        Ok(instruction) => Ok(
            Step::Invoke(Invocation { request, instruction, accounts, signer_seeds }),
        ),
        Err(f) => Err(f),
    }
}

/// The balances after an account is destroyed in favour of another: the beneficiary holds the
/// sum and the account nothing. Refused where the sum does not fit in 64 bits.
pub fn close_balances(beneficiary: u64, account: u64) -> (r: Result<(u64, u64), EscrowError>)
    ensures
        beneficiary + account <= u64::MAX ==> r == Ok::<(u64, u64), EscrowError>(
            ((beneficiary + account) as u64, 0u64),
        ),
        beneficiary + account > u64::MAX ==> r == Err::<(u64, u64), EscrowError>(
            EscrowError::AdditionOverflow,
        ),
{
    match beneficiary.checked_add(account) {
        Some(sum) => Ok((sum, 0)),
        None => Err(EscrowError::AdditionOverflow),
    }
}

} // verus!
