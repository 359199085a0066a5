//! Calls to the token program, and how an instruction goes on after each reply.

use crate::address::PdaSigner;
use crate::errors::{CanasError, Failure};
use crate::keys::Pubkey;
use vstd::prelude::*;

verus! {

/// A call that an instruction makes to the token program.
///
/// `signer` is `None` where `authority` has signed the transaction itself, and
/// else holds the seeds with which the program signs for `authority`.
#[derive(Clone, Copy, Debug, PartialEq, Eq)]
pub enum TokenCall {
    /// Move `amount` tokens.
    Transfer {
        from: Pubkey,
        to: Pubkey,
        authority: Pubkey,
        signer: Option<PdaSigner>,
        amount: u64,
    },
    /// Close an empty token account; its rent goes to `destination`.
    CloseAccount {
        account: Pubkey,
        destination: Pubkey,
        authority: Pubkey,
        signer: Option<PdaSigner>,
    },
}

/// What the token program answered to a call.
#[derive(Clone, Copy, Debug, PartialEq, Eq, Structural)]
pub enum TokenReply {
    Completed,
    Refused,
}

/// How far an instruction has come.
#[derive(Clone, Copy, Debug, PartialEq, Eq)]
pub enum Step<E> {
    /// The token program has to be called next.
    Call(TokenCall),
    /// The instruction is finished.
    Done(E),
}

/// Where an instruction stands that begins in state `start` if `checks` allow it,
/// has to make `calls` in order, has received `replies` so far, and ends as `end`
/// says once every call is completed: its result, and the state it leaves.
///
/// One refusal fails the instruction, and a failure changes nothing.
pub open spec fn progress<A, E>(
    start: A,
    checks: Result<(), CanasError>,
    calls: Seq<TokenCall>,
    replies: Seq<TokenReply>,
    end: Result<(A, E), CanasError>,
) -> (Result<Step<E>, Failure>, A) {
    match checks {
        Err(error) => (Err(Failure::Program(error)), start),
        Ok(_) => if replies.contains(TokenReply::Refused) {
            (Err(Failure::TokenRefused), start)
        } else if replies.len() < calls.len() {
            (Ok(Step::Call(calls[replies.len() as int])), start)
        } else {
            match end {
                Err(error) => (Err(Failure::Program(error)), start),
                Ok((state, outcome)) => (Ok(Step::Done(outcome)), state),
            }
        },
    }
}

/// What a call takes out of the token account at `key`, less what it brings in.
pub open spec fn drawn(call: TokenCall, key: Pubkey) -> int {
    match call {
        TokenCall::Transfer { from, to, amount, .. } => (if from == key {
            amount as int
        } else {
            0
        }) - (if to == key {
            amount as int
        } else {
            0
        }),
        TokenCall::CloseAccount { .. } => 0,
    }
}

/// What `calls` take out of the token account at `key`, less what they bring in.
pub open spec fn outflow(calls: Seq<TokenCall>, key: Pubkey) -> int
    decreases calls.len(),
{
    if calls.len() == 0 {
        0
    } else {
        outflow(calls.drop_last(), key) + drawn(calls.last(), key)
    }
}

/// A failure changes nothing: where an instruction fails, it leaves the accounts
/// as it found them, and so it does while it waits for the token program.
pub proof fn only_success_changes_state<A, E>(
    start: A,
    checks: Result<(), CanasError>,
    calls: Seq<TokenCall>,
    replies: Seq<TokenReply>,
    end: Result<(A, E), CanasError>,
)
    ensures
        progress(start, checks, calls, replies, end).1 != start ==> {
            &&& checks is Ok
            &&& !replies.contains(TokenReply::Refused)
            &&& replies.len() >= calls.len()
            &&& end matches Ok((state, outcome)) && progress(start, checks, calls, replies, end)
                == (Ok::<Step<E>, Failure>(Step::Done(outcome)), state)
        },
{
}

/// An instruction that may begin makes its calls in order, one after each reply,
/// and no other call, and ends after the last one is completed.
pub proof fn calls_are_made_in_order<A, E>(
    start: A,
    calls: Seq<TokenCall>,
    replies: Seq<TokenReply>,
    end: Result<(A, E), CanasError>,
)
    requires
        forall|i: int| 0 <= i < replies.len() ==> replies[i] == TokenReply::Completed,
    ensures
        replies.len() < calls.len() ==> progress(start, Ok(()), calls, replies, end) == (
            Ok::<Step<E>, Failure>(Step::Call(calls[replies.len() as int])),
            start,
        ),
        replies.len() >= calls.len() ==> progress(start, Ok(()), calls, replies, end) == (
            match end {
                Ok((state, outcome)) => (Ok::<Step<E>, Failure>(Step::Done(outcome)), state),
                Err(error) => (Err::<Step<E>, Failure>(Failure::Program(error)), start),
            }
        ),
{
}

/// No call goes to the token program before the instruction's own checks have
/// passed, nor after a refusal.
pub proof fn calls_need_passed_checks<A, E>(
    start: A,
    checks: Result<(), CanasError>,
    calls: Seq<TokenCall>,
    replies: Seq<TokenReply>,
    end: Result<(A, E), CanasError>,
)
    requires
        progress(start, checks, calls, replies, end).0 matches Ok(Step::Call(_)),
    ensures
        checks is Ok,
        !replies.contains(TokenReply::Refused),
{
}

/// The call to make after `replies`, or `None` once every call is completed.
pub fn next_call(calls: &Vec<TokenCall>, replies: &Vec<TokenReply>) -> (r: Result<
    Option<TokenCall>,
    Failure,
>)
    ensures
        r == (if replies@.contains(TokenReply::Refused) {
            Err(Failure::TokenRefused)
        } else if replies@.len() < calls@.len() {
            Ok(Some(calls@[replies@.len() as int]))
        } else {
            Ok(None)
        }),
{
    let mut i: usize = 0;
    while i < replies.len()
        invariant
            i <= replies@.len(),
            forall|j: int| 0 <= j < i ==> replies@[j] != TokenReply::Refused,
        decreases replies@.len() - i,
    {
        if replies[i] == TokenReply::Refused {
            assert(replies@[i as int] == TokenReply::Refused);
            return Err(Failure::TokenRefused);
        }
        i += 1;
    }
    if replies.len() < calls.len() {
        Ok(Some(calls[replies.len()]))
    } else {
        Ok(None)
    }
}

} // verus!
