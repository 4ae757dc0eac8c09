//! The two flavours of the retry adapter over the ssh2 engine: one for
//! request/response calls that report `ssh2::Error`, one for byte-stream
//! calls that report `std::io::Error`.
use crate::direction::{block_direction, BlockDirection};
use crate::error::{code_of, error_code, io_would_block, would_block_code, AsyncError, ErrorCode};
use crate::retry::{next, Attempt, Phase, RetryLoop, Step};
use vstd::prelude::*;

verus! {

/// The outcome that the result of one engine call stands for: `blocked` is
/// the direction queried after an error that reports "would block", and
/// `None` for any other result.
pub open spec fn classified<R, E>(res: Result<R, E>, blocked: Option<BlockDirection>) -> Attempt<R, E> {
    match res {
        Ok(v) => Attempt::Done(v),
        Err(e) => match blocked {
            Option::Some(d) => Attempt::Blocked(d),
            Option::None => Attempt::Failed(e),
        },
    }
}

/// Whether an engine error reports that the call would block.
pub open spec fn blocked_error(e: ssh2::Error) -> bool {
    code_of(e) == ErrorCode::Session(would_block_code())
}

/// The result of an engine call with its error taken into the library's
/// error type.
pub open spec fn lifted<R>(res: Result<R, ssh2::Error>) -> Result<R, AsyncError> {
    match res {
        Ok(v) => Ok(v),
        Err(e) => Err(AsyncError::SSH2(e)),
    }
}

/// The outcome of one engine call, given the direction queried after an
/// error that reports "would block" (`None` for any other result).
pub fn classify<R, E>(res: Result<R, E>, blocked: Option<BlockDirection>) -> (a: Attempt<R, E>)
    ensures
        a == classified(res, blocked),
{
    match res {
        Ok(v) => Attempt::Done(v),
        Err(e) => match blocked {
            Some(d) => Attempt::Blocked(d),
            None => Attempt::Failed(e),
        },
    }
}

impl RetryLoop {
    /// Takes the result of one request/response call of the engine. An error
    /// that reports "would block" becomes a wait in the direction the session
    /// is blocked on; any other error resolves the call unchanged.
    pub fn on_ssh2_result<R>(&mut self, session: &ssh2::Session, res: Result<R, ssh2::Error>) -> (st: Step<
        R,
        AsyncError,
    >)
        requires
            old(self).phase == Phase::Calling,
        ensures
            exists|blocked: Option<BlockDirection>|
                (res is Ok ==> blocked is None) && (*final(self), st) == next(
                    *old(self),
                    #[trigger] classified(lifted(res), blocked),
                ),
            res matches Err(e) ==> (blocked_error(e) <==> !(st is Finish)),
            res matches Err(e) ==> (!blocked_error(e) ==> st == Step::<R, AsyncError>::Finish(
                Err(AsyncError::SSH2(e)),
            )),
    {
        let blocked = match &res {
            Ok(_) => None,
            Err(e) => if error_code(e).is_would_block() {
                Some(block_direction(session))
            } else {
                None
            },
        };
        let lifted_res = match res {
            Ok(v) => Ok(v),
            Err(e) => Err(AsyncError::SSH2(e)),
        };
        let a = classify(lifted_res, blocked);
        self.advance(a)
    }

    /// Takes the result of one byte-stream call of the engine. An error of
    /// kind `WouldBlock` becomes a wait in the direction the session is
    /// blocked on; any other error resolves the call unchanged.
    pub fn on_io_result<T>(&mut self, session: &ssh2::Session, res: Result<T, std::io::Error>) -> (st:
        Step<T, std::io::Error>)
        requires
            old(self).phase == Phase::Calling,
        ensures
            exists|blocked: Option<BlockDirection>|
                (res is Ok ==> blocked is None) && (*final(self), st) == next(
                    *old(self),
                    #[trigger] classified(res, blocked),
                ),
    {
        let blocked = match &res {
            Ok(_) => None,
            Err(e) => if io_would_block(e) {
                Some(block_direction(session))
            } else {
                None
            },
        };
        let a = classify(res, blocked);
        self.advance(a)
    }
}

} // verus!
