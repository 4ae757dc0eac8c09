//! Block directions reported by the engine and the readiness each one waits for.
use vstd::prelude::*;

verus! {

#[verifier::external_type_specification]
#[verifier::external_body]
pub struct ExSession(ssh2::Session);

/// The I/O direction the engine's last operation is blocked on.
#[derive(Clone, Copy, Debug, PartialEq, Eq, Structural)]
pub enum BlockDirection {
    /// Not blocked in any direction.
    Neither,
    /// Blocked until the socket can be read.
    Inbound,
    /// Blocked until the socket can be written.
    Outbound,
    /// Blocked on both directions; either one makes progress possible.
    Both,
}

/// What a suspended retry loop waits for on the readiness source.
#[derive(Clone, Copy, Debug, PartialEq, Eq, Structural)]
pub enum Wait {
    Readable,
    Writable,
    /// The first of readable and writable.
    Either,
}

/// A readiness event reported by the readiness source.
#[derive(Clone, Copy, Debug, PartialEq, Eq, Structural)]
pub enum Readiness {
    Readable,
    Writable,
}

/// The readiness that lets an engine blocked in direction `d` make progress;
/// `None` when the engine names no direction.
pub open spec fn wait_for(d: BlockDirection) -> Option<Wait> {
    match d {
        BlockDirection::Neither => Option::None,
        BlockDirection::Inbound => Option::Some(Wait::Readable),
        BlockDirection::Outbound => Option::Some(Wait::Writable),
        BlockDirection::Both => Option::Some(Wait::Either),
    }
}

/// Whether event `ev` ends a wait for `w`.
pub open spec fn satisfies(w: Wait, ev: Readiness) -> bool {
    match w {
        Wait::Readable => ev == Readiness::Readable,
        Wait::Writable => ev == Readiness::Writable,
        Wait::Either => true,
    }
}

impl BlockDirection {
    /// The readiness to wait for before the engine is called again.
    pub fn wait(&self) -> (r: Option<Wait>)
        ensures
            r == wait_for(*self),
    {
        match self {
            BlockDirection::Neither => None,
            BlockDirection::Inbound => Some(Wait::Readable),
            BlockDirection::Outbound => Some(Wait::Writable),
            BlockDirection::Both => Some(Wait::Either),
        }
    }
}

impl Wait {
    /// Whether `ev` ends this wait.
    pub fn is_satisfied_by(&self, ev: Readiness) -> (r: bool)
        ensures
            r == satisfies(*self, ev),
    {
        match self {
            Wait::Readable => matches!(ev, Readiness::Readable),
            Wait::Writable => matches!(ev, Readiness::Writable),
            Wait::Either => true,
        }
    }
}

/// Relies on ssh2::Session::block_directions, which reads the direction the
/// session's last operation is blocked on from libssh2. The answer depends on
/// the engine's state, so nothing is promised of it.
#[verifier::external_body]
pub(crate) fn block_direction(session: &ssh2::Session) -> (r: BlockDirection) {
    match session.block_directions() {
        ssh2::BlockDirections::None => BlockDirection::Neither,
        ssh2::BlockDirections::Inbound => BlockDirection::Inbound,
        ssh2::BlockDirections::Outbound => BlockDirection::Outbound,
        ssh2::BlockDirections::Both => BlockDirection::Both,
    }
}

} // verus!
