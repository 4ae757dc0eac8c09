//! Decisions of a directory listing over the SFTP subsystem.
use crate::error::{code_of, end_of_listing_code, AsyncError, ErrorCode};
use vstd::prelude::*;

verus! {

/// Whether `name` is one of the entries `.` and `..`, which a listing leaves out.
pub open spec fn dot_entry(name: Seq<u8>) -> bool {
    name == seq![0x2eu8] || name == seq![0x2eu8, 0x2eu8]
}

/// Whether a directory entry named by the bytes `name` is `.` or `..`.
pub fn is_dot_entry(name: &[u8]) -> (r: bool)
    ensures
        r == dot_entry(name@),
{
    let n = name.len();
    if n == 1 {
        let r = name[0] == 0x2e;
        assert(r ==> name@ =~= seq![0x2eu8]);
        r
    } else if n == 2 {
        let r = name[0] == 0x2e && name[1] == 0x2e;
        assert(r ==> name@ =~= seq![0x2eu8, 0x2eu8]);
        r
    } else {
        false
    }
}

/// What a directory listing does with one answer of the engine's reader.
#[derive(Clone, Copy, Debug, PartialEq, Eq, Structural)]
pub enum ListingStep {
    /// Leave the entry out and read the next one.
    Skip,
    /// Keep the entry and read the next one.
    Keep,
    /// No entry is left: the listing is complete.
    Stop,
    /// The listing fails with the error read.
    Fail,
}

/// Whether `e` is the engine's report that no directory entry is left.
pub open spec fn listing_end(e: AsyncError) -> bool {
    e matches AsyncError::SSH2(x) && code_of(x) == ErrorCode::Session(end_of_listing_code())
}

/// The step for an entry named by the bytes `name`.
pub open spec fn entry_step(name: Seq<u8>) -> ListingStep {
    if dot_entry(name) {
        ListingStep::Skip
    } else {
        ListingStep::Keep
    }
}

/// The step for an error of the reader.
pub open spec fn error_step(e: AsyncError) -> ListingStep {
    if listing_end(e) {
        ListingStep::Stop
    } else {
        ListingStep::Fail
    }
}

/// Decides what a listing does with one answer of the reader: the name of the
/// entry read, or the error.
pub fn listing_step(answer: Result<&[u8], &AsyncError>) -> (r: ListingStep)
    ensures
        answer matches Ok(name) ==> r == entry_step(name@),
        answer matches Err(e) ==> r == error_step(*e),
{
    match answer {
        Ok(name) => if is_dot_entry(name) {
            ListingStep::Skip
        } else {
            ListingStep::Keep
        },
        Err(e) => if e.ends_listing() {
            ListingStep::Stop
        } else {
            ListingStep::Fail
        },
    }
}

} // verus!
