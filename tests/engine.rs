use async_ssh2::{classify, is_dot_entry, listing_step, ListingStep, would_block, AsyncError, Attempt, BlockDirection, ErrorCode, Phase, RetryLoop, Step};
use std::io;

fn session_error(code: i32) -> ssh2::Error {
    ssh2::Error::from_errno(ssh2::ErrorCode::Session(code))
}

#[test]
fn would_block_code_is_recognised() {
    assert!(ErrorCode::Session(-37).is_would_block());
    assert!(!ErrorCode::Session(-36).is_would_block());
    assert!(!ErrorCode::Session(-16).is_would_block());
    assert!(!ErrorCode::Sftp(-37).is_would_block());
}

#[test]
fn end_of_listing_code_is_recognised() {
    assert!(ErrorCode::Session(-16).is_end_of_listing());
    assert!(!ErrorCode::Session(-37).is_end_of_listing());
    assert!(!ErrorCode::Sftp(-16).is_end_of_listing());
}

#[test]
fn would_block_reads_the_error_code() {
    assert!(would_block(&session_error(-37)));
    assert!(!would_block(&session_error(-18)));
    assert!(!would_block(&ssh2::Error::from_errno(ssh2::ErrorCode::SFTP(-37))));
}

#[test]
fn listing_end_is_recognised() {
    assert!(AsyncError::SSH2(session_error(-16)).ends_listing());
    assert!(!AsyncError::SSH2(session_error(-37)).ends_listing());
    assert!(!AsyncError::Io(io::Error::new(io::ErrorKind::Other, "x")).ends_listing());
    assert!(!AsyncError::NoBlockDirection.ends_listing());
}

#[test]
fn errors_convert() {
    assert!(matches!(AsyncError::from(session_error(-18)), AsyncError::SSH2(_)));
    let e = AsyncError::from(io::Error::new(io::ErrorKind::BrokenPipe, "gone"));
    match e {
        AsyncError::Io(inner) => assert_eq!(inner.kind(), io::ErrorKind::BrokenPipe),
        _ => panic!("expected an I/O error"),
    }
}

#[test]
fn dot_entries() {
    assert!(is_dot_entry(b"."));
    assert!(is_dot_entry(b".."));
    assert!(!is_dot_entry(b"..."));
    assert!(!is_dot_entry(b".a"));
    assert!(!is_dot_entry(b"a."));
    assert!(!is_dot_entry(b""));
    assert!(!is_dot_entry(b"foo"));
}

#[test]
fn classify_results() {
    assert!(matches!(classify::<u8, u8>(Ok(1), None), Attempt::Done(1)));
    assert!(matches!(classify::<u8, u8>(Err(2), None), Attempt::Failed(2)));
    assert!(matches!(
        classify::<u8, u8>(Err(2), Some(BlockDirection::Outbound)),
        Attempt::Blocked(BlockDirection::Outbound)
    ));
}

#[test]
fn engine_result_success_and_failure() {
    let sess = ssh2::Session::new().unwrap();
    let mut state = RetryLoop::new();
    assert!(matches!(state.on_ssh2_result(&sess, Ok::<u32, ssh2::Error>(9)), Step::Finish(Ok(9))));
    assert_eq!(state.phase, Phase::Finished);

    let mut state = RetryLoop::new();
    match state.on_ssh2_result::<u32>(&sess, Err(session_error(-18))) {
        Step::Finish(Err(AsyncError::SSH2(e))) => {
            assert_eq!(e.code(), ssh2::ErrorCode::Session(-18))
        }
        _ => panic!("an engine error must resolve the call unchanged"),
    }
}

#[test]
fn engine_would_block_without_direction() {
    // A session that has done no I/O is blocked in no direction.
    let sess = ssh2::Session::new().unwrap();
    assert_eq!(sess.block_directions(), ssh2::BlockDirections::None);
    let mut state = RetryLoop::new();
    assert!(matches!(state.on_ssh2_result::<u32>(&sess, Err(session_error(-37))), Step::Retry));
    assert!(state.is_calling());
    assert!(matches!(state.on_ssh2_result::<u32>(&sess, Err(session_error(-37))), Step::Stuck));
    assert_eq!(state.phase, Phase::Finished);
}

#[test]
fn io_result_flavour() {
    let sess = ssh2::Session::new().unwrap();
    let mut state = RetryLoop::new();
    assert!(matches!(state.on_io_result(&sess, Ok::<usize, io::Error>(4)), Step::Finish(Ok(4))));

    let mut state = RetryLoop::new();
    match state.on_io_result::<usize>(&sess, Err(io::Error::new(io::ErrorKind::Other, "x"))) {
        Step::Finish(Err(e)) => assert_eq!(e.kind(), io::ErrorKind::Other),
        _ => panic!("an I/O error must resolve the call unchanged"),
    }

    let mut state = RetryLoop::new();
    let blocked = || Err(io::Error::new(io::ErrorKind::WouldBlock, "again"));
    assert!(matches!(state.on_io_result::<usize>(&sess, blocked()), Step::Retry));
    assert!(matches!(state.on_io_result::<usize>(&sess, blocked()), Step::Stuck));
}

#[test]
fn listing_steps() {
    assert_eq!(listing_step(Ok(b".")), ListingStep::Skip);
    assert_eq!(listing_step(Ok(b"..")), ListingStep::Skip);
    assert_eq!(listing_step(Ok(b"notes.txt")), ListingStep::Keep);
    assert_eq!(listing_step(Ok(b".hidden")), ListingStep::Keep);
    assert_eq!(listing_step(Err(&AsyncError::SSH2(session_error(-16)))), ListingStep::Stop);
    assert_eq!(listing_step(Err(&AsyncError::SSH2(session_error(-37)))), ListingStep::Fail);
    assert_eq!(
        listing_step(Err(&AsyncError::SSH2(ssh2::Error::from_errno(ssh2::ErrorCode::SFTP(-16))))),
        ListingStep::Fail
    );
    assert_eq!(listing_step(Err(&AsyncError::NoBlockDirection)), ListingStep::Fail);
}
