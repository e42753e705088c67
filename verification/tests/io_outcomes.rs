use std::io::{Error, ErrorKind};

use spinrt::net::{
    connect_probe_outcome, nonblocking_outcome, should_retry, still_connecting, IoErrorKind,
    IN_PROGRESS_OS_ERROR,
};
use spinrt::Poll;

#[test]
fn retry_on_would_block_or_in_progress_code() {
    assert!(should_retry(IoErrorKind::WouldBlock, None));
    assert!(should_retry(IoErrorKind::Other, Some(IN_PROGRESS_OS_ERROR)));
    assert!(should_retry(IoErrorKind::WouldBlock, Some(1)));
    assert!(!should_retry(IoErrorKind::Other, Some(35)));
    assert!(!should_retry(IoErrorKind::NotConnected, None));
}

#[test]
fn only_not_connected_means_still_connecting() {
    assert!(still_connecting(IoErrorKind::NotConnected));
    assert!(!still_connecting(IoErrorKind::WouldBlock));
    assert!(!still_connecting(IoErrorKind::Other));
}

#[test]
fn success_is_handed_back() {
    assert!(matches!(nonblocking_outcome(Ok::<usize, Error>(12)), Poll::Ready(Ok(12))));
}

#[test]
fn would_block_stays_pending() {
    let err = Error::from(ErrorKind::WouldBlock);
    assert!(matches!(nonblocking_outcome::<usize>(Err(err)), Poll::Pending));
}

#[test]
fn in_progress_os_code_stays_pending() {
    let err = Error::from_raw_os_error(IN_PROGRESS_OS_ERROR);
    assert!(matches!(nonblocking_outcome::<()>(Err(err)), Poll::Pending));
}

#[test]
fn other_errors_are_handed_back() {
    let err = Error::new(ErrorKind::PermissionDenied, "no");
    match nonblocking_outcome::<()>(Err(err)) {
        Poll::Ready(Err(e)) => assert_eq!(e.kind(), ErrorKind::PermissionDenied),
        _ => panic!("expected the error back"),
    }
}

#[test]
fn probe_success_means_connected() {
    assert!(matches!(connect_probe_outcome(Ok::<usize, Error>(0)), Poll::Ready(Ok(()))));
}

#[test]
fn probe_not_connected_stays_pending() {
    let err = Error::from(ErrorKind::NotConnected);
    assert!(matches!(connect_probe_outcome::<usize>(Err(err)), Poll::Pending));
}

#[test]
fn probe_other_error_fails_the_connection() {
    let err = Error::from(ErrorKind::ConnectionRefused);
    match connect_probe_outcome::<usize>(Err(err)) {
        Poll::Ready(Err(e)) => assert_eq!(e.kind(), ErrorKind::ConnectionRefused),
        _ => panic!("expected the error back"),
    }
}
