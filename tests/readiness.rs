use uring_selector::event::{is_aio, is_error, is_hup, is_lio, is_priority, is_read_hup, is_readable, is_writable, token};
use uring_selector::{interests_to_poll, Event, Interests, Token};

#[test]
fn mask_for_readable_only() {
    assert_eq!(interests_to_poll(Interests::new(true, false)), 0x1);
}

#[test]
fn mask_for_writable_only() {
    assert_eq!(interests_to_poll(Interests::new(false, true)), 0x4);
}

#[test]
fn mask_for_both() {
    assert_eq!(interests_to_poll(Interests::new(true, true)), 0x5);
}

#[test]
fn mask_for_none() {
    assert_eq!(interests_to_poll(Interests::new(false, false)), 0);
}

#[test]
fn readable_bit_alone_is_only_readable() {
    let ev = Event::new(0x1, 3);
    assert!(is_readable(&ev));
    assert!(!is_writable(&ev));
    assert!(!is_error(&ev));
    assert!(!is_hup(&ev));
    assert!(!is_read_hup(&ev));
    assert!(!is_priority(&ev));
}

#[test]
fn priority_bit_counts_as_readable() {
    let ev = Event::new(0x2, 3);
    assert!(is_readable(&ev));
    assert!(is_priority(&ev));
    assert!(!is_writable(&ev));
}

#[test]
fn writable_bit() {
    let ev = Event::new(0x4, 3);
    assert!(is_writable(&ev));
    assert!(!is_readable(&ev));
}

#[test]
fn error_bit() {
    let ev = Event::new(0x8, 3);
    assert!(is_error(&ev));
    assert!(!is_hup(&ev));
    assert!(!is_readable(&ev));
}

#[test]
fn hangup_bit() {
    let ev = Event::new(0x10, 3);
    assert!(is_hup(&ev));
    assert!(!is_error(&ev));
}

#[test]
fn read_hangup_bit() {
    let ev = Event::new(0x2000, 3);
    assert!(is_read_hup(&ev));
    assert!(!is_hup(&ev));
    assert!(!is_readable(&ev));
}

#[test]
fn empty_mask_answers_no_to_everything() {
    let ev = Event::new(0, 3);
    assert!(!is_readable(&ev));
    assert!(!is_writable(&ev));
    assert!(!is_error(&ev));
    assert!(!is_hup(&ev));
    assert!(!is_read_hup(&ev));
    assert!(!is_priority(&ev));
}

#[test]
fn aio_and_lio_are_never_reported() {
    let ev = Event::new(-1, 3);
    assert!(!is_aio(&ev));
    assert!(!is_lio(&ev));
    assert!(is_readable(&ev));
    assert!(is_writable(&ev));
}

#[test]
fn token_is_echoed_unchanged() {
    assert_eq!(token(&Event::new(0x1, 42)), Token(42));
    assert_eq!(token(&Event::new(0x1, 0)), Token(0));
}
