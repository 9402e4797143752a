//! Single-threaded checks of both guard variants: the blocked mask, the
//! exactly-once handler call, the reported signal codes, and the error
//! paths of the handshake slot.

use graceful::SignalGuard;
use graceful::console;
use graceful::signals::TermSignal;
use nix::sys::signal::{raise, SigSet, Signal};

fn new_guard() -> SignalGuard {
    match SignalGuard::new() {
        Ok(g) => g,
        Err(_) => panic!("constructing the guard failed"),
    }
}

#[test]
fn qualifying_codes_match_platform() {
    assert_eq!(TermSignal::Interrupt.code_i32(), Signal::SIGINT as i32);
    assert_eq!(TermSignal::Quit.code_i32(), Signal::SIGQUIT as i32);
    assert_eq!(TermSignal::Terminate.code_i32(), Signal::SIGTERM as i32);
    assert_eq!(TermSignal::Interrupt.code_usize(), Signal::SIGINT as usize);
    assert_eq!(TermSignal::Quit.code_usize(), Signal::SIGQUIT as usize);
    assert_eq!(TermSignal::Terminate.code_usize(), Signal::SIGTERM as usize);
}

#[test]
fn guard_blocks_qualifying_signals() {
    let _guard = new_guard();
    let mask = SigSet::thread_get_mask().expect("querying the thread mask failed");
    assert!(mask.contains(Signal::SIGINT));
    assert!(mask.contains(Signal::SIGQUIT));
    assert!(mask.contains(Signal::SIGTERM));
}

#[test]
fn handler_runs_exactly_once_with_interrupt_code() {
    let guard = new_guard();
    raise(Signal::SIGINT).expect("raising the signal failed");
    let mut count: u32 = 0;
    let mut got: usize = 0;
    let r = guard.at_exit(|sig| {
        count += 1;
        got = sig;
    });
    assert!(matches!(r, Ok(c) if c == Signal::SIGINT as usize));
    assert_eq!(count, 1);
    assert_eq!(got, Signal::SIGINT as usize);
}

#[test]
fn quit_code_is_reported() {
    let guard = new_guard();
    raise(Signal::SIGQUIT).expect("raising the signal failed");
    let mut got: usize = 0;
    let r = guard.at_exit(|sig| {
        got = sig;
    });
    assert!(matches!(r, Ok(c) if c == Signal::SIGQUIT as usize));
    assert_eq!(got, Signal::SIGQUIT as usize);
}

#[test]
fn terminate_code_differs_from_interrupt() {
    let guard = new_guard();
    raise(Signal::SIGTERM).expect("raising the signal failed");
    let mut got: usize = 0;
    guard
        .at_exit(|sig| {
            got = sig;
        })
        .map_err(|_| ())
        .expect("the wait failed");
    assert_eq!(got, Signal::SIGTERM as usize);
    assert_ne!(got, Signal::SIGINT as usize);
}

#[test]
fn only_active_callback_runs() {
    let guard = new_guard();
    raise(Signal::SIGTERM).expect("raising the signal failed");
    let mut active: u32 = 0;
    let mut bystander: u32 = 0;
    let chosen = |_sig: usize| {
        active += 1;
    };
    let spare = |_sig: usize| {
        bystander += 1;
    };
    let r = guard.at_exit(chosen);
    assert!(r.is_ok());
    drop(spare);
    assert_eq!(active, 1);
    assert_eq!(bystander, 0);
}

#[test]
fn console_wait_without_delivery_returns_handler_uncalled() {
    let (guard, delivery) = console::SignalGuard::new();
    drop(delivery);
    let mut called = false;
    let r = guard.at_exit(|_sig| {
        called = true;
    });
    assert!(matches!(r, Err(console::HandshakeError::Disconnected(_))));
    assert!(!called);
}

#[test]
fn console_deliver_without_waiter_reports_failure() {
    let (guard, delivery) = console::SignalGuard::new();
    drop(guard);
    assert!(!delivery.deliver(5));
}
