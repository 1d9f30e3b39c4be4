use signalbool::unix::{os_handler, Signal, SignalBool, SignalState};
use signalbool::{Error, Flag};

fn all_named_signals() -> Vec<Signal> {
    vec![
        Signal::SIGHUP,
        Signal::SIGINT,
        Signal::SIGQUIT,
        Signal::SIGILL,
        Signal::SIGTRAP,
        Signal::SIGABRT,
        Signal::SIGBUS,
        Signal::SIGFPE,
        Signal::SIGKILL,
        Signal::SIGUSR1,
        Signal::SIGSEGV,
        Signal::SIGUSR2,
        Signal::SIGPIPE,
        Signal::SIGALRM,
        Signal::SIGTERM,
        Signal::SIGSTKFLT,
        Signal::SIGCHLD,
        Signal::SIGCONT,
        Signal::SIGSTOP,
        Signal::SIGTSTP,
        Signal::SIGTTIN,
        Signal::SIGTTOU,
        Signal::SIGURG,
        Signal::SIGXCPU,
        Signal::SIGXFSZ,
        Signal::SIGVTALRM,
        Signal::SIGPROF,
        Signal::SIGWINCH,
        Signal::SIGIO,
        Signal::SIGPWR,
        Signal::SIGSYS,
    ]
}

#[test]
fn signal_numbers_are_the_linux_numbers() {
    assert_eq!(Signal::SIGHUP.number(), 1);
    assert_eq!(Signal::SIGINT.number(), 2);
    assert_eq!(Signal::SIGKILL.number(), 9);
    assert_eq!(Signal::SIGTERM.number(), 15);
    assert_eq!(Signal::SIGSYS.number(), 31);
    assert_eq!(Signal::SIGRT(34).number(), 34);
}

#[test]
fn catch_then_reset_for_every_named_signal() {
    for s in all_named_signals() {
        let mut state = SignalState::new();
        let sb = SignalBool::new(&mut state, &[s], Flag::Interrupt).unwrap();
        assert!(!sb.caught(&state));
        os_handler(&mut state, s);
        assert!(sb.caught(&state));
        assert!(sb.caught(&state));
        sb.reset(&mut state);
        assert!(!sb.caught(&state));
    }
}

#[test]
fn registration_builds_the_or_of_the_bits() {
    let mut state = SignalState::new();
    let sb = SignalBool::new(&mut state, &[Signal::SIGINT, Signal::SIGTERM], Flag::Restart)
        .unwrap();
    assert_eq!(sb.selection_mask(), (1usize << 2) | (1usize << 15));
    assert_eq!(state.handlers_word(), (1usize << 2) | (1usize << 15));
    assert_eq!(state.pending_word(), 0);
}

#[test]
fn coalescing_two_deliveries_equal_one() {
    let mut state_once = SignalState::new();
    let mut state_twice = SignalState::new();
    let sb_once = SignalBool::new(&mut state_once, &[Signal::SIGINT], Flag::Interrupt).unwrap();
    let sb_twice = SignalBool::new(&mut state_twice, &[Signal::SIGINT], Flag::Interrupt).unwrap();

    os_handler(&mut state_once, Signal::SIGINT);
    os_handler(&mut state_twice, Signal::SIGINT);
    os_handler(&mut state_twice, Signal::SIGINT);

    assert!(sb_once.caught(&state_once));
    assert!(sb_twice.caught(&state_twice));
    assert_eq!(state_once.pending_word(), state_twice.pending_word());

    sb_twice.reset(&mut state_twice);
    assert!(!sb_twice.caught(&state_twice));
}

#[test]
fn non_overlapping_handles_are_isolated() {
    let mut state = SignalState::new();
    let a = SignalBool::new(&mut state, &[Signal::SIGINT], Flag::Interrupt).unwrap();
    let b = SignalBool::new(&mut state, &[Signal::SIGTERM], Flag::Interrupt).unwrap();

    os_handler(&mut state, Signal::SIGINT);
    assert!(a.caught(&state));
    assert!(!b.caught(&state));

    a.reset(&mut state);
    assert!(!a.caught(&state));
    assert!(!b.caught(&state));
}

#[test]
fn overlapping_handles_steal_each_others_notification() {
    let mut state = SignalState::new();
    let a = SignalBool::new(&mut state, &[Signal::SIGINT], Flag::Interrupt).unwrap();
    let b = SignalBool::new(&mut state, &[Signal::SIGINT], Flag::Interrupt).unwrap();

    os_handler(&mut state, Signal::SIGINT);
    assert!(a.caught(&state));
    assert!(b.caught(&state));

    a.reset(&mut state);
    assert!(!a.caught(&state));
    assert!(!b.caught(&state));
}

#[test]
fn reset_leaves_bits_outside_the_selection() {
    let mut state = SignalState::new();
    let a = SignalBool::new(&mut state, &[Signal::SIGINT], Flag::Interrupt).unwrap();
    let b = SignalBool::new(&mut state, &[Signal::SIGTERM], Flag::Interrupt).unwrap();

    os_handler(&mut state, Signal::SIGINT);
    os_handler(&mut state, Signal::SIGTERM);
    b.reset(&mut state);
    assert!(a.caught(&state));
    assert!(!b.caught(&state));
}

#[test]
fn copies_of_a_handle_share_the_view() {
    let mut state = SignalState::new();
    let a = SignalBool::new(&mut state, &[Signal::SIGINT], Flag::Interrupt).unwrap();
    let a2 = a;
    os_handler(&mut state, Signal::SIGINT);
    assert!(a.caught(&state));
    assert!(a2.caught(&state));
    a2.reset(&mut state);
    assert!(!a.caught(&state));
}

#[test]
fn oversized_bit_position_is_rejected_without_installing() {
    let word_bits = usize::BITS;
    let mut state = SignalState::new();
    let r = SignalBool::new(&mut state, &[Signal::SIGRT(word_bits)], Flag::Restart);
    assert_eq!(r.unwrap_err(), Error::UnsupportedSignal);
    assert_eq!(state.handlers_word(), 0);
    assert_eq!(state.pending_word(), 0);

    // A valid signal ahead of the oversized one must not get installed either.
    let r = SignalBool::new(&mut state, &[Signal::SIGINT, Signal::SIGRT(1000)], Flag::Restart);
    assert_eq!(r.unwrap_err(), Error::UnsupportedSignal);
    assert_eq!(state.handlers_word(), 0);
}

#[test]
fn highest_supported_bit_position_is_accepted() {
    let top = usize::BITS - 1;
    let mut state = SignalState::new();
    let sb = SignalBool::new(&mut state, &[Signal::SIGRT(top)], Flag::Restart).unwrap();
    os_handler(&mut state, Signal::SIGRT(top));
    assert!(sb.caught(&state));
    sb.reset(&mut state);
    assert!(!sb.caught(&state));
}

#[test]
fn empty_registration_succeeds_and_observes_nothing() {
    let mut state = SignalState::new();
    let sb = SignalBool::new(&mut state, &[], Flag::Interrupt).unwrap();
    assert_eq!(sb.selection_mask(), 0);
    os_handler(&mut state, Signal::SIGINT);
    assert!(!sb.caught(&state));
}

#[test]
fn three_catches_then_exit() {
    let mut state = SignalState::new();
    let sb = SignalBool::new(&mut state, &[Signal::SIGINT], Flag::Restart).unwrap();
    let mut count = 0;
    let mut polls = 0;
    loop {
        polls += 1;
        // A delivery arrives while the loop is between polls.
        if polls % 5 == 0 {
            os_handler(&mut state, Signal::SIGINT);
        }
        if sb.caught(&state) {
            count += 1;
            sb.reset(&mut state);
            if count == 3 {
                break;
            }
        }
        assert!(polls < 1000);
    }
    assert_eq!(count, 3);
    assert_eq!(polls, 15);
}

#[test]
fn error_values_are_distinguishable() {
    assert_eq!(Error::OsInstallFailure(4), Error::OsInstallFailure(4));
    assert_ne!(Error::OsInstallFailure(4), Error::OsInstallFailure(5));
    assert_ne!(Error::UnsupportedSignal, Error::InvalidSignalSet);
}
