use vt::attributes::{DISABLED, INTERRUPT_BYTE, QUIT_BYTE, SUSPEND_BYTE};
use vt::{TerminalAttributes, VtSignals};

fn sample() -> TerminalAttributes {
    TerminalAttributes {
        ignore_break: false,
        echo: true,
        signal_generation: true,
        interrupt: 3,
        quit: 28,
        suspend: 26,
        end_of_file: 4,
    }
}

#[test]
fn control_bytes_are_the_canonical_ones() {
    assert_eq!((INTERRUPT_BYTE, QUIT_BYTE, SUSPEND_BYTE, DISABLED), (3, 34, 32, 0));
}

#[test]
fn baseline_switches_echo_signals_and_end_of_file_off() {
    assert_eq!(
        sample().baseline(),
        TerminalAttributes {
            ignore_break: true,
            echo: false,
            signal_generation: false,
            interrupt: 3,
            quit: 28,
            suspend: 26,
            end_of_file: 0,
        }
    );
}

#[test]
fn baseline_of_a_baseline_is_the_same() {
    assert_eq!(sample().baseline().baseline(), sample().baseline());
}

#[test]
fn with_echo_changes_the_echo_only() {
    assert_eq!(sample().with_echo(false), TerminalAttributes { echo: false, ..sample() });
    assert_eq!(sample().with_echo(true), sample());
    assert!(sample().with_echo(true).is_echo_enabled());
    assert!(!sample().with_echo(false).is_echo_enabled());
}

#[test]
fn with_signals_binds_every_requested_signal() {
    assert_eq!(
        sample().baseline().with_signals(VtSignals::all()),
        TerminalAttributes {
            ignore_break: true,
            echo: false,
            signal_generation: true,
            interrupt: 3,
            quit: 34,
            suspend: 32,
            end_of_file: 0,
        }
    );
}

#[test]
fn with_signals_disables_what_is_not_requested() {
    assert_eq!(
        sample().with_signals(VtSignals::empty()),
        TerminalAttributes { interrupt: 0, quit: 0, suspend: 0, ..sample() }
    );
    assert_eq!(
        sample().with_signals(VtSignals::sigquit()),
        TerminalAttributes { interrupt: 0, quit: 34, suspend: 0, ..sample() }
    );
}

#[test]
fn signal_sets_have_the_bits_of_their_signals() {
    assert_eq!(VtSignals::empty().bits(), 0);
    assert_eq!(VtSignals::sigint().bits(), 1);
    assert_eq!(VtSignals::sigquit().bits(), 2);
    assert_eq!(VtSignals::sigtstp().bits(), 4);
    assert_eq!(VtSignals::all().bits(), 7);
    assert_eq!(VtSignals::sigint().union(VtSignals::sigtstp()).bits(), 5);
}

#[test]
fn signal_set_contains_its_parts() {
    let set = VtSignals::sigint().union(VtSignals::sigquit());
    assert!(set.contains(VtSignals::sigint()));
    assert!(set.contains(VtSignals::sigquit()));
    assert!(set.contains(set));
    assert!(set.contains(VtSignals::empty()));
    assert!(!set.contains(VtSignals::sigtstp()));
    assert!(!set.contains(VtSignals::all()));
}

#[test]
fn signal_set_drops_bits_that_name_nothing() {
    assert_eq!(VtSignals::from_bits_truncate(0xff), VtSignals::all());
    assert_eq!(VtSignals::from_bits_truncate(0x0a), VtSignals::sigquit());
    assert_eq!(VtSignals::from_bits_truncate(0xf8), VtSignals::empty());
}
