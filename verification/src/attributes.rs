//! The part of a terminal's configuration that this crate reads and changes.

use vstd::prelude::*;

verus! {

/// Byte that raises the interrupt signal when typed.
pub const INTERRUPT_BYTE: u8 = 3;

/// Byte that raises the quit signal when typed.
pub const QUIT_BYTE: u8 = 34;

/// Byte that raises the suspend signal when typed.
pub const SUSPEND_BYTE: u8 = 32;

/// In a control-character slot: no byte triggers it.
pub const DISABLED: u8 = 0;

/// The signals a terminal can raise from the keyboard, as a set.
#[derive(Copy, Clone, Debug, PartialEq, Eq, Structural)]
pub struct VtSignals {
    bits: u8,
}

impl VtSignals {
    /// The set as bits: 1 for interrupt, 2 for quit, 4 for suspend.
    pub closed spec fn spec_bits(self) -> u8 {
        self.bits
    }

    /// Whether every signal of `other` is in this set.
    pub open spec fn has(self, other: VtSignals) -> bool {
        self.spec_bits() & other.spec_bits() == other.spec_bits()
    }

    /// Whether the interrupt signal is in this set.
    pub open spec fn has_interrupt(self) -> bool {
        self.spec_bits() & 1 == 1
    }

    /// Whether the quit signal is in this set.
    pub open spec fn has_quit(self) -> bool {
        self.spec_bits() & 2 == 2
    }

    /// Whether the suspend signal is in this set.
    pub open spec fn has_suspend(self) -> bool {
        self.spec_bits() & 4 == 4
    }

    /// The interrupt signal alone.
    pub fn sigint() -> (s: VtSignals)
        ensures
            s.spec_bits() == 1,
    {
        VtSignals { bits: 1 }
    }

    /// The quit signal alone.
    pub fn sigquit() -> (s: VtSignals)
        ensures
            s.spec_bits() == 2,
    {
        VtSignals { bits: 2 }
    }

    /// The suspend signal alone.
    pub fn sigtstp() -> (s: VtSignals)
        ensures
            s.spec_bits() == 4,
    {
        VtSignals { bits: 4 }
    }

    /// The set with no signal.
    pub fn empty() -> (s: VtSignals)
        ensures
            s.spec_bits() == 0,
    {
        VtSignals { bits: 0 }
    }

    /// The set with all three signals.
    pub fn all() -> (s: VtSignals)
        ensures
            s.spec_bits() == 7,
    {
        VtSignals { bits: 7 }
    }

    /// The set as bits.
    pub fn bits(self) -> (b: u8)
        ensures
            b == self.spec_bits(),
    {
        self.bits
    }

    /// The set that `bits` names; bits that name no signal are dropped.
    pub fn from_bits_truncate(bits: u8) -> (s: VtSignals)
        ensures
            s.spec_bits() == bits & 7,
    {
        VtSignals { bits: bits & 7 }
    }

    /// Whether every signal of `other` is in this set.
    pub fn contains(self, other: VtSignals) -> (b: bool)
        ensures
            b == self.has(other),
    {
        self.bits & other.bits == other.bits
    }

    /// The signals that are in this set or in `other`.
    pub fn union(self, other: VtSignals) -> (s: VtSignals)
        ensures
            s.spec_bits() == self.spec_bits() | other.spec_bits(),
    {
        VtSignals { bits: self.bits | other.bits }
    }
}

/// What this crate reads and changes of a terminal's configuration.
#[derive(Copy, Clone, Debug, PartialEq, Eq, Structural)]
pub struct TerminalAttributes {
    /// Input flag: break conditions are ignored.
    pub ignore_break: bool,
    /// Local flag: typed characters are echoed.
    pub echo: bool,
    /// Local flag: control characters raise signals.
    pub signal_generation: bool,
    /// Control character that raises the interrupt signal, 0 for none.
    pub interrupt: u8,
    /// Control character that raises the quit signal, 0 for none.
    pub quit: u8,
    /// Control character that raises the suspend signal, 0 for none.
    pub suspend: u8,
    /// Control character that ends the input, 0 for none.
    pub end_of_file: u8,
}

impl TerminalAttributes {
    /// What `baseline` returns.
    pub open spec fn spec_baseline(self) -> TerminalAttributes {
        TerminalAttributes {
            ignore_break: true,
            echo: false,
            signal_generation: false,
            end_of_file: DISABLED,
            ..self
        }
    }

    /// What `with_echo` returns.
    pub open spec fn spec_with_echo(self, enabled: bool) -> TerminalAttributes {
        TerminalAttributes { echo: enabled, ..self }
    }

    /// What `with_signals` returns.
    pub open spec fn spec_with_signals(self, requested: VtSignals) -> TerminalAttributes {
        TerminalAttributes {
            signal_generation: true,
            interrupt: if requested.has_interrupt() {
                INTERRUPT_BYTE
            } else {
                DISABLED
            },
            quit: if requested.has_quit() {
                QUIT_BYTE
            } else {
                DISABLED
            },
            suspend: if requested.has_suspend() {
                SUSPEND_BYTE
            } else {
                DISABLED
            },
            ..self
        }
    }

    /// The configuration a freshly allocated terminal starts with: breaks
    /// ignored, no echo, no signals, no end-of-file character. The rest is kept.
    pub fn baseline(self) -> (r: TerminalAttributes)
        ensures
            r == self.spec_baseline(),
    {
        TerminalAttributes {
            ignore_break: true,
            echo: false,
            signal_generation: false,
            interrupt: self.interrupt,
            quit: self.quit,
            suspend: self.suspend,
            end_of_file: DISABLED,
        }
    }

    /// This configuration with echo switched on or off.
    pub fn with_echo(self, enabled: bool) -> (r: TerminalAttributes)
        ensures
            r == self.spec_with_echo(enabled),
    {
        TerminalAttributes {
            ignore_break: self.ignore_break,
            echo: enabled,
            signal_generation: self.signal_generation,
            interrupt: self.interrupt,
            quit: self.quit,
            suspend: self.suspend,
            end_of_file: self.end_of_file,
        }
    }

    /// This configuration with signal generation on, each requested signal
    /// bound to its byte and each of the others disabled.
    pub fn with_signals(self, requested: VtSignals) -> (r: TerminalAttributes)
        ensures
            r == self.spec_with_signals(requested),
    {
        let interrupt: u8 = if requested.contains(VtSignals::sigint()) {
            INTERRUPT_BYTE
        } else {
            DISABLED
        };
        let quit: u8 = if requested.contains(VtSignals::sigquit()) {
            QUIT_BYTE
        } else {
            DISABLED
        };
        let suspend: u8 = if requested.contains(VtSignals::sigtstp()) {
            SUSPEND_BYTE
        } else {
            DISABLED
        };
        TerminalAttributes {
            ignore_break: self.ignore_break,
            echo: self.echo,
            signal_generation: true,
            interrupt,
            quit,
            suspend,
            end_of_file: self.end_of_file,
        }
    }

    /// Whether typed characters are echoed.
    pub fn is_echo_enabled(&self) -> (b: bool)
        ensures
            b == self.echo,
    {
        self.echo
    }
}

} // verus!
