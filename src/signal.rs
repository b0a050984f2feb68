//! The signal directory: the signals the supervisor sends or interprets, by
//! mnemonic, by prefixed mnemonic and by number.
use vstd::prelude::*;
use crate::error::TimeoutError;
use crate::text::{same_text, upper_of, uppercase};

verus! {

/// The signals the supervisor itself ever sends or accepts as a choice.
#[derive(Debug, Clone, Copy, PartialEq, Eq, Structural)]
pub enum SignalId {
    Hup,
    Int,
    Quit,
    Kill,
    Term,
    Usr1,
    Usr2,
    Alrm,
    Cont,
}

/// A signal as chosen on the command line or sent by the supervisor.
#[derive(Debug, Clone, Copy, PartialEq, Eq, Structural)]
pub struct TimeoutSignal(pub SignalId);

/// The bare mnemonic of a signal ("TERM").
pub open spec fn mnemonic(s: SignalId) -> Seq<char> {
    match s {
        SignalId::Hup => "HUP"@,
        SignalId::Int => "INT"@,
        SignalId::Quit => "QUIT"@,
        SignalId::Kill => "KILL"@,
        SignalId::Term => "TERM"@,
        SignalId::Usr1 => "USR1"@,
        SignalId::Usr2 => "USR2"@,
        SignalId::Alrm => "ALRM"@,
        SignalId::Cont => "CONT"@,
    }
}

/// The canonical name of a signal: its mnemonic after "SIG".
pub open spec fn canonical_name(s: SignalId) -> Seq<char> {
    "SIG"@ + mnemonic(s)
}

/// The number of a signal.
pub open spec fn signal_number(s: SignalId) -> int {
    match s {
        SignalId::Hup => 1,
        SignalId::Int => 2,
        SignalId::Quit => 3,
        SignalId::Kill => 9,
        SignalId::Term => 15,
        SignalId::Usr1 => 10,
        SignalId::Usr2 => 12,
        SignalId::Alrm => 14,
        SignalId::Cont => 18,
    }
}

/// The number of a signal written in decimal.
pub open spec fn number_text(s: SignalId) -> Seq<char> {
    match s {
        SignalId::Hup => "1"@,
        SignalId::Int => "2"@,
        SignalId::Quit => "3"@,
        SignalId::Kill => "9"@,
        SignalId::Term => "15"@,
        SignalId::Usr1 => "10"@,
        SignalId::Usr2 => "12"@,
        SignalId::Alrm => "14"@,
        SignalId::Cont => "18"@,
    }
}

/// `u` is one of the three accepted upper-case forms of `s`.
pub open spec fn names_signal(u: Seq<char>, s: SignalId) -> bool {
    u == mnemonic(s) || u == canonical_name(s) || u == number_text(s)
}

/// The signal that an upper-case text stands for, if any.
pub open spec fn resolve(u: Seq<char>) -> Option<SignalId> {
    if names_signal(u, SignalId::Hup) {
        Some(SignalId::Hup)
    } else if names_signal(u, SignalId::Int) {
        Some(SignalId::Int)
    } else if names_signal(u, SignalId::Quit) {
        Some(SignalId::Quit)
    } else if names_signal(u, SignalId::Kill) {
        Some(SignalId::Kill)
    } else if names_signal(u, SignalId::Term) {
        Some(SignalId::Term)
    } else if names_signal(u, SignalId::Usr1) {
        Some(SignalId::Usr1)
    } else if names_signal(u, SignalId::Usr2) {
        Some(SignalId::Usr2)
    } else if names_signal(u, SignalId::Alrm) {
        Some(SignalId::Alrm)
    } else if names_signal(u, SignalId::Cont) {
        Some(SignalId::Cont)
    } else {
        None
    }
}

/// The length of a text and its characters at the positions that tell
/// apart all accepted forms of equal length.
spec fn fingerprint(u: Seq<char>) -> (nat, char, char, char, char) {
    (u.len(), u[0], u[1], u[3], u[6])
}

/// Round trip through the directory: each accepted form of a signal (its
/// mnemonic, its "SIG"-prefixed mnemonic, its number) resolves to that signal
/// and to no other, so the name of what it resolves to is the signal's
/// canonical name.
pub proof fn lemma_round_trip(u: Seq<char>, s: SignalId)
    requires
        names_signal(u, s),
    ensures
        resolve(u) == Some(s),
        canonical_name(resolve(u).unwrap()) == canonical_name(s),
{
    reveal_strlit("SIG");
    reveal_strlit("HUP");
    reveal_strlit("INT");
    reveal_strlit("QUIT");
    reveal_strlit("KILL");
    reveal_strlit("TERM");
    reveal_strlit("USR1");
    reveal_strlit("USR2");
    reveal_strlit("ALRM");
    reveal_strlit("CONT");
    reveal_strlit("1");
    reveal_strlit("2");
    reveal_strlit("3");
    reveal_strlit("9");
    reveal_strlit("15");
    reveal_strlit("10");
    reveal_strlit("12");
    reveal_strlit("14");
    reveal_strlit("18");
    assert forall|t: SignalId| #[trigger] names_signal(u, t) implies t == s by {
        assert(fingerprint(u) == (u.len(), u[0], u[1], u[3], u[6]));
    }
}

/// A text that is none of the accepted forms resolves to nothing: the
/// directory never falls back to a default signal.
pub proof fn lemma_unknown_refused(u: Seq<char>)
    ensures
        resolve(u) is None <==> (forall|s: SignalId| !#[trigger] names_signal(u, s)),
{
    if resolve(u) is None {
        assert forall|s: SignalId| !#[trigger] names_signal(u, s) by {
            match s {
                SignalId::Hup => {},
                SignalId::Int => {},
                SignalId::Quit => {},
                SignalId::Kill => {},
                SignalId::Term => {},
                SignalId::Usr1 => {},
                SignalId::Usr2 => {},
                SignalId::Alrm => {},
                SignalId::Cont => {},
            }
        }
    }
}

/// Whether `u` is one of the three forms of `s`, compared in executable code.
fn is_named(u: &str, short: &str, long: &str, num: &str, Ghost(s): Ghost<SignalId>) -> (r: bool)
    requires
        short@ == mnemonic(s),
        long@ == canonical_name(s),
        num@ == number_text(s),
    ensures
        r == names_signal(u@, s),
{
    same_text(u, short) || same_text(u, long) || same_text(u, num)
}

impl TimeoutSignal {
    /// The signal that an already upper-cased name or number stands for.
    pub fn from_uppercase(u: &str) -> (r: Option<TimeoutSignal>)
        ensures
            match resolve(u@) {
                Some(id) => r == Some(TimeoutSignal(id)),
                None => r is None,
            },
    {
        proof {
            reveal_strlit("SIG");
            reveal_strlit("HUP");
            reveal_strlit("SIGHUP");
            reveal_strlit("INT");
            reveal_strlit("SIGINT");
            reveal_strlit("QUIT");
            reveal_strlit("SIGQUIT");
            reveal_strlit("KILL");
            reveal_strlit("SIGKILL");
            reveal_strlit("TERM");
            reveal_strlit("SIGTERM");
            reveal_strlit("USR1");
            reveal_strlit("SIGUSR1");
            reveal_strlit("USR2");
            reveal_strlit("SIGUSR2");
            reveal_strlit("ALRM");
            reveal_strlit("SIGALRM");
            reveal_strlit("CONT");
            reveal_strlit("SIGCONT");
            assert("SIGHUP"@ =~= canonical_name(SignalId::Hup));
            assert("SIGINT"@ =~= canonical_name(SignalId::Int));
            assert("SIGQUIT"@ =~= canonical_name(SignalId::Quit));
            assert("SIGKILL"@ =~= canonical_name(SignalId::Kill));
            assert("SIGTERM"@ =~= canonical_name(SignalId::Term));
            assert("SIGUSR1"@ =~= canonical_name(SignalId::Usr1));
            assert("SIGUSR2"@ =~= canonical_name(SignalId::Usr2));
            assert("SIGALRM"@ =~= canonical_name(SignalId::Alrm));
            assert("SIGCONT"@ =~= canonical_name(SignalId::Cont));
        }
        if is_named(u, "HUP", "SIGHUP", "1", Ghost(SignalId::Hup)) {
            Some(TimeoutSignal(SignalId::Hup))
        } else if is_named(u, "INT", "SIGINT", "2", Ghost(SignalId::Int)) {
            Some(TimeoutSignal(SignalId::Int))
        } else if is_named(u, "QUIT", "SIGQUIT", "3", Ghost(SignalId::Quit)) {
            Some(TimeoutSignal(SignalId::Quit))
        } else if is_named(u, "KILL", "SIGKILL", "9", Ghost(SignalId::Kill)) {
            Some(TimeoutSignal(SignalId::Kill))
        } else if is_named(u, "TERM", "SIGTERM", "15", Ghost(SignalId::Term)) {
            Some(TimeoutSignal(SignalId::Term))
        } else if is_named(u, "USR1", "SIGUSR1", "10", Ghost(SignalId::Usr1)) {
            Some(TimeoutSignal(SignalId::Usr1))
        } else if is_named(u, "USR2", "SIGUSR2", "12", Ghost(SignalId::Usr2)) {
            Some(TimeoutSignal(SignalId::Usr2))
        } else if is_named(u, "ALRM", "SIGALRM", "14", Ghost(SignalId::Alrm)) {
            Some(TimeoutSignal(SignalId::Alrm))
        } else if is_named(u, "CONT", "SIGCONT", "18", Ghost(SignalId::Cont)) {
            Some(TimeoutSignal(SignalId::Cont))
        } else {
            None
        }
    }

    /// Reads a signal name or number, without regard to case. Anything
    /// outside the directory is refused, never mapped to a default.
    pub fn from_str_or_num(s: &str) -> (r: Result<TimeoutSignal, TimeoutError>)
        ensures
            match resolve(upper_of(s@)) {
                Some(id) => r == Ok::<TimeoutSignal, TimeoutError>(TimeoutSignal(id)),
                None => r matches Err(TimeoutError::UnknownSignal(t)) && t@ == s@,
            },
    {
        let up = uppercase(s);
        match TimeoutSignal::from_uppercase(up.as_str()) {
            Some(sig) => Ok(sig),
            None => Err(TimeoutError::UnknownSignal(String::from_str(s))),
        }
    }

    /// The canonical name ("SIGTERM").
    pub fn as_str(&self) -> (r: &'static str)
        ensures
            r@ == canonical_name(self.0),
    {
        proof {
            reveal_strlit("SIG");
        }
        match self.0 {
            SignalId::Hup => {
                proof { reveal_strlit("HUP"); reveal_strlit("SIGHUP"); }
                assert("SIGHUP"@ =~= canonical_name(SignalId::Hup));
                "SIGHUP"
            },
            SignalId::Int => {
                proof { reveal_strlit("INT"); reveal_strlit("SIGINT"); }
                assert("SIGINT"@ =~= canonical_name(SignalId::Int));
                "SIGINT"
            },
            SignalId::Quit => {
                proof { reveal_strlit("QUIT"); reveal_strlit("SIGQUIT"); }
                assert("SIGQUIT"@ =~= canonical_name(SignalId::Quit));
                "SIGQUIT"
            },
            SignalId::Kill => {
                proof { reveal_strlit("KILL"); reveal_strlit("SIGKILL"); }
                assert("SIGKILL"@ =~= canonical_name(SignalId::Kill));
                "SIGKILL"
            },
            SignalId::Term => {
                proof { reveal_strlit("TERM"); reveal_strlit("SIGTERM"); }
                assert("SIGTERM"@ =~= canonical_name(SignalId::Term));
                "SIGTERM"
            },
            SignalId::Usr1 => {
                proof { reveal_strlit("USR1"); reveal_strlit("SIGUSR1"); }
                assert("SIGUSR1"@ =~= canonical_name(SignalId::Usr1));
                "SIGUSR1"
            },
            SignalId::Usr2 => {
                proof { reveal_strlit("USR2"); reveal_strlit("SIGUSR2"); }
                assert("SIGUSR2"@ =~= canonical_name(SignalId::Usr2));
                "SIGUSR2"
            },
            SignalId::Alrm => {
                proof { reveal_strlit("ALRM"); reveal_strlit("SIGALRM"); }
                assert("SIGALRM"@ =~= canonical_name(SignalId::Alrm));
                "SIGALRM"
            },
            SignalId::Cont => {
                proof { reveal_strlit("CONT"); reveal_strlit("SIGCONT"); }
                assert("SIGCONT"@ =~= canonical_name(SignalId::Cont));
                "SIGCONT"
            },
        }
    }

    /// The signal's number, as the supervisor's exit status counts it.
    pub fn number(&self) -> (r: i32)
        ensures
            r == signal_number(self.0),
    {
        match self.0 {
            SignalId::Hup => 1,
            SignalId::Int => 2,
            SignalId::Quit => 3,
            SignalId::Kill => 9,
            SignalId::Term => 15,
            SignalId::Usr1 => 10,
            SignalId::Usr2 => 12,
            SignalId::Alrm => 14,
            SignalId::Cont => 18,
        }
    }
}

} // verus!
