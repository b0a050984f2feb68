use timeout::{SignalId, TimeoutError, TimeoutSignal};

const ALL: [(SignalId, &str, &str, i32); 9] = [
    (SignalId::Hup, "HUP", "1", 1),
    (SignalId::Int, "INT", "2", 2),
    (SignalId::Quit, "QUIT", "3", 3),
    (SignalId::Kill, "KILL", "9", 9),
    (SignalId::Term, "TERM", "15", 15),
    (SignalId::Usr1, "USR1", "10", 10),
    (SignalId::Usr2, "USR2", "12", 12),
    (SignalId::Alrm, "ALRM", "14", 14),
    (SignalId::Cont, "CONT", "18", 18),
];

#[test]
fn every_form_round_trips_to_the_canonical_name() {
    for (id, short, num, n) in ALL {
        let canonical = format!("SIG{}", short);
        for form in [short.to_string(), canonical.clone(), num.to_string()] {
            let sig = TimeoutSignal::from_str_or_num(&form).unwrap();
            assert_eq!(sig, TimeoutSignal(id));
            assert_eq!(sig.as_str(), canonical);
            assert_eq!(sig.number(), n);
        }
    }
}

#[test]
fn names_are_read_without_regard_to_case() {
    assert_eq!(TimeoutSignal::from_str_or_num("term").unwrap(), TimeoutSignal(SignalId::Term));
    assert_eq!(TimeoutSignal::from_str_or_num("SigKill").unwrap(), TimeoutSignal(SignalId::Kill));
    assert_eq!(TimeoutSignal::from_str_or_num("usr1").unwrap().as_str(), "SIGUSR1");
}

#[test]
fn unknown_names_and_numbers_are_refused() {
    for bad in ["", "FOO", "SIGFOO", "0", "4", "11", "19", "SIG", "TERM ", "+15", "015", "SIGSIGTERM"] {
        assert_eq!(
            TimeoutSignal::from_str_or_num(bad),
            Err(TimeoutError::UnknownSignal(bad.to_string()))
        );
    }
}

#[test]
fn uppercase_lookup_needs_upper_case() {
    assert_eq!(TimeoutSignal::from_uppercase("SIGTERM"), Some(TimeoutSignal(SignalId::Term)));
    assert_eq!(TimeoutSignal::from_uppercase("sigterm"), None);
    assert_eq!(TimeoutSignal::from_uppercase("18"), Some(TimeoutSignal(SignalId::Cont)));
}
