use vime_engine::phonology::{Coda, CodaParseError, Onset, OnsetParseError};

#[test]
fn onset_parses_every_spelling() {
    let cases: [(&str, Onset); 28] = [
        ("", Onset::Empty),
        ("b", Onset::B),
        ("c", Onset::C),
        ("ch", Onset::Ch),
        ("d", Onset::D),
        ("đ", Onset::DStroke),
        ("g", Onset::G),
        ("gh", Onset::Gh),
        ("gi", Onset::Gi),
        ("h", Onset::H),
        ("k", Onset::K),
        ("kh", Onset::Kh),
        ("l", Onset::L),
        ("m", Onset::M),
        ("n", Onset::N),
        ("nh", Onset::Nh),
        ("ng", Onset::Ng),
        ("ngh", Onset::Ngh),
        ("p", Onset::P),
        ("ph", Onset::Ph),
        ("qu", Onset::Qu),
        ("r", Onset::R),
        ("s", Onset::S),
        ("t", Onset::T),
        ("th", Onset::Th),
        ("tr", Onset::Tr),
        ("v", Onset::V),
        ("x", Onset::X),
    ];
    for (id, (text, onset)) in cases.iter().enumerate() {
        assert_eq!(Onset::from_bytes(text.as_bytes()), Ok(*onset), "{text:?}");
        assert_eq!(text.parse::<Onset>(), Ok(*onset), "{text:?}");
        let chars: Vec<char> = text.chars().collect();
        assert_eq!(Onset::from_chars(&chars), Ok(*onset), "{text:?}");
        assert_eq!(Onset::from_id(id), Ok(*onset), "id {id}");
    }
    assert_eq!(Onset::from_id(28), Err(OnsetParseError));
}

#[test]
fn onset_is_case_insensitive() {
    assert_eq!(Onset::from_bytes("NGH".as_bytes()), Ok(Onset::Ngh));
    assert_eq!(Onset::from_bytes("Qu".as_bytes()), Ok(Onset::Qu));
    assert_eq!(Onset::from_bytes("Đ".as_bytes()), Ok(Onset::DStroke));
    assert_eq!(Onset::from_chars(&['Đ']), Ok(Onset::DStroke));
    assert_eq!(Onset::from_chars(&['T', 'R']), Ok(Onset::Tr));
}

#[test]
fn onset_rejects_non_onsets() {
    assert_eq!(Onset::from_bytes("a".as_bytes()), Err(OnsetParseError));
    assert_eq!(Onset::from_bytes("gg".as_bytes()), Err(OnsetParseError));
    assert_eq!(Onset::from_bytes("ngg".as_bytes()), Err(OnsetParseError));
    assert_eq!(Onset::from_bytes("nghh".as_bytes()), Err(OnsetParseError));
    assert_eq!(Onset::from_chars(&['đ', 'h']), Err(OnsetParseError));
    assert_eq!(Onset::from_chars(&['ư']), Err(OnsetParseError));
    assert_eq!("q".parse::<Onset>(), Err(OnsetParseError));
}

#[test]
fn onset_character_classes() {
    assert!(Onset::Empty.is_none());
    assert!(!Onset::B.is_none());
    for ch in ['b', 'Q', 'đ', 'Đ', 'x'] {
        assert!(Onset::is_possible_first_char(ch), "{ch:?}");
        assert!(Onset::is_possible_char(ch), "{ch:?}");
    }
    for ch in ['i', 'U'] {
        assert!(!Onset::is_possible_first_char(ch), "{ch:?}");
        assert!(Onset::is_possible_char(ch), "{ch:?}");
    }
    for ch in ['a', 'e', 'f', 'w', 'z', '1'] {
        assert!(!Onset::is_possible_char(ch), "{ch:?}");
    }
}

#[test]
fn coda_parses_every_spelling() {
    let cases: [(&str, Coda); 9] = [
        ("", Coda::Empty),
        ("p", Coda::P),
        ("t", Coda::T),
        ("c", Coda::C),
        ("ch", Coda::Ch),
        ("m", Coda::M),
        ("n", Coda::N),
        ("ng", Coda::Ng),
        ("nh", Coda::Nh),
    ];
    for (id, (text, coda)) in cases.iter().enumerate() {
        assert_eq!(Coda::from_bytes(text.as_bytes()), Ok(*coda), "{text:?}");
        assert_eq!(text.parse::<Coda>(), Ok(*coda), "{text:?}");
        let chars: Vec<char> = text.chars().collect();
        assert_eq!(Coda::from_chars(&chars), Ok(*coda), "{text:?}");
        assert_eq!(Coda::from_id(id), Ok(*coda), "id {id}");
    }
    assert_eq!(Coda::from_id(9), Err(CodaParseError));
    assert_eq!(Coda::from_bytes("NG".as_bytes()), Ok(Coda::Ng));
    assert_eq!(Coda::from_chars(&['C', 'H']), Ok(Coda::Ch));
}

#[test]
fn coda_rejects_non_codas() {
    assert_eq!(Coda::from_bytes("k".as_bytes()), Err(CodaParseError));
    assert_eq!(Coda::from_bytes("nn".as_bytes()), Err(CodaParseError));
    assert_eq!(Coda::from_bytes("ngh".as_bytes()), Err(CodaParseError));
    assert_eq!(Coda::from_chars(&['ñ']), Err(CodaParseError));
    assert_eq!("x".parse::<Coda>(), Err(CodaParseError));
}

#[test]
fn coda_character_classes() {
    assert!(Coda::Empty.is_none());
    assert!(!Coda::Ng.is_none());
    for ch in ['c', 'M', 'n', 'p', 'T'] {
        assert!(Coda::is_possible_first_char(ch), "{ch:?}");
        assert!(Coda::is_possible_char(ch), "{ch:?}");
    }
    for ch in ['g', 'H'] {
        assert!(!Coda::is_possible_first_char(ch), "{ch:?}");
        assert!(Coda::is_possible_char(ch), "{ch:?}");
    }
    for ch in ['a', 'k', 'đ'] {
        assert!(!Coda::is_possible_char(ch), "{ch:?}");
    }
}

#[test]
fn parsing_ignores_ascii_case() {
    for text in ["NGH", "Ngh", "QU", "tR", "Đ", "đ", "x", "Ch", "Zz", "@", "NNG"] {
        let lower = text.to_ascii_lowercase();
        assert_eq!(Onset::from_bytes(text.as_bytes()), Onset::from_bytes(lower.as_bytes()), "{text:?}");
        assert_eq!(Coda::from_bytes(text.as_bytes()), Coda::from_bytes(lower.as_bytes()), "{text:?}");
    }
}
