use game_roster::model::SubmissionStatus;

#[test]
fn from_int_reads_the_three_known_codes() {
    assert_eq!(SubmissionStatus::from_int(0), SubmissionStatus::NotSubmitted);
    assert_eq!(SubmissionStatus::from_int(1), SubmissionStatus::PartiallySubmitted);
    assert_eq!(SubmissionStatus::from_int(2), SubmissionStatus::Submitted);
}

#[test]
fn from_int_keeps_an_unknown_code() {
    assert_eq!(SubmissionStatus::from_int(9), SubmissionStatus::Unknown(9));
    assert_eq!(SubmissionStatus::from_int(3), SubmissionStatus::Unknown(3));
    assert_eq!(SubmissionStatus::from_int(255), SubmissionStatus::Unknown(255));
}

#[test]
fn unknown_code_shows_as_its_numeral() {
    assert_eq!(SubmissionStatus::from_int(9).show(), "9");
    assert_eq!(SubmissionStatus::Unknown(0).show(), "0");
    assert_eq!(SubmissionStatus::Unknown(10).show(), "10");
    assert_eq!(SubmissionStatus::Unknown(42).show(), "42");
    assert_eq!(SubmissionStatus::Unknown(100).show(), "100");
    assert_eq!(SubmissionStatus::Unknown(107).show(), "107");
    assert_eq!(SubmissionStatus::Unknown(255).show(), "255");
}

#[test]
fn every_code_shows_as_std_formats_it() {
    let mut code: u8 = 0;
    loop {
        assert_eq!(SubmissionStatus::Unknown(code).show(), format!("{}", code));
        if code == u8::MAX {
            break;
        }
        code += 1;
    }
}

#[test]
fn known_statuses_show_as_symbols() {
    assert_eq!(SubmissionStatus::NotSubmitted.show(), "X");
    assert_eq!(SubmissionStatus::PartiallySubmitted.show(), "/");
    assert_eq!(SubmissionStatus::Submitted.show(), "✓");
}

#[test]
fn from_bool_maps_both_flags() {
    assert_eq!(SubmissionStatus::from_bool(true), SubmissionStatus::Submitted);
    assert_eq!(SubmissionStatus::from_bool(false), SubmissionStatus::NotSubmitted);
}
