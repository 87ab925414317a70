use wrk2_wrapper::invocation::{
    has_flag, with_default_flags, DEFAULT_RATE, RATE_FLAG, RAW_OUTPUT_FLAG, UNCORRECTED_FLAG,
};

fn args(texts: &[&str]) -> Vec<String> {
    texts.iter().map(|t| t.to_string()).collect()
}

#[test]
fn defaults_are_added_to_empty_arguments() {
    assert_eq!(with_default_flags(args(&[])), args(&["-R", "99999999", "-U"]));
}

#[test]
fn defaults_follow_the_given_arguments() {
    assert_eq!(
        with_default_flags(args(&["-t2", "-c100", "-d30s", "http://localhost:8080/"])),
        args(&["-t2", "-c100", "-d30s", "http://localhost:8080/", "-R", "99999999", "-U"])
    );
}

#[test]
fn given_rate_is_kept() {
    assert_eq!(
        with_default_flags(args(&["-R", "500", "http://localhost/"])),
        args(&["-R", "500", "http://localhost/", "-U"])
    );
}

#[test]
fn given_uncorrected_flag_is_kept() {
    assert_eq!(
        with_default_flags(args(&["-U", "http://localhost/"])),
        args(&["-U", "http://localhost/", "-R", "99999999"])
    );
}

#[test]
fn complete_arguments_stay_as_they_are() {
    let complete = args(&["-U", "-R", "1000", "-v", "http://localhost/"]);
    assert_eq!(with_default_flags(complete.clone()), complete);
    let once = with_default_flags(args(&["http://localhost/"]));
    assert_eq!(with_default_flags(once.clone()), once);
}

#[test]
fn flag_must_be_a_whole_argument() {
    assert_eq!(
        with_default_flags(args(&["-R500", "--U", "-u"])),
        args(&["-R500", "--U", "-u", "-R", "99999999", "-U"])
    );
}

#[test]
fn has_flag_looks_for_the_exact_argument() {
    let given = args(&["-t2", "-v", "http://localhost/"]);
    assert!(has_flag(&given, RAW_OUTPUT_FLAG));
    assert!(has_flag(&given, "-t2"));
    assert!(!has_flag(&given, "-t"));
    assert!(!has_flag(&given, "-V"));
    assert!(!has_flag(&given, RATE_FLAG));
    assert!(!has_flag(&args(&[]), UNCORRECTED_FLAG));
}

#[test]
fn flags_have_their_texts() {
    assert_eq!(RATE_FLAG, "-R");
    assert_eq!(DEFAULT_RATE, "99999999");
    assert_eq!(UNCORRECTED_FLAG, "-U");
    assert_eq!(RAW_OUTPUT_FLAG, "-v");
}
