use keypairer::cli::{
    classify, make_request, parse_args, program_name, Flag, Options, Parsed, RequestError, Stop,
};
use keypairer::taxonomy::{Algorithm, Variant};

fn args(list: &[&str]) -> Vec<String> {
    list.iter().map(|s| s.to_string()).collect()
}

fn read(list: &[&str]) -> Parsed {
    parse_args(&args(list))
}

fn options(algorithm: Option<&str>, variant: Option<&str>) -> Options {
    Options {
        algorithm: algorithm.map(|s| s.to_string()),
        variant: variant.map(|s| s.to_string()),
        pk_path: None,
        sk_path: None,
        pk_text: false,
        sk_text: false,
        lang: "ko".to_string(),
    }
}

#[test]
fn flags_have_a_long_and_a_short_spelling() {
    assert_eq!(classify("-alg"), Flag::Algorithm);
    assert_eq!(classify("-algorithm"), Flag::Algorithm);
    assert_eq!(classify("-var"), Flag::Variant);
    assert_eq!(classify("-variant"), Flag::Variant);
    assert_eq!(classify("-pkpath"), Flag::PublicPath);
    assert_eq!(classify("-skpath"), Flag::SecretPath);
    assert_eq!(classify("-pkt"), Flag::PublicText);
    assert_eq!(classify("-pktext"), Flag::PublicText);
    assert_eq!(classify("-skt"), Flag::SecretText);
    assert_eq!(classify("-sktext"), Flag::SecretText);
    assert_eq!(classify("-l"), Flag::Lang);
    assert_eq!(classify("-lang"), Flag::Lang);
    assert_eq!(classify("-h"), Flag::Help);
    assert_eq!(classify("--help"), Flag::Help);
}

#[test]
fn everything_else_is_no_flag() {
    for arg in ["", "-", "-ALG", "--alg", "-help", "alg", "-alg ", "mlkem"] {
        assert_eq!(classify(arg), Flag::Other);
    }
}

#[test]
fn no_arguments_ask_for_nothing() {
    for list in [&[][..], &["prog"][..]] {
        let parsed = read(list);
        assert!(parsed.stop.is_none());
        let o = parsed.options;
        assert_eq!(o.algorithm, None);
        assert_eq!(o.variant, None);
        assert_eq!(o.pk_path, None);
        assert_eq!(o.sk_path, None);
        assert!(!o.pk_text);
        assert!(!o.sk_text);
        assert_eq!(o.lang, "ko");
    }
}

#[test]
fn a_full_command_line() {
    let parsed = read(&[
        "prog", "-alg", "ML-KEM", "-var", "768", "-pkpath", "Out/Pub", "-skpath", "Out/Sec.key",
        "-pkt", "-sktext", "-lang", "EN",
    ]);
    assert!(parsed.stop.is_none());
    let o = parsed.options;
    assert_eq!(o.algorithm, Some("ml-kem".to_string()));
    assert_eq!(o.variant, Some("768".to_string()));
    assert_eq!(o.pk_path, Some("Out/Pub".to_string()));
    assert_eq!(o.sk_path, Some("Out/Sec.key".to_string()));
    assert!(o.pk_text);
    assert!(o.sk_text);
    assert_eq!(o.lang, "en");
}

#[test]
fn the_first_argument_is_never_read_as_a_flag() {
    let parsed = read(&["--help", "-alg", "hqc"]);
    assert!(parsed.stop.is_none());
    assert_eq!(parsed.options.algorithm, Some("hqc".to_string()));
}

#[test]
fn a_later_flag_overrides_an_earlier_one() {
    let parsed = read(&["prog", "-alg", "hqc", "-l", "en", "-algorithm", "Falcon", "-lang", "KO"]);
    assert!(parsed.stop.is_none());
    assert_eq!(parsed.options.algorithm, Some("falcon".to_string()));
    assert_eq!(parsed.options.lang, "ko");
}

#[test]
fn a_value_is_taken_as_it_stands_even_if_it_looks_like_a_flag() {
    let parsed = read(&["prog", "-pkpath", "-h", "-skpath", "-alg"]);
    assert!(parsed.stop.is_none());
    assert_eq!(parsed.options.pk_path, Some("-h".to_string()));
    assert_eq!(parsed.options.sk_path, Some("-alg".to_string()));
}

#[test]
fn help_stops_the_reading() {
    for flag in ["-h", "--help"] {
        let parsed = read(&["prog", "-lang", "en", flag, "-alg", "hqc"]);
        assert!(matches!(parsed.stop, Some(Stop::Help)));
        assert_eq!(parsed.options.lang, "en");
        assert_eq!(parsed.options.algorithm, None);
    }
}

#[test]
fn an_unknown_argument_stops_the_reading() {
    let parsed = read(&["prog", "-alg", "hqc", "--fast", "-lang", "en"]);
    match parsed.stop {
        Some(Stop::UnknownArgument { arg }) => assert_eq!(arg, "--fast"),
        other => panic!("unexpected stop: {:?}", other),
    }
    assert_eq!(parsed.options.algorithm, Some("hqc".to_string()));
    assert_eq!(parsed.options.lang, "ko");
}

#[test]
fn a_flag_without_its_value_stops_the_reading() {
    for flag in ["-alg", "-algorithm", "-var", "-variant", "-pkpath", "-skpath", "-l", "-lang"] {
        let parsed = read(&["prog", "-pkt", flag]);
        assert!(matches!(parsed.stop, Some(Stop::MissingValue)));
        assert!(parsed.options.pk_text);
    }
}

#[test]
fn the_program_name_is_the_first_argument() {
    assert_eq!(program_name(&args(&["./kp", "-h"])), "./kp");
    assert_eq!(program_name(&args(&[])), "keypairer");
}

#[test]
fn a_request_without_a_variant_takes_the_default() {
    let request = make_request(&options(Some("ml-kem"), None)).expect("a request");
    assert_eq!(request.algorithm, Algorithm::MLKEM);
    assert_eq!(request.variant, Variant::MLKEM512);
    assert_eq!(request.algorithm_name, "ml-kem");
    assert_eq!(request.variant_name, "512");
    assert_eq!(request.pk_path, "ml-kem.pub");
    assert_eq!(request.sk_path, "ml-kem.sk");
}

#[test]
fn a_request_with_a_variant_of_the_family() {
    let mut o = options(Some("sph"), Some("shake_256s_simple"));
    o.pk_path = Some("a".to_string());
    o.sk_path = Some("b.key".to_string());
    let request = make_request(&o).expect("a request");
    assert_eq!(request.algorithm, Algorithm::SPHINCSPlus);
    assert_eq!(request.variant, Variant::SPHINCSshake256ssimple);
    assert_eq!(request.variant_name, "shake_256s_simple");
    assert_eq!(request.pk_path, "a.pub");
    assert_eq!(request.sk_path, "b.key");
}

#[test]
fn a_variant_that_the_family_lacks_stays_unknown_in_the_request() {
    let request = make_request(&options(Some("hqc"), Some("512"))).expect("a request");
    assert_eq!(request.algorithm, Algorithm::HQC);
    assert_eq!(request.variant, Variant::Unknown);
    assert_eq!(request.variant_name, "512");
}

#[test]
fn an_unknown_algorithm_with_a_variant_is_left_to_the_dispatcher() {
    let request = make_request(&options(Some("kyber"), Some("512"))).expect("a request");
    assert_eq!(request.algorithm, Algorithm::Unknown);
    assert_eq!(request.variant, Variant::Unknown);
    assert_eq!(request.pk_path, "kyber.pub");
}

#[test]
fn an_unknown_algorithm_has_no_default_variant() {
    match make_request(&options(Some("kyber"), None)) {
        Err(RequestError::UnknownAlgorithm { name }) => assert_eq!(name, "kyber"),
        other => panic!("unexpected: {:?}", other),
    }
}

#[test]
fn a_request_needs_an_algorithm() {
    assert!(matches!(
        make_request(&options(None, Some("512"))),
        Err(RequestError::MissingAlgorithm)
    ));
}
