use keypairer::names::{
    algorithm_from_token, algorithm_name, parse_algorithm, parse_variant, variant_from_token,
    variant_name,
};
use keypairer::taxonomy::{algorithms, variants_of, Algorithm, Variant};

#[test]
fn aliases_of_the_lattice_kem_in_any_case() {
    for token in ["mlkem", "ML-KEM", "ml-kem", "MLKEM", "Ml-Kem", "mLkEm"] {
        assert_eq!(parse_algorithm(token), Some(Algorithm::MLKEM));
    }
}

#[test]
fn every_alias_names_its_family() {
    let table = [
        ("mlkem", Algorithm::MLKEM),
        ("ml-kem", Algorithm::MLKEM),
        ("hqc", Algorithm::HQC),
        ("mce", Algorithm::McEliece),
        ("mceliece", Algorithm::McEliece),
        ("falcon", Algorithm::FALCON),
        ("mldsa", Algorithm::MLDSA),
        ("ml-dsa", Algorithm::MLDSA),
        ("sph", Algorithm::SPHINCSPlus),
        ("sphincs", Algorithm::SPHINCSPlus),
        ("sphincs+", Algorithm::SPHINCSPlus),
    ];
    for (token, family) in table {
        assert_eq!(parse_algorithm(token), Some(family));
        assert_eq!(parse_algorithm(&token.to_uppercase()), Some(family));
        assert_eq!(algorithm_from_token(token), family);
    }
}

#[test]
fn a_token_that_names_nothing_is_unknown() {
    for token in ["", "kyber", "ml_kem", "mlkem ", " hqc", "sphincs++", "falcon512"] {
        assert_eq!(parse_algorithm(token), Some(Algorithm::Unknown));
    }
}

#[test]
fn tokens_are_folded_by_the_unicode_rules() {
    // U+212A, the Kelvin sign, has the lower case form `k`.
    assert_eq!(parse_algorithm("ml\u{212A}em"), Some(Algorithm::MLKEM));
    // The token itself is compared as it is once it is in lower case.
    assert_eq!(algorithm_from_token("MLKEM"), Algorithm::Unknown);
}

#[test]
fn family_names_are_the_command_line_names() {
    let names: Vec<&str> = algorithms().into_iter().map(algorithm_name).collect();
    assert_eq!(names, vec!["mlkem", "hqc", "mceliece", "falcon", "mldsa", "sphincs+"]);
    assert_eq!(algorithm_name(Algorithm::Unknown), "");
    for family in algorithms() {
        assert_eq!(parse_algorithm(algorithm_name(family)), Some(family));
    }
}

#[test]
fn variant_labels_are_the_command_line_labels() {
    let labels = |a: Algorithm| -> Vec<&'static str> {
        variants_of(a).into_iter().map(variant_name).collect()
    };
    assert_eq!(labels(Algorithm::MLKEM), vec!["512", "768", "1024"]);
    assert_eq!(labels(Algorithm::HQC), vec!["128", "192", "256"]);
    assert_eq!(
        labels(Algorithm::McEliece),
        vec![
            "348864", "348864f", "460896", "460896f", "6688128", "6688128f", "6960119",
            "6960119f", "8192128", "8192128f",
        ]
    );
    assert_eq!(
        labels(Algorithm::FALCON),
        vec!["nopad512", "nopad1024", "padded512", "padded1024"]
    );
    assert_eq!(labels(Algorithm::MLDSA), vec!["44", "65", "87"]);
    assert_eq!(
        labels(Algorithm::SPHINCSPlus),
        vec![
            "sha2_128f_simple",
            "sha2_128s_simple",
            "sha2_192f_simple",
            "sha2_192s_simple",
            "sha2_256f_simple",
            "sha2_256s_simple",
            "shake_128f_simple",
            "shake_128s_simple",
            "shake_192f_simple",
            "shake_192s_simple",
            "shake_256f_simple",
            "shake_256s_simple",
        ]
    );
    assert_eq!(variant_name(Variant::Unknown), "");
}

#[test]
fn every_label_reads_back_as_its_variant() {
    for family in algorithms() {
        for variant in variants_of(family) {
            let label = variant_name(variant);
            assert_eq!(variant_from_token(family, label), variant);
            assert_eq!(parse_variant(family, label), variant);
            assert_eq!(parse_variant(family, &label.to_uppercase()), variant);
        }
    }
}

#[test]
fn a_label_of_another_family_is_unknown() {
    assert_eq!(parse_variant(Algorithm::MLKEM, "128"), Variant::Unknown);
    assert_eq!(parse_variant(Algorithm::HQC, "512"), Variant::Unknown);
    assert_eq!(parse_variant(Algorithm::FALCON, "512"), Variant::Unknown);
    assert_eq!(parse_variant(Algorithm::Unknown, "512"), Variant::Unknown);
    for family in algorithms() {
        for other in algorithms() {
            if other != family {
                for variant in variants_of(other) {
                    assert_eq!(parse_variant(family, variant_name(variant)), Variant::Unknown);
                }
            }
        }
    }
}

#[test]
fn a_label_that_names_nothing_is_unknown() {
    for family in algorithms() {
        for token in ["", "bogus", "0", "sha2-128f-simple", "512 "] {
            assert_eq!(parse_variant(family, token), Variant::Unknown);
        }
    }
    assert_eq!(variant_from_token(Algorithm::FALCON, "NOPAD512"), Variant::Unknown);
    assert_eq!(parse_variant(Algorithm::FALCON, "NoPad512"), Variant::FALCONNoPad512);
}
