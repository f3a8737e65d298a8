use keypairer::cli::{make_request, parse_args};
use keypairer::i18n::load_translations;
use keypairer::key_io::{save_keys, FileMode, KeyWriter, Stage};
use keypairer::keygen::{generate_keys, DispatchError};
use keypairer::names::{parse_algorithm, parse_variant};
use keypairer::report::dispatch_error_message;
use keypairer::taxonomy::{minimal_variant_for_algorithm, Algorithm, Variant};
use keypairer::util::finalize_paths;

#[test]
fn lattice_kem_with_default_variant_and_completed_paths() {
    let algorithm = parse_algorithm("mlkem").expect("always some");
    let variant = minimal_variant_for_algorithm(algorithm);
    let (pk_path, sk_path) =
        finalize_paths(&Some("a".to_string()), &Some("b.key".to_string()), "mlkem");
    assert_eq!(pk_path, "a.pub");
    assert_eq!(sk_path, "b.key");

    let material = generate_keys(algorithm, variant).expect("a pair of the taxonomy");
    let mut writer = KeyWriter::new(material, &pk_path, &sk_path, false, false);

    let mut created: Vec<(String, FileMode)> = Vec::new();
    let mut written: Vec<usize> = Vec::new();
    while writer.stage() != Stage::Finished {
        match writer.stage() {
            Stage::CreatePublic | Stage::CreateSecret => {
                created.push((writer.path().to_string(), writer.mode()));
            }
            _ => written.push(writer.payload().len()),
        }
        writer.advance(Ok(()));
    }
    assert_eq!(
        created,
        vec![
            ("a.pub".to_string(), FileMode::Default),
            ("b.key".to_string(), FileMode::OwnerOnly),
        ]
    );
    assert_eq!(written, vec![800, 1632]);
    assert!(matches!(writer.result(), Some(Ok(()))));
    assert!(writer.is_wiped());
}

#[test]
fn hash_based_signature_with_an_unrecognized_variant() {
    let algorithm = parse_algorithm("sphincs+").expect("always some");
    assert_eq!(algorithm, Algorithm::SPHINCSPlus);
    let variant = parse_variant(algorithm, "sha3_128f_simple");
    assert_eq!(variant, Variant::Unknown);
    let refused = generate_keys(algorithm, variant).err();
    assert_eq!(
        refused,
        Some(DispatchError::InvalidVariant {
            algorithm: Algorithm::SPHINCSPlus,
            variant: Variant::Unknown
        })
    );
}

#[test]
fn from_the_command_line_to_the_report() {
    let args: Vec<String> = ["kp", "-alg", "Falcon", "-var", "Padded512", "-skt", "-lang", "en"]
        .iter()
        .map(|s| s.to_string())
        .collect();
    let parsed = parse_args(&args);
    assert!(parsed.stop.is_none());
    let options = parsed.options;
    let tr = load_translations(&options.lang, None);
    let request = make_request(&options).expect("a request");
    assert_eq!(request.variant, Variant::FALCONPadded512);
    let material = generate_keys(request.algorithm, request.variant).expect("a valid pair");
    let public = material.public.clone();
    let job = save_keys(
        material.public,
        material.secret,
        &request.pk_path,
        &request.sk_path,
        &request.algorithm_name,
        &request.variant_name,
        options.pk_text,
        options.sk_text,
        &tr,
    );
    assert_eq!(job.report[0], "Generated key pair for 'FALCON' (variant: padded512).");
    assert_eq!(job.report[1], "Public key saved: falcon.pub");
    assert_eq!(job.report[2], "Secret key saved: falcon.sk");
    let mut writer = job.writer;
    writer.advance(Ok(()));
    assert_eq!(writer.payload(), &public[..]);
    writer.advance(Ok(()));
    writer.advance(Ok(()));
    let text = String::from_utf8(writer.payload().to_vec()).expect("a text");
    assert!(text.starts_with("-----BEGIN SECRET KEY-----\n"));
    assert!(text.ends_with("\n-----END SECRET KEY-----\n"));
    // 1281 bytes make 1708 base64 characters: 26 full lines and one of 44.
    assert_eq!(text.lines().count(), 2 + 27);
    writer.advance(Ok(()));
    assert!(writer.is_wiped());
}

#[test]
fn a_refused_request_is_reported_with_the_names_as_given() {
    let args: Vec<String> =
        ["kp", "-alg", "mldsa", "-var", "512"].iter().map(|s| s.to_string()).collect();
    let options = parse_args(&args).options;
    let request = make_request(&options).expect("a request");
    let refused = generate_keys(request.algorithm, request.variant).err().expect("a refusal");
    let tr = load_translations("en", None);
    assert_eq!(
        dispatch_error_message(&tr, refused, &request.algorithm_name, &request.variant_name),
        "Unsupported variant for 'mldsa': 512"
    );
}
