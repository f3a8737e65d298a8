use keypairer::keygen::{generate_keys, DispatchError, KeyMaterial};
use keypairer::taxonomy::{algorithms, is_valid, variants_of, Algorithm, Variant};

fn lengths(algorithm: Algorithm, variant: Variant) -> (usize, usize) {
    let material = generate_keys(algorithm, variant).expect("a pair of the taxonomy");
    (material.public.len(), material.secret.len())
}

#[test]
fn mlkem_keys_have_declared_lengths() {
    assert_eq!(lengths(Algorithm::MLKEM, Variant::MLKEM512), (800, 1632));
    assert_eq!(lengths(Algorithm::MLKEM, Variant::MLKEM768), (1184, 2400));
    assert_eq!(lengths(Algorithm::MLKEM, Variant::MLKEM1024), (1568, 3168));
}

#[test]
fn hqc_keys_have_declared_lengths() {
    assert_eq!(lengths(Algorithm::HQC, Variant::HQC128), (2249, 2305));
    assert_eq!(lengths(Algorithm::HQC, Variant::HQC192), (4522, 4586));
    assert_eq!(lengths(Algorithm::HQC, Variant::HQC256), (7245, 7317));
}

#[test]
fn mceliece348864_keys_have_declared_lengths() {
    assert_eq!(lengths(Algorithm::McEliece, Variant::McEliece348864), (261120, 6492));
}

#[test]
fn mceliece348864f_keys_have_declared_lengths() {
    assert_eq!(lengths(Algorithm::McEliece, Variant::McEliece348864f), (261120, 6492));
}

#[test]
fn falcon_keys_have_declared_lengths() {
    assert_eq!(lengths(Algorithm::FALCON, Variant::FALCONNoPad512), (897, 1281));
    assert_eq!(lengths(Algorithm::FALCON, Variant::FALCONNoPad1024), (1793, 2305));
    assert_eq!(lengths(Algorithm::FALCON, Variant::FALCONPadded512), (897, 1281));
    assert_eq!(lengths(Algorithm::FALCON, Variant::FALCONPadded1024), (1793, 2305));
}

#[test]
fn mldsa_keys_have_declared_lengths() {
    assert_eq!(lengths(Algorithm::MLDSA, Variant::MLDSA44), (1312, 2560));
    assert_eq!(lengths(Algorithm::MLDSA, Variant::MLDSA65), (1952, 4032));
    assert_eq!(lengths(Algorithm::MLDSA, Variant::MLDSA87), (2592, 4896));
}

#[test]
fn sphincs_sha2_keys_have_declared_lengths() {
    let a = Algorithm::SPHINCSPlus;
    assert_eq!(lengths(a, Variant::SPHINCSsha2128fsimple), (32, 64));
    assert_eq!(lengths(a, Variant::SPHINCSsha2128ssimple), (32, 64));
    assert_eq!(lengths(a, Variant::SPHINCSsha2192fsimple), (48, 96));
    assert_eq!(lengths(a, Variant::SPHINCSsha2192ssimple), (48, 96));
    assert_eq!(lengths(a, Variant::SPHINCSsha2256fsimple), (64, 128));
    assert_eq!(lengths(a, Variant::SPHINCSsha2256ssimple), (64, 128));
}

#[test]
fn sphincs_shake_keys_have_declared_lengths() {
    let a = Algorithm::SPHINCSPlus;
    assert_eq!(lengths(a, Variant::SPHINCSshake128fsimple), (32, 64));
    assert_eq!(lengths(a, Variant::SPHINCSshake128ssimple), (32, 64));
    assert_eq!(lengths(a, Variant::SPHINCSshake192fsimple), (48, 96));
    assert_eq!(lengths(a, Variant::SPHINCSshake192ssimple), (48, 96));
    assert_eq!(lengths(a, Variant::SPHINCSshake256fsimple), (64, 128));
    assert_eq!(lengths(a, Variant::SPHINCSshake256ssimple), (64, 128));
}

#[test]
fn each_call_gives_a_fresh_keypair() {
    let first = generate_keys(Algorithm::MLKEM, Variant::MLKEM512).expect("a valid pair");
    let second = generate_keys(Algorithm::MLKEM, Variant::MLKEM512).expect("a valid pair");
    assert_ne!(first.secret, second.secret);
    assert_ne!(first.public, second.public);
    assert_ne!(first.public, vec![0u8; 800]);
}

#[test]
fn unknown_algorithm_is_refused() {
    for family in algorithms() {
        for variant in variants_of(family) {
            assert_eq!(
                generate_keys(Algorithm::Unknown, variant).err(),
                Some(DispatchError::UnknownAlgorithm)
            );
        }
    }
    assert_eq!(
        generate_keys(Algorithm::Unknown, Variant::Unknown).err(),
        Some(DispatchError::UnknownAlgorithm)
    );
}

#[test]
fn a_pair_outside_the_taxonomy_is_refused_as_invalid_variant() {
    let mut refused = 0;
    for algorithm in algorithms() {
        for family in algorithms() {
            for variant in variants_of(family) {
                if !is_valid(algorithm, variant) {
                    assert_eq!(
                        generate_keys(algorithm, variant).err(),
                        Some(DispatchError::InvalidVariant { algorithm, variant })
                    );
                    refused += 1;
                }
            }
        }
        assert_eq!(
            generate_keys(algorithm, Variant::Unknown).err(),
            Some(DispatchError::InvalidVariant { algorithm, variant: Variant::Unknown })
        );
    }
    assert_eq!(refused, 6 * 35 - 35);
}

#[test]
fn a_variant_of_another_kem_is_not_substituted() {
    assert_eq!(
        generate_keys(Algorithm::MLKEM, Variant::HQC128).err(),
        Some(DispatchError::InvalidVariant {
            algorithm: Algorithm::MLKEM,
            variant: Variant::HQC128
        })
    );
}

#[test]
fn key_material_takes_the_buffers_as_they_are() {
    let material = KeyMaterial::new(vec![1, 2, 3], vec![4, 5]);
    assert_eq!(material.public, vec![1, 2, 3]);
    assert_eq!(material.secret, vec![4, 5]);
}

#[test]
fn wiped_key_material_holds_no_bytes() {
    let mut material = generate_keys(Algorithm::MLDSA, Variant::MLDSA44).expect("a valid pair");
    assert_eq!(material.secret.len(), 2560);
    material.wipe();
    assert!(material.public.is_empty());
    assert!(material.secret.is_empty());
}
