//! The spellings of the taxonomy: the aliases under which an algorithm is
//! accepted and the label of each variant, with the parsers that read them.

use crate::taxonomy::{
    is_valid_pair, lemma_variant_list_is_the_valid_set, variant_list, variants_of, Algorithm,
    Variant,
};
use crate::text::{lowercase, same_text, to_lower};
use vstd::prelude::*;

verus! {

pub const ALIAS_MLKEM: &'static str = "mlkem";

pub const ALIAS_ML_KEM: &'static str = "ml-kem";

pub const ALIAS_HQC: &'static str = "hqc";

pub const ALIAS_MCE: &'static str = "mce";

pub const ALIAS_MCELIECE: &'static str = "mceliece";

pub const ALIAS_FALCON: &'static str = "falcon";

pub const ALIAS_MLDSA: &'static str = "mldsa";

pub const ALIAS_ML_DSA: &'static str = "ml-dsa";

pub const ALIAS_SPH: &'static str = "sph";

pub const ALIAS_SPHINCS: &'static str = "sphincs";

pub const ALIAS_SPHINCS_PLUS: &'static str = "sphincs+";

pub const LABEL_MLKEM512: &'static str = "512";

pub const LABEL_MLKEM768: &'static str = "768";

pub const LABEL_MLKEM1024: &'static str = "1024";

pub const LABEL_HQC128: &'static str = "128";

pub const LABEL_HQC192: &'static str = "192";

pub const LABEL_HQC256: &'static str = "256";

pub const LABEL_MCELIECE348864: &'static str = "348864";

pub const LABEL_MCELIECE348864F: &'static str = "348864f";

pub const LABEL_MCELIECE460896: &'static str = "460896";

pub const LABEL_MCELIECE460896F: &'static str = "460896f";

pub const LABEL_MCELIECE6688128: &'static str = "6688128";

pub const LABEL_MCELIECE6688128F: &'static str = "6688128f";

pub const LABEL_MCELIECE6960119: &'static str = "6960119";

pub const LABEL_MCELIECE6960119F: &'static str = "6960119f";

pub const LABEL_MCELIECE8192128: &'static str = "8192128";

pub const LABEL_MCELIECE8192128F: &'static str = "8192128f";

pub const LABEL_FALCONNOPAD512: &'static str = "nopad512";

pub const LABEL_FALCONNOPAD1024: &'static str = "nopad1024";

pub const LABEL_FALCONPADDED512: &'static str = "padded512";

pub const LABEL_FALCONPADDED1024: &'static str = "padded1024";

pub const LABEL_MLDSA44: &'static str = "44";

pub const LABEL_MLDSA65: &'static str = "65";

pub const LABEL_MLDSA87: &'static str = "87";

pub const LABEL_SPHINCSSHA2128FSIMPLE: &'static str = "sha2_128f_simple";

pub const LABEL_SPHINCSSHA2128SSIMPLE: &'static str = "sha2_128s_simple";

pub const LABEL_SPHINCSSHA2192FSIMPLE: &'static str = "sha2_192f_simple";

pub const LABEL_SPHINCSSHA2192SSIMPLE: &'static str = "sha2_192s_simple";

pub const LABEL_SPHINCSSHA2256FSIMPLE: &'static str = "sha2_256f_simple";

pub const LABEL_SPHINCSSHA2256SSIMPLE: &'static str = "sha2_256s_simple";

pub const LABEL_SPHINCSSHAKE128FSIMPLE: &'static str = "shake_128f_simple";

pub const LABEL_SPHINCSSHAKE128SSIMPLE: &'static str = "shake_128s_simple";

pub const LABEL_SPHINCSSHAKE192FSIMPLE: &'static str = "shake_192f_simple";

pub const LABEL_SPHINCSSHAKE192SSIMPLE: &'static str = "shake_192s_simple";

pub const LABEL_SPHINCSSHAKE256FSIMPLE: &'static str = "shake_256f_simple";

pub const LABEL_SPHINCSSHAKE256SSIMPLE: &'static str = "shake_256s_simple";

pub const LABEL_UNKNOWN: &'static str = "";

/// The spellings under which a family is accepted, in lower case. The first
/// one is the family's own name on the command line.
pub open spec fn aliases(a: Algorithm) -> Seq<Seq<char>> {
    match a {
        Algorithm::MLKEM => seq![ALIAS_MLKEM@, ALIAS_ML_KEM@],
        Algorithm::HQC => seq![ALIAS_HQC@],
        Algorithm::McEliece => seq![ALIAS_MCELIECE@, ALIAS_MCE@],
        Algorithm::FALCON => seq![ALIAS_FALCON@],
        Algorithm::MLDSA => seq![ALIAS_MLDSA@, ALIAS_ML_DSA@],
        Algorithm::SPHINCSPlus => seq![ALIAS_SPHINCS_PLUS@, ALIAS_SPH@, ALIAS_SPHINCS@],
        Algorithm::Unknown => Seq::empty(),
    }
}

/// The family that a lower-case token names, `Unknown` where it names none.
pub open spec fn algorithm_named(token: Seq<char>) -> Algorithm {
    if aliases(Algorithm::MLKEM).contains(token) {
        Algorithm::MLKEM
    } else if aliases(Algorithm::HQC).contains(token) {
        Algorithm::HQC
    } else if aliases(Algorithm::McEliece).contains(token) {
        Algorithm::McEliece
    } else if aliases(Algorithm::FALCON).contains(token) {
        Algorithm::FALCON
    } else if aliases(Algorithm::MLDSA).contains(token) {
        Algorithm::MLDSA
    } else if aliases(Algorithm::SPHINCSPlus).contains(token) {
        Algorithm::SPHINCSPlus
    } else {
        Algorithm::Unknown
    }
}

/// The name of a family on the command line: the first of its aliases, and
/// the empty text for `Unknown`.
pub open spec fn algorithm_label(a: Algorithm) -> Seq<char> {
    if aliases(a).len() > 0 {
        aliases(a)[0]
    } else {
        LABEL_UNKNOWN@
    }
}

/// The label of a variant on the command line; empty for `Unknown`.
pub open spec fn variant_label(v: Variant) -> Seq<char> {
    match v {
        Variant::MLKEM512 => LABEL_MLKEM512@,
        Variant::MLKEM768 => LABEL_MLKEM768@,
        Variant::MLKEM1024 => LABEL_MLKEM1024@,
        Variant::HQC128 => LABEL_HQC128@,
        Variant::HQC192 => LABEL_HQC192@,
        Variant::HQC256 => LABEL_HQC256@,
        Variant::McEliece348864 => LABEL_MCELIECE348864@,
        Variant::McEliece348864f => LABEL_MCELIECE348864F@,
        Variant::McEliece460896 => LABEL_MCELIECE460896@,
        Variant::McEliece460896f => LABEL_MCELIECE460896F@,
        Variant::McEliece6688128 => LABEL_MCELIECE6688128@,
        Variant::McEliece6688128f => LABEL_MCELIECE6688128F@,
        Variant::McEliece6960119 => LABEL_MCELIECE6960119@,
        Variant::McEliece6960119f => LABEL_MCELIECE6960119F@,
        Variant::McEliece8192128 => LABEL_MCELIECE8192128@,
        Variant::McEliece8192128f => LABEL_MCELIECE8192128F@,
        Variant::FALCONNoPad512 => LABEL_FALCONNOPAD512@,
        Variant::FALCONNoPad1024 => LABEL_FALCONNOPAD1024@,
        Variant::FALCONPadded512 => LABEL_FALCONPADDED512@,
        Variant::FALCONPadded1024 => LABEL_FALCONPADDED1024@,
        Variant::MLDSA44 => LABEL_MLDSA44@,
        Variant::MLDSA65 => LABEL_MLDSA65@,
        Variant::MLDSA87 => LABEL_MLDSA87@,
        Variant::SPHINCSsha2128fsimple => LABEL_SPHINCSSHA2128FSIMPLE@,
        Variant::SPHINCSsha2128ssimple => LABEL_SPHINCSSHA2128SSIMPLE@,
        Variant::SPHINCSsha2192fsimple => LABEL_SPHINCSSHA2192FSIMPLE@,
        Variant::SPHINCSsha2192ssimple => LABEL_SPHINCSSHA2192SSIMPLE@,
        Variant::SPHINCSsha2256fsimple => LABEL_SPHINCSSHA2256FSIMPLE@,
        Variant::SPHINCSsha2256ssimple => LABEL_SPHINCSSHA2256SSIMPLE@,
        Variant::SPHINCSshake128fsimple => LABEL_SPHINCSSHAKE128FSIMPLE@,
        Variant::SPHINCSshake128ssimple => LABEL_SPHINCSSHAKE128SSIMPLE@,
        Variant::SPHINCSshake192fsimple => LABEL_SPHINCSSHAKE192FSIMPLE@,
        Variant::SPHINCSshake192ssimple => LABEL_SPHINCSSHAKE192SSIMPLE@,
        Variant::SPHINCSshake256fsimple => LABEL_SPHINCSSHAKE256FSIMPLE@,
        Variant::SPHINCSshake256ssimple => LABEL_SPHINCSSHAKE256SSIMPLE@,
        Variant::Unknown => LABEL_UNKNOWN@,
    }
}

/// `v` is the variant of family `a` with the label `token`.
pub open spec fn is_labelled(a: Algorithm, token: Seq<char>, v: Variant) -> bool {
    is_valid_pair(a, v) && variant_label(v) == token
}

/// The variant of a family that a lower-case token names, `Unknown` where
/// the family has none with that label.
pub open spec fn variant_named(a: Algorithm, token: Seq<char>) -> Variant {
    if exists|v: Variant| is_labelled(a, token, v) {
        choose|v: Variant| is_labelled(a, token, v)
    } else {
        Variant::Unknown
    }
}

/// The name of a family on the command line.
pub fn algorithm_name(a: Algorithm) -> (name: &'static str)
    ensures
        name@ == algorithm_label(a),
{
    match a {
        Algorithm::MLKEM => ALIAS_MLKEM,
        Algorithm::HQC => ALIAS_HQC,
        Algorithm::McEliece => ALIAS_MCELIECE,
        Algorithm::FALCON => ALIAS_FALCON,
        Algorithm::MLDSA => ALIAS_MLDSA,
        Algorithm::SPHINCSPlus => ALIAS_SPHINCS_PLUS,
        Algorithm::Unknown => LABEL_UNKNOWN,
    }
}

/// The label of a variant on the command line.
pub fn variant_name(v: Variant) -> (name: &'static str)
    ensures
        name@ == variant_label(v),
{
    match v {
        Variant::MLKEM512 => LABEL_MLKEM512,
        Variant::MLKEM768 => LABEL_MLKEM768,
        Variant::MLKEM1024 => LABEL_MLKEM1024,
        Variant::HQC128 => LABEL_HQC128,
        Variant::HQC192 => LABEL_HQC192,
        Variant::HQC256 => LABEL_HQC256,
        Variant::McEliece348864 => LABEL_MCELIECE348864,
        Variant::McEliece348864f => LABEL_MCELIECE348864F,
        Variant::McEliece460896 => LABEL_MCELIECE460896,
        Variant::McEliece460896f => LABEL_MCELIECE460896F,
        Variant::McEliece6688128 => LABEL_MCELIECE6688128,
        Variant::McEliece6688128f => LABEL_MCELIECE6688128F,
        Variant::McEliece6960119 => LABEL_MCELIECE6960119,
        Variant::McEliece6960119f => LABEL_MCELIECE6960119F,
        Variant::McEliece8192128 => LABEL_MCELIECE8192128,
        Variant::McEliece8192128f => LABEL_MCELIECE8192128F,
        Variant::FALCONNoPad512 => LABEL_FALCONNOPAD512,
        Variant::FALCONNoPad1024 => LABEL_FALCONNOPAD1024,
        Variant::FALCONPadded512 => LABEL_FALCONPADDED512,
        Variant::FALCONPadded1024 => LABEL_FALCONPADDED1024,
        Variant::MLDSA44 => LABEL_MLDSA44,
        Variant::MLDSA65 => LABEL_MLDSA65,
        Variant::MLDSA87 => LABEL_MLDSA87,
        Variant::SPHINCSsha2128fsimple => LABEL_SPHINCSSHA2128FSIMPLE,
        Variant::SPHINCSsha2128ssimple => LABEL_SPHINCSSHA2128SSIMPLE,
        Variant::SPHINCSsha2192fsimple => LABEL_SPHINCSSHA2192FSIMPLE,
        Variant::SPHINCSsha2192ssimple => LABEL_SPHINCSSHA2192SSIMPLE,
        Variant::SPHINCSsha2256fsimple => LABEL_SPHINCSSHA2256FSIMPLE,
        Variant::SPHINCSsha2256ssimple => LABEL_SPHINCSSHA2256SSIMPLE,
        Variant::SPHINCSshake128fsimple => LABEL_SPHINCSSHAKE128FSIMPLE,
        Variant::SPHINCSshake128ssimple => LABEL_SPHINCSSHAKE128SSIMPLE,
        Variant::SPHINCSshake192fsimple => LABEL_SPHINCSSHAKE192FSIMPLE,
        Variant::SPHINCSshake192ssimple => LABEL_SPHINCSSHAKE192SSIMPLE,
        Variant::SPHINCSshake256fsimple => LABEL_SPHINCSSHAKE256FSIMPLE,
        Variant::SPHINCSshake256ssimple => LABEL_SPHINCSSHAKE256SSIMPLE,
        Variant::Unknown => LABEL_UNKNOWN,
    }
}

/// The length of every alias and the characters that tell the aliases apart.
proof fn lemma_alias_shapes()
    ensures
        ALIAS_MLKEM@.len() == 5 && ALIAS_MLKEM@[0] == 'm' && ALIAS_MLKEM@[3] == 'e',
        ALIAS_ML_KEM@.len() == 6 && ALIAS_ML_KEM@[0] == 'm' && ALIAS_ML_KEM@[3] == 'k',
        ALIAS_HQC@.len() == 3 && ALIAS_HQC@[0] == 'h',
        ALIAS_MCE@.len() == 3 && ALIAS_MCE@[0] == 'm',
        ALIAS_MCELIECE@.len() == 8 && ALIAS_MCELIECE@[0] == 'm' && ALIAS_MCELIECE@[3] == 'l',
        ALIAS_FALCON@.len() == 6 && ALIAS_FALCON@[0] == 'f' && ALIAS_FALCON@[3] == 'c',
        ALIAS_MLDSA@.len() == 5 && ALIAS_MLDSA@[0] == 'm' && ALIAS_MLDSA@[3] == 's',
        ALIAS_ML_DSA@.len() == 6 && ALIAS_ML_DSA@[0] == 'm' && ALIAS_ML_DSA@[3] == 'd',
        ALIAS_SPH@.len() == 3 && ALIAS_SPH@[0] == 's',
        ALIAS_SPHINCS@.len() == 7 && ALIAS_SPHINCS@[0] == 's' && ALIAS_SPHINCS@[3] == 'i',
        ALIAS_SPHINCS_PLUS@.len() == 8 && ALIAS_SPHINCS_PLUS@[0] == 's'
            && ALIAS_SPHINCS_PLUS@[3] == 'i',
{
    reveal_strlit("mlkem");
    reveal_strlit("ml-kem");
    reveal_strlit("hqc");
    reveal_strlit("mce");
    reveal_strlit("mceliece");
    reveal_strlit("falcon");
    reveal_strlit("mldsa");
    reveal_strlit("ml-dsa");
    reveal_strlit("sph");
    reveal_strlit("sphincs");
    reveal_strlit("sphincs+");
}

/// A token is an alias of a family exactly when it is one of the family's spellings.
proof fn lemma_alias_membership(token: Seq<char>)
    ensures
        aliases(Algorithm::MLKEM).contains(token) <==> (token == ALIAS_MLKEM@
            || token == ALIAS_ML_KEM@),
        aliases(Algorithm::HQC).contains(token) <==> (token == ALIAS_HQC@),
        aliases(Algorithm::McEliece).contains(token) <==> (token == ALIAS_MCE@
            || token == ALIAS_MCELIECE@),
        aliases(Algorithm::FALCON).contains(token) <==> (token == ALIAS_FALCON@),
        aliases(Algorithm::MLDSA).contains(token) <==> (token == ALIAS_MLDSA@
            || token == ALIAS_ML_DSA@),
        aliases(Algorithm::SPHINCSPlus).contains(token) <==> (token == ALIAS_SPH@
            || token == ALIAS_SPHINCS@ || token == ALIAS_SPHINCS_PLUS@),
{
    assert(aliases(Algorithm::MLKEM)[0] == ALIAS_MLKEM@);
    assert(aliases(Algorithm::MLKEM)[1] == ALIAS_ML_KEM@);
    assert(aliases(Algorithm::HQC)[0] == ALIAS_HQC@);
    assert(aliases(Algorithm::McEliece)[0] == ALIAS_MCELIECE@);
    assert(aliases(Algorithm::McEliece)[1] == ALIAS_MCE@);
    assert(aliases(Algorithm::FALCON)[0] == ALIAS_FALCON@);
    assert(aliases(Algorithm::MLDSA)[0] == ALIAS_MLDSA@);
    assert(aliases(Algorithm::MLDSA)[1] == ALIAS_ML_DSA@);
    assert(aliases(Algorithm::SPHINCSPlus)[0] == ALIAS_SPHINCS_PLUS@);
    assert(aliases(Algorithm::SPHINCSPlus)[1] == ALIAS_SPH@);
    assert(aliases(Algorithm::SPHINCSPlus)[2] == ALIAS_SPHINCS@);
}

/// The family that a lower-case token names.
pub fn algorithm_from_token(token: &str) -> (a: Algorithm)
    ensures
        a == algorithm_named(token@),
{
    proof {
        lemma_alias_membership(token@);
    }
    if same_text(token, ALIAS_MLKEM) || same_text(token, ALIAS_ML_KEM) {
        Algorithm::MLKEM
    } else if same_text(token, ALIAS_HQC) {
        Algorithm::HQC
    } else if same_text(token, ALIAS_MCE) || same_text(token, ALIAS_MCELIECE) {
        Algorithm::McEliece
    } else if same_text(token, ALIAS_FALCON) {
        Algorithm::FALCON
    } else if same_text(token, ALIAS_MLDSA) || same_text(token, ALIAS_ML_DSA) {
        Algorithm::MLDSA
    } else if same_text(token, ALIAS_SPH) || same_text(token, ALIAS_SPHINCS)
        || same_text(token, ALIAS_SPHINCS_PLUS) {
        Algorithm::SPHINCSPlus
    } else {
        Algorithm::Unknown
    }
}

/// Reads the name of an algorithm, in any mix of upper and lower case.
/// A token that names no algorithm gives `Unknown`; the result is never `None`.
pub fn parse_algorithm(input: &str) -> (a: Option<Algorithm>)
    ensures
        a == Some(algorithm_named(lowercase(input@))),
{
    let token = to_lower(input);
    Some(algorithm_from_token(token.as_str()))
}

/// The length of every label and the characters that tell the labels apart.
proof fn lemma_label_shape(v: Variant)
    ensures
        match v {
            Variant::MLKEM512 => variant_label(v).len() == 3 && variant_label(v)[1] == '1',
            Variant::MLKEM768 => variant_label(v).len() == 3 && variant_label(v)[1] == '6',
            Variant::MLKEM1024 => variant_label(v).len() == 4 && variant_label(v)[1] == '0',
            Variant::HQC128 => variant_label(v).len() == 3 && variant_label(v)[1] == '2',
            Variant::HQC192 => variant_label(v).len() == 3 && variant_label(v)[1] == '9',
            Variant::HQC256 => variant_label(v).len() == 3 && variant_label(v)[1] == '5',
            Variant::McEliece348864 => variant_label(v).len() == 6 && variant_label(v)[1] == '4',
            Variant::McEliece348864f => variant_label(v).len() == 7 && variant_label(v)[1] == '4'
                && variant_label(v)[6] == 'f',
            Variant::McEliece460896 => variant_label(v).len() == 6 && variant_label(v)[1] == '6',
            Variant::McEliece460896f => variant_label(v).len() == 7 && variant_label(v)[1] == '6'
                && variant_label(v)[6] == 'f',
            Variant::McEliece6688128 => variant_label(v).len() == 7 && variant_label(v)[1] == '6'
                && variant_label(v)[6] == '8',
            Variant::McEliece6688128f => variant_label(v).len() == 8 && variant_label(v)[1] == '6'
                && variant_label(v)[6] == '8',
            Variant::McEliece6960119 => variant_label(v).len() == 7 && variant_label(v)[1] == '9'
                && variant_label(v)[6] == '9',
            Variant::McEliece6960119f => variant_label(v).len() == 8 && variant_label(v)[1] == '9'
                && variant_label(v)[6] == '9',
            Variant::McEliece8192128 => variant_label(v).len() == 7 && variant_label(v)[1] == '1'
                && variant_label(v)[6] == '8',
            Variant::McEliece8192128f => variant_label(v).len() == 8 && variant_label(v)[1] == '1'
                && variant_label(v)[6] == '8',
            Variant::FALCONNoPad512 => variant_label(v).len() == 8 && variant_label(v)[1] == 'o'
                && variant_label(v)[6] == '1',
            Variant::FALCONNoPad1024 => variant_label(v).len() == 9 && variant_label(v)[1] == 'o'
                && variant_label(v)[6] == '0' && variant_label(v)[8] == '4',
            Variant::FALCONPadded512 => variant_label(v).len() == 9 && variant_label(v)[1] == 'a'
                && variant_label(v)[6] == '5' && variant_label(v)[8] == '2',
            Variant::FALCONPadded1024 => variant_label(v).len() == 10 && variant_label(v)[1] == 'a'
                && variant_label(v)[6] == '1' && variant_label(v)[8] == '2'
                && variant_label(v)[9] == '4',
            Variant::MLDSA44 => variant_label(v).len() == 2 && variant_label(v)[1] == '4',
            Variant::MLDSA65 => variant_label(v).len() == 2 && variant_label(v)[1] == '5',
            Variant::MLDSA87 => variant_label(v).len() == 2 && variant_label(v)[1] == '7',
            Variant::SPHINCSsha2128fsimple => variant_label(v).len() == 16
                && variant_label(v)[1] == 'h' && variant_label(v)[6] == '2'
                && variant_label(v)[8] == 'f' && variant_label(v)[9] == '_',
            Variant::SPHINCSsha2128ssimple => variant_label(v).len() == 16
                && variant_label(v)[1] == 'h' && variant_label(v)[6] == '2'
                && variant_label(v)[8] == 's' && variant_label(v)[9] == '_',
            Variant::SPHINCSsha2192fsimple => variant_label(v).len() == 16
                && variant_label(v)[1] == 'h' && variant_label(v)[6] == '9'
                && variant_label(v)[8] == 'f' && variant_label(v)[9] == '_',
            Variant::SPHINCSsha2192ssimple => variant_label(v).len() == 16
                && variant_label(v)[1] == 'h' && variant_label(v)[6] == '9'
                && variant_label(v)[8] == 's' && variant_label(v)[9] == '_',
            Variant::SPHINCSsha2256fsimple => variant_label(v).len() == 16
                && variant_label(v)[1] == 'h' && variant_label(v)[6] == '5'
                && variant_label(v)[8] == 'f' && variant_label(v)[9] == '_',
            Variant::SPHINCSsha2256ssimple => variant_label(v).len() == 16
                && variant_label(v)[1] == 'h' && variant_label(v)[6] == '5'
                && variant_label(v)[8] == 's' && variant_label(v)[9] == '_',
            Variant::SPHINCSshake128fsimple => variant_label(v).len() == 17
                && variant_label(v)[1] == 'h' && variant_label(v)[6] == '1'
                && variant_label(v)[8] == '8' && variant_label(v)[9] == 'f',
            Variant::SPHINCSshake128ssimple => variant_label(v).len() == 17
                && variant_label(v)[1] == 'h' && variant_label(v)[6] == '1'
                && variant_label(v)[8] == '8' && variant_label(v)[9] == 's',
            Variant::SPHINCSshake192fsimple => variant_label(v).len() == 17
                && variant_label(v)[1] == 'h' && variant_label(v)[6] == '1'
                && variant_label(v)[8] == '2' && variant_label(v)[9] == 'f',
            Variant::SPHINCSshake192ssimple => variant_label(v).len() == 17
                && variant_label(v)[1] == 'h' && variant_label(v)[6] == '1'
                && variant_label(v)[8] == '2' && variant_label(v)[9] == 's',
            Variant::SPHINCSshake256fsimple => variant_label(v).len() == 17
                && variant_label(v)[1] == 'h' && variant_label(v)[6] == '2'
                && variant_label(v)[8] == '6' && variant_label(v)[9] == 'f',
            Variant::SPHINCSshake256ssimple => variant_label(v).len() == 17
                && variant_label(v)[1] == 'h' && variant_label(v)[6] == '2'
                && variant_label(v)[8] == '6' && variant_label(v)[9] == 's',
            Variant::Unknown => variant_label(v).len() == 0,
        },
{
    reveal_strlit("");
    reveal_strlit("512");
    reveal_strlit("768");
    reveal_strlit("1024");
    reveal_strlit("128");
    reveal_strlit("192");
    reveal_strlit("256");
    reveal_strlit("348864");
    reveal_strlit("348864f");
    reveal_strlit("460896");
    reveal_strlit("460896f");
    reveal_strlit("6688128");
    reveal_strlit("6688128f");
    reveal_strlit("6960119");
    reveal_strlit("6960119f");
    reveal_strlit("8192128");
    reveal_strlit("8192128f");
    reveal_strlit("nopad512");
    reveal_strlit("nopad1024");
    reveal_strlit("padded512");
    reveal_strlit("padded1024");
    reveal_strlit("44");
    reveal_strlit("65");
    reveal_strlit("87");
    reveal_strlit("sha2_128f_simple");
    reveal_strlit("sha2_128s_simple");
    reveal_strlit("sha2_192f_simple");
    reveal_strlit("sha2_192s_simple");
    reveal_strlit("sha2_256f_simple");
    reveal_strlit("sha2_256s_simple");
    reveal_strlit("shake_128f_simple");
    reveal_strlit("shake_128s_simple");
    reveal_strlit("shake_192f_simple");
    reveal_strlit("shake_192s_simple");
    reveal_strlit("shake_256f_simple");
    reveal_strlit("shake_256s_simple");
}

/// No two variants share a label.
pub proof fn lemma_labels_are_distinct(v: Variant, w: Variant)
    ensures
        variant_label(v) == variant_label(w) ==> v == w,
{
    lemma_label_shape(v);
    lemma_label_shape(w);
}

/// The variant that a label names within a family is the one variant of the
/// family that carries the label.
pub proof fn lemma_variant_named(a: Algorithm, v: Variant)
    requires
        is_valid_pair(a, v),
    ensures
        variant_named(a, variant_label(v)) == v,
{
    assert(is_labelled(a, variant_label(v), v));
    let w = choose|w: Variant| is_labelled(a, variant_label(v), w);
    lemma_labels_are_distinct(v, w);
}

/// The variant of a family that a lower-case token names.
pub fn variant_from_token(algorithm: Algorithm, token: &str) -> (v: Variant)
    ensures
        v == variant_named(algorithm, token@),
        v == Variant::Unknown || is_valid_pair(algorithm, v),
{
    let list = variants_of(algorithm);
    let mut i: usize = 0;
    while i < list.len()
        invariant
            list@ == variant_list(algorithm),
            i <= list.len(),
            forall|j: int| 0 <= j < i ==> variant_label(#[trigger] list@[j]) != token@,
        decreases list.len() - i,
    {
        let candidate = list[i];
        if same_text(variant_name(candidate), token) {
            proof {
                lemma_variant_list_is_the_valid_set(algorithm, candidate);
                assert(is_labelled(algorithm, token@, candidate));
                let w = choose|w: Variant| is_labelled(algorithm, token@, w);
                lemma_labels_are_distinct(candidate, w);
            }
            return candidate;
        }
        i += 1;
    }
    proof {
        assert forall|w: Variant| !is_labelled(algorithm, token@, w) by {
            if is_labelled(algorithm, token@, w) {
                lemma_variant_list_is_the_valid_set(algorithm, w);
                let j = choose|j: int| 0 <= j < list@.len() && list@[j] == w;
                assert(variant_label(list@[j]) != token@);
            }
        }
    }
    Variant::Unknown
}

/// Reads the label of a variant of `algorithm`, in any mix of upper and lower
/// case. A token that is no label of the family gives `Unknown`.
pub fn parse_variant(algorithm: Algorithm, input: &str) -> (v: Variant)
    ensures
        v == variant_named(algorithm, lowercase(input@)),
        v == Variant::Unknown || is_valid_pair(algorithm, v),
{
    let token = to_lower(input);
    variant_from_token(algorithm, token.as_str())
}

/// Every alias names the one family that lists it: no spelling is shared by
/// two families.
pub proof fn lemma_alias_names_its_family(a: Algorithm, token: Seq<char>)
    requires
        aliases(a).contains(token),
    ensures
        algorithm_named(token) == a,
        a != Algorithm::Unknown,
{
    lemma_alias_membership(token);
    lemma_alias_shapes();
}

/// A token that no family lists names `Unknown`, and a token that names a
/// family is one of that family's aliases.
pub proof fn lemma_named_is_listed(token: Seq<char>)
    ensures
        algorithm_named(token) == Algorithm::Unknown <==> forall|a: Algorithm|
            !(#[trigger] aliases(a)).contains(token),
        algorithm_named(token) != Algorithm::Unknown ==> aliases(algorithm_named(token)).contains(
            token,
        ),
{
    if algorithm_named(token) == Algorithm::Unknown {
        assert forall|a: Algorithm| !(#[trigger] aliases(a)).contains(token) by {
            if aliases(a).contains(token) {
                lemma_alias_names_its_family(a, token);
            }
        }
    }
}

} // verus!
