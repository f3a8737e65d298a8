//! The closed taxonomy of algorithms and variants.
//!
//! Every other module goes through the definitions here: the family that a
//! variant belongs to, the ordered list of variants of a family, the default
//! variant and the command-line labels.

use vstd::prelude::*;

verus! {

/// A family of post-quantum algorithms, or `Unknown` for a token that names none.
#[derive(Debug, Clone, Copy, PartialEq, Eq, Hash, Structural)]
pub enum Algorithm {
    MLKEM,
    HQC,
    McEliece,
    FALCON,
    MLDSA,
    SPHINCSPlus,
    Unknown,
}

/// A parameter set. Each one but `Unknown` belongs to exactly one [`Algorithm`].
#[derive(Debug, Clone, Copy, PartialEq, Eq, Hash, Structural)]
pub enum Variant {
    MLKEM512,
    MLKEM768,
    MLKEM1024,
    HQC128,
    HQC192,
    HQC256,
    McEliece348864,
    McEliece348864f,
    McEliece460896,
    McEliece460896f,
    McEliece6688128,
    McEliece6688128f,
    McEliece6960119,
    McEliece6960119f,
    McEliece8192128,
    McEliece8192128f,
    FALCONNoPad512,
    FALCONNoPad1024,
    FALCONPadded512,
    FALCONPadded1024,
    MLDSA44,
    MLDSA65,
    MLDSA87,
    SPHINCSsha2128fsimple,
    SPHINCSsha2128ssimple,
    SPHINCSsha2192fsimple,
    SPHINCSsha2192ssimple,
    SPHINCSsha2256fsimple,
    SPHINCSsha2256ssimple,
    SPHINCSshake128fsimple,
    SPHINCSshake128ssimple,
    SPHINCSshake192fsimple,
    SPHINCSshake192ssimple,
    SPHINCSshake256fsimple,
    SPHINCSshake256ssimple,
    Unknown,
}

/// The family that owns a variant; `Unknown` owns only `Unknown`.
pub open spec fn family_of(v: Variant) -> Algorithm {
    match v {
        Variant::MLKEM512 | Variant::MLKEM768 | Variant::MLKEM1024 => Algorithm::MLKEM,
        Variant::HQC128 | Variant::HQC192 | Variant::HQC256 => Algorithm::HQC,
        Variant::McEliece348864
        | Variant::McEliece348864f
        | Variant::McEliece460896
        | Variant::McEliece460896f
        | Variant::McEliece6688128
        | Variant::McEliece6688128f
        | Variant::McEliece6960119
        | Variant::McEliece6960119f
        | Variant::McEliece8192128
        | Variant::McEliece8192128f => Algorithm::McEliece,
        Variant::FALCONNoPad512
        | Variant::FALCONNoPad1024
        | Variant::FALCONPadded512
        | Variant::FALCONPadded1024 => Algorithm::FALCON,
        Variant::MLDSA44 | Variant::MLDSA65 | Variant::MLDSA87 => Algorithm::MLDSA,
        Variant::SPHINCSsha2128fsimple
        | Variant::SPHINCSsha2128ssimple
        | Variant::SPHINCSsha2192fsimple
        | Variant::SPHINCSsha2192ssimple
        | Variant::SPHINCSsha2256fsimple
        | Variant::SPHINCSsha2256ssimple
        | Variant::SPHINCSshake128fsimple
        | Variant::SPHINCSshake128ssimple
        | Variant::SPHINCSshake192fsimple
        | Variant::SPHINCSshake192ssimple
        | Variant::SPHINCSshake256fsimple
        | Variant::SPHINCSshake256ssimple => Algorithm::SPHINCSPlus,
        Variant::Unknown => Algorithm::Unknown,
    }
}

/// The pairs of the taxonomy: a known family together with one of its own variants.
pub open spec fn is_valid_pair(a: Algorithm, v: Variant) -> bool {
    a != Algorithm::Unknown && family_of(v) == a
}

/// The variants of a family, weakest parameters first. Empty for `Unknown`.
pub open spec fn variant_list(a: Algorithm) -> Seq<Variant> {
    match a {
        Algorithm::MLKEM => seq![Variant::MLKEM512, Variant::MLKEM768, Variant::MLKEM1024],
        Algorithm::HQC => seq![Variant::HQC128, Variant::HQC192, Variant::HQC256],
        Algorithm::McEliece => seq![
            Variant::McEliece348864,
            Variant::McEliece348864f,
            Variant::McEliece460896,
            Variant::McEliece460896f,
            Variant::McEliece6688128,
            Variant::McEliece6688128f,
            Variant::McEliece6960119,
            Variant::McEliece6960119f,
            Variant::McEliece8192128,
            Variant::McEliece8192128f,
        ],
        Algorithm::FALCON => seq![
            Variant::FALCONNoPad512,
            Variant::FALCONNoPad1024,
            Variant::FALCONPadded512,
            Variant::FALCONPadded1024,
        ],
        Algorithm::MLDSA => seq![Variant::MLDSA44, Variant::MLDSA65, Variant::MLDSA87],
        Algorithm::SPHINCSPlus => seq![
            Variant::SPHINCSsha2128fsimple,
            Variant::SPHINCSsha2128ssimple,
            Variant::SPHINCSsha2192fsimple,
            Variant::SPHINCSsha2192ssimple,
            Variant::SPHINCSsha2256fsimple,
            Variant::SPHINCSsha2256ssimple,
            Variant::SPHINCSshake128fsimple,
            Variant::SPHINCSshake128ssimple,
            Variant::SPHINCSshake192fsimple,
            Variant::SPHINCSshake192ssimple,
            Variant::SPHINCSshake256fsimple,
            Variant::SPHINCSshake256ssimple,
        ],
        Algorithm::Unknown => Seq::empty(),
    }
}

/// The variant used when the caller names none: the first of the family's list,
/// and `Unknown` for the `Unknown` family.
pub open spec fn default_variant(a: Algorithm) -> Variant {
    if variant_list(a).len() > 0 {
        variant_list(a)[0]
    } else {
        Variant::Unknown
    }
}

/// The six known families, in the order in which their aliases are tried.
pub open spec fn known_algorithms() -> Seq<Algorithm> {
    seq![
        Algorithm::MLKEM,
        Algorithm::HQC,
        Algorithm::McEliece,
        Algorithm::FALCON,
        Algorithm::MLDSA,
        Algorithm::SPHINCSPlus,
    ]
}

/// Returns the family that owns `variant`.
pub fn algorithm_of(variant: Variant) -> (a: Algorithm)
    ensures
        a == family_of(variant),
{
    match variant {
        Variant::MLKEM512 | Variant::MLKEM768 | Variant::MLKEM1024 => Algorithm::MLKEM,
        Variant::HQC128 | Variant::HQC192 | Variant::HQC256 => Algorithm::HQC,
        Variant::FALCONNoPad512
        | Variant::FALCONNoPad1024
        | Variant::FALCONPadded512
        | Variant::FALCONPadded1024 => Algorithm::FALCON,
        Variant::MLDSA44 | Variant::MLDSA65 | Variant::MLDSA87 => Algorithm::MLDSA,
        Variant::McEliece348864
        | Variant::McEliece348864f
        | Variant::McEliece460896
        | Variant::McEliece460896f
        | Variant::McEliece6688128
        | Variant::McEliece6688128f
        | Variant::McEliece6960119
        | Variant::McEliece6960119f
        | Variant::McEliece8192128
        | Variant::McEliece8192128f => Algorithm::McEliece,
        Variant::Unknown => Algorithm::Unknown,
        _ => Algorithm::SPHINCSPlus,
    }
}

/// Membership of `variant` in the fixed variant set of `algorithm`.
pub fn is_valid(algorithm: Algorithm, variant: Variant) -> (ok: bool)
    ensures
        ok == is_valid_pair(algorithm, variant),
{
    algorithm != Algorithm::Unknown && algorithm_of(variant) == algorithm
}

/// The default variant of a family: its lowest parameter set.
pub fn minimal_variant_for_algorithm(algo: Algorithm) -> (v: Variant)
    ensures
        v == default_variant(algo),
        algo != Algorithm::Unknown ==> is_valid_pair(algo, v),
        algo == Algorithm::Unknown ==> v == Variant::Unknown,
{
    match algo {
        Algorithm::MLKEM => Variant::MLKEM512,
        Algorithm::HQC => Variant::HQC128,
        Algorithm::McEliece => Variant::McEliece348864,
        Algorithm::FALCON => Variant::FALCONNoPad512,
        Algorithm::MLDSA => Variant::MLDSA44,
        Algorithm::SPHINCSPlus => Variant::SPHINCSsha2128fsimple,
        Algorithm::Unknown => Variant::Unknown,
    }
}

/// The variants of a family in their fixed order.
pub fn variants_of(algo: Algorithm) -> (list: Vec<Variant>)
    ensures
        list@ == variant_list(algo),
{
    let mut list: Vec<Variant> = Vec::new();
    match algo {
        Algorithm::MLKEM => {
            list.push(Variant::MLKEM512);
            list.push(Variant::MLKEM768);
            list.push(Variant::MLKEM1024);
        },
        Algorithm::HQC => {
            list.push(Variant::HQC128);
            list.push(Variant::HQC192);
            list.push(Variant::HQC256);
        },
        Algorithm::McEliece => {
            list.push(Variant::McEliece348864);
            list.push(Variant::McEliece348864f);
            list.push(Variant::McEliece460896);
            list.push(Variant::McEliece460896f);
            list.push(Variant::McEliece6688128);
            list.push(Variant::McEliece6688128f);
            list.push(Variant::McEliece6960119);
            list.push(Variant::McEliece6960119f);
            list.push(Variant::McEliece8192128);
            list.push(Variant::McEliece8192128f);
        },
        Algorithm::FALCON => {
            list.push(Variant::FALCONNoPad512);
            list.push(Variant::FALCONNoPad1024);
            list.push(Variant::FALCONPadded512);
            list.push(Variant::FALCONPadded1024);
        },
        Algorithm::MLDSA => {
            list.push(Variant::MLDSA44);
            list.push(Variant::MLDSA65);
            list.push(Variant::MLDSA87);
        },
        Algorithm::SPHINCSPlus => {
            list.push(Variant::SPHINCSsha2128fsimple);
            list.push(Variant::SPHINCSsha2128ssimple);
            list.push(Variant::SPHINCSsha2192fsimple);
            list.push(Variant::SPHINCSsha2192ssimple);
            list.push(Variant::SPHINCSsha2256fsimple);
            list.push(Variant::SPHINCSsha2256ssimple);
            list.push(Variant::SPHINCSshake128fsimple);
            list.push(Variant::SPHINCSshake128ssimple);
            list.push(Variant::SPHINCSshake192fsimple);
            list.push(Variant::SPHINCSshake192ssimple);
            list.push(Variant::SPHINCSshake256fsimple);
            list.push(Variant::SPHINCSshake256ssimple);
        },
        Algorithm::Unknown => {},
    }
    list
}

/// The six known families in their fixed order.
pub fn algorithms() -> (list: Vec<Algorithm>)
    ensures
        list@ == known_algorithms(),
{
    let mut list: Vec<Algorithm> = Vec::new();
    list.push(Algorithm::MLKEM);
    list.push(Algorithm::HQC);
    list.push(Algorithm::McEliece);
    list.push(Algorithm::FALCON);
    list.push(Algorithm::MLDSA);
    list.push(Algorithm::SPHINCSPlus);
    list
}

/// The default variant of every family is one of that family's own variants.
pub proof fn lemma_default_variant_is_valid(a: Algorithm)
    requires
        a != Algorithm::Unknown,
    ensures
        is_valid_pair(a, default_variant(a)),
{
}

/// A variant is valid for at most one family, and every variant but `Unknown`
/// is valid for the family that owns it.
pub proof fn lemma_variant_has_one_family(a: Algorithm, b: Algorithm, v: Variant)
    ensures
        is_valid_pair(a, v) && is_valid_pair(b, v) ==> a == b,
        v != Variant::Unknown ==> is_valid_pair(family_of(v), v),
        !is_valid_pair(a, Variant::Unknown),
        !is_valid_pair(Algorithm::Unknown, v),
{
}

/// The list of a family holds exactly the variants that are valid for it,
/// each of them once.
pub proof fn lemma_variant_list_is_the_valid_set(a: Algorithm, v: Variant)
    ensures
        variant_list(a).contains(v) <==> is_valid_pair(a, v),
        variant_list(a).no_duplicates(),
{
    let list = variant_list(a);
    if is_valid_pair(a, v) {
        lemma_position_in_family(v);
    }
    assert forall|i: int| 0 <= i < list.len() implies is_valid_pair(a, #[trigger] list[i]) by {
        lemma_variant_list_entries(a, i);
    }
    assert forall|i: int, j: int|
        0 <= i < list.len() && 0 <= j < list.len() && i != j implies list[i] != list[j] by {
        lemma_variant_list_distinct(a, i, j);
    }
}

/// The place of a variant in the list of its family.
pub open spec fn position_in_family(v: Variant) -> int {
    match v {
        Variant::MLKEM512 => 0,
        Variant::MLKEM768 => 1,
        Variant::MLKEM1024 => 2,
        Variant::HQC128 => 0,
        Variant::HQC192 => 1,
        Variant::HQC256 => 2,
        Variant::McEliece348864 => 0,
        Variant::McEliece348864f => 1,
        Variant::McEliece460896 => 2,
        Variant::McEliece460896f => 3,
        Variant::McEliece6688128 => 4,
        Variant::McEliece6688128f => 5,
        Variant::McEliece6960119 => 6,
        Variant::McEliece6960119f => 7,
        Variant::McEliece8192128 => 8,
        Variant::McEliece8192128f => 9,
        Variant::FALCONNoPad512 => 0,
        Variant::FALCONNoPad1024 => 1,
        Variant::FALCONPadded512 => 2,
        Variant::FALCONPadded1024 => 3,
        Variant::MLDSA44 => 0,
        Variant::MLDSA65 => 1,
        Variant::MLDSA87 => 2,
        Variant::SPHINCSsha2128fsimple => 0,
        Variant::SPHINCSsha2128ssimple => 1,
        Variant::SPHINCSsha2192fsimple => 2,
        Variant::SPHINCSsha2192ssimple => 3,
        Variant::SPHINCSsha2256fsimple => 4,
        Variant::SPHINCSsha2256ssimple => 5,
        Variant::SPHINCSshake128fsimple => 6,
        Variant::SPHINCSshake128ssimple => 7,
        Variant::SPHINCSshake192fsimple => 8,
        Variant::SPHINCSshake192ssimple => 9,
        Variant::SPHINCSshake256fsimple => 10,
        Variant::SPHINCSshake256ssimple => 11,
        Variant::Unknown => 0,
    }
}

/// Every variant but `Unknown` stands in the list of its family, at its position.
pub proof fn lemma_position_in_family(v: Variant)
    requires
        v != Variant::Unknown,
    ensures
        0 <= position_in_family(v) < variant_list(family_of(v)).len(),
        variant_list(family_of(v))[position_in_family(v)] == v,
{
}

proof fn lemma_variant_list_entries(a: Algorithm, i: int)
    requires
        0 <= i < variant_list(a).len(),
    ensures
        is_valid_pair(a, variant_list(a)[i]),
        position_in_family(variant_list(a)[i]) == i,
{
}

proof fn lemma_variant_list_distinct(a: Algorithm, i: int, j: int)
    requires
        0 <= i < variant_list(a).len(),
        0 <= j < variant_list(a).len(),
        i != j,
    ensures
        variant_list(a)[i] != variant_list(a)[j],
{
    lemma_variant_list_entries(a, i);
    lemma_variant_list_entries(a, j);
}

} // verus!
