//! The command line: what the arguments ask for, and the request that the
//! registry makes of it.

use crate::names::{
    algorithm_from_token, algorithm_named, variant_from_token, variant_label, variant_name,
    variant_named,
};
use crate::taxonomy::{default_variant, minimal_variant_for_algorithm, Algorithm, Variant};
use crate::text::{lowercase, optional_text, same_text, to_lower};
use crate::util::{finalize_paths, resolved_path, PUBLIC_EXTENSION, SECRET_EXTENSION};
use vstd::prelude::*;

verus! {

pub const FLAG_ALG: &'static str = "-alg";

pub const FLAG_ALGORITHM: &'static str = "-algorithm";

pub const FLAG_VAR: &'static str = "-var";

pub const FLAG_VARIANT: &'static str = "-variant";

pub const FLAG_PKPATH: &'static str = "-pkpath";

pub const FLAG_SKPATH: &'static str = "-skpath";

pub const FLAG_PKT: &'static str = "-pkt";

pub const FLAG_PKTEXT: &'static str = "-pktext";

pub const FLAG_SKT: &'static str = "-skt";

pub const FLAG_SKTEXT: &'static str = "-sktext";

pub const FLAG_L: &'static str = "-l";

pub const FLAG_LANG: &'static str = "-lang";

pub const FLAG_H: &'static str = "-h";

pub const FLAG_HELP: &'static str = "--help";

/// The language of the messages until the arguments name another.
pub const DEFAULT_LANG: &'static str = "ko";

/// The name of the program where the arguments do not give it.
pub const DEFAULT_PROGRAM: &'static str = "keypairer";

/// What an argument is, read as a flag.
#[derive(Debug, Clone, Copy, PartialEq, Eq, Hash, Structural)]
pub enum Flag {
    Algorithm,
    Variant,
    PublicPath,
    SecretPath,
    PublicText,
    SecretText,
    Lang,
    Help,
    /// No flag of the program.
    Other,
}

/// Why the reading of the arguments stopped before their end.
#[derive(Debug)]
pub enum Stop {
    /// `-h` or `--help` was given.
    Help,
    /// The last argument is a flag that takes a value.
    MissingValue,
    /// An argument that is no flag of the program.
    UnknownArgument { arg: String },
}

/// What the arguments ask for.
#[derive(Debug)]
pub struct Options {
    /// The algorithm's name, in lower case.
    pub algorithm: Option<String>,
    /// The variant's label, in lower case.
    pub variant: Option<String>,
    pub pk_path: Option<String>,
    pub sk_path: Option<String>,
    pub pk_text: bool,
    pub sk_text: bool,
    /// The language code, in lower case.
    pub lang: String,
}

/// The arguments as far as they were read, and why the reading stopped, if it did.
#[derive(Debug)]
pub struct Parsed {
    pub options: Options,
    pub stop: Option<Stop>,
}

/// [`Options`] as plain values.
pub struct OptionsView {
    pub algorithm: Option<Seq<char>>,
    pub variant: Option<Seq<char>>,
    pub pk_path: Option<Seq<char>>,
    pub sk_path: Option<Seq<char>>,
    pub pk_text: bool,
    pub sk_text: bool,
    pub lang: Seq<char>,
}

/// [`Stop`] as plain values.
pub enum StopView {
    Help,
    MissingValue,
    UnknownArgument { arg: Seq<char> },
}

/// [`Parsed`] as plain values.
pub struct ParsedView {
    pub options: OptionsView,
    pub stop: Option<StopView>,
}

impl View for Options {
    type V = OptionsView;

    open spec fn view(&self) -> OptionsView {
        OptionsView {
            algorithm: optional_text(self.algorithm),
            variant: optional_text(self.variant),
            pk_path: optional_text(self.pk_path),
            sk_path: optional_text(self.sk_path),
            pk_text: self.pk_text,
            sk_text: self.sk_text,
            lang: self.lang@,
        }
    }
}

impl View for Stop {
    type V = StopView;

    open spec fn view(&self) -> StopView {
        match self {
            Stop::Help => StopView::Help,
            Stop::MissingValue => StopView::MissingValue,
            Stop::UnknownArgument { arg } => StopView::UnknownArgument { arg: arg@ },
        }
    }
}

impl View for Parsed {
    type V = ParsedView;

    open spec fn view(&self) -> ParsedView {
        ParsedView {
            options: self.options@,
            stop: match self.stop {
                Some(s) => Some(s@),
                None => None,
            },
        }
    }
}

/// The flag that an argument spells.
pub open spec fn flag_of(arg: Seq<char>) -> Flag {
    if arg == FLAG_ALG@ || arg == FLAG_ALGORITHM@ {
        Flag::Algorithm
    } else if arg == FLAG_VAR@ || arg == FLAG_VARIANT@ {
        Flag::Variant
    } else if arg == FLAG_PKPATH@ {
        Flag::PublicPath
    } else if arg == FLAG_SKPATH@ {
        Flag::SecretPath
    } else if arg == FLAG_PKT@ || arg == FLAG_PKTEXT@ {
        Flag::PublicText
    } else if arg == FLAG_SKT@ || arg == FLAG_SKTEXT@ {
        Flag::SecretText
    } else if arg == FLAG_L@ || arg == FLAG_LANG@ {
        Flag::Lang
    } else if arg == FLAG_H@ || arg == FLAG_HELP@ {
        Flag::Help
    } else {
        Flag::Other
    }
}

/// Whether a flag is followed by a value.
pub open spec fn takes_value(flag: Flag) -> bool {
    match flag {
        Flag::Algorithm | Flag::Variant | Flag::PublicPath | Flag::SecretPath | Flag::Lang => true,
        _ => false,
    }
}

/// The options before any argument is read.
pub open spec fn no_options() -> OptionsView {
    OptionsView {
        algorithm: None,
        variant: None,
        pk_path: None,
        sk_path: None,
        pk_text: false,
        sk_text: false,
        lang: DEFAULT_LANG@,
    }
}

/// The options after a flag, with its value where it takes one. Names and
/// codes are kept in lower case, paths as they are given.
pub open spec fn with_flag(o: OptionsView, flag: Flag, value: Seq<char>) -> OptionsView {
    match flag {
        Flag::Algorithm => OptionsView { algorithm: Some(lowercase(value)), ..o },
        Flag::Variant => OptionsView { variant: Some(lowercase(value)), ..o },
        Flag::PublicPath => OptionsView { pk_path: Some(value), ..o },
        Flag::SecretPath => OptionsView { sk_path: Some(value), ..o },
        Flag::PublicText => OptionsView { pk_text: true, ..o },
        Flag::SecretText => OptionsView { sk_text: true, ..o },
        Flag::Lang => OptionsView { lang: lowercase(value), ..o },
        _ => o,
    }
}

/// The reading of the arguments from position `at` on, with `o` read so far.
///
/// The arguments are read from left to right; a later flag overrides an
/// earlier one. The reading stops at a request for help, at an argument that
/// is no flag, and at a flag whose value is missing.
pub open spec fn scan(args: Seq<Seq<char>>, at: int, o: OptionsView) -> ParsedView
    decreases args.len() - at,
{
    if at < 0 || at >= args.len() {
        ParsedView { options: o, stop: None }
    } else {
        let flag = flag_of(args[at]);
        if flag == Flag::Help {
            ParsedView { options: o, stop: Some(StopView::Help) }
        } else if flag == Flag::Other {
            ParsedView { options: o, stop: Some(StopView::UnknownArgument { arg: args[at] }) }
        } else if takes_value(flag) {
            if at + 1 >= args.len() {
                ParsedView { options: o, stop: Some(StopView::MissingValue) }
            } else {
                scan(args, at + 2, with_flag(o, flag, args[at + 1]))
            }
        } else {
            scan(args, at + 1, with_flag(o, flag, Seq::empty()))
        }
    }
}

/// What the command line asks for: the reading of all arguments after the
/// program's name.
pub open spec fn parsed_args(args: Seq<Seq<char>>) -> ParsedView {
    scan(args, 1, no_options())
}

/// The flag that an argument spells.
pub fn classify(arg: &str) -> (flag: Flag)
    ensures
        flag == flag_of(arg@),
{
    if same_text(arg, FLAG_ALG) || same_text(arg, FLAG_ALGORITHM) {
        Flag::Algorithm
    } else if same_text(arg, FLAG_VAR) || same_text(arg, FLAG_VARIANT) {
        Flag::Variant
    } else if same_text(arg, FLAG_PKPATH) {
        Flag::PublicPath
    } else if same_text(arg, FLAG_SKPATH) {
        Flag::SecretPath
    } else if same_text(arg, FLAG_PKT) || same_text(arg, FLAG_PKTEXT) {
        Flag::PublicText
    } else if same_text(arg, FLAG_SKT) || same_text(arg, FLAG_SKTEXT) {
        Flag::SecretText
    } else if same_text(arg, FLAG_L) || same_text(arg, FLAG_LANG) {
        Flag::Lang
    } else if same_text(arg, FLAG_H) || same_text(arg, FLAG_HELP) {
        Flag::Help
    } else {
        Flag::Other
    }
}

/// The name under which the program was called: the first argument, or
/// `keypairer` where there is none.
pub fn program_name(args: &Vec<String>) -> (name: String)
    ensures
        name@ == if args.len() > 0 {
            args@[0]@
        } else {
            DEFAULT_PROGRAM@
        },
{
    if args.len() > 0 {
        args[0].clone()
    } else {
        DEFAULT_PROGRAM.to_owned()
    }
}

/// Reads the arguments of the program; the first one is the program's name.
pub fn parse_args(args: &Vec<String>) -> (parsed: Parsed)
    ensures
        parsed@ == parsed_args(args.deep_view()),
{
    let ghost all = args.deep_view();
    let mut options = Options {
        algorithm: None,
        variant: None,
        pk_path: None,
        sk_path: None,
        pk_text: false,
        sk_text: false,
        lang: DEFAULT_LANG.to_owned(),
    };
    let n = args.len();
    let mut i: usize = 1;
    while i < n
        invariant
            all == args.deep_view(),
            n == args.len(),
            1 <= i,
            scan(all, i as int, options@) == parsed_args(all),
        decreases n - i,
    {
        let flag = classify(args[i].as_str());
        match flag {
            Flag::Help => {
                return Parsed { options, stop: Some(Stop::Help) };
            },
            Flag::Other => {
                return Parsed {
                    options,
                    stop: Some(Stop::UnknownArgument { arg: args[i].clone() }),
                };
            },
            Flag::PublicText => {
                options.pk_text = true;
                i += 1;
            },
            Flag::SecretText => {
                options.sk_text = true;
                i += 1;
            },
            _ => {
                if n - i < 2 {
                    return Parsed { options, stop: Some(Stop::MissingValue) };
                }
                let value = &args[i + 1];
                match flag {
                    Flag::Algorithm => {
                        options.algorithm = Some(to_lower(value.as_str()));
                    },
                    Flag::Variant => {
                        options.variant = Some(to_lower(value.as_str()));
                    },
                    Flag::PublicPath => {
                        options.pk_path = Some(value.clone());
                    },
                    Flag::SecretPath => {
                        options.sk_path = Some(value.clone());
                    },
                    _ => {
                        options.lang = to_lower(value.as_str());
                    },
                }
                i += 2;
            },
        }
    }
    Parsed { options, stop: None }
}

/// A request to the registry: the pair to generate, the names to show for it
/// and where the keys go.
#[derive(Debug)]
pub struct Request {
    pub algorithm: Algorithm,
    pub variant: Variant,
    /// The algorithm's name as the user gave it, in lower case.
    pub algorithm_name: String,
    /// The variant's label as the user gave it, or the label of the default.
    pub variant_name: String,
    pub pk_path: String,
    pub sk_path: String,
}

/// Why no request can be made of the options.
#[derive(Debug)]
pub enum RequestError {
    /// No algorithm was named.
    MissingAlgorithm,
    /// No variant was named and the algorithm's name is not known, so that
    /// there is no default to take.
    UnknownAlgorithm { name: String },
}

/// The variant that a request asks for: the one that the user named, or the
/// default of the family where none was named.
pub open spec fn requested_variant(a: Algorithm, named: Option<Seq<char>>) -> Variant {
    match named {
        Some(label) => variant_named(a, label),
        None => default_variant(a),
    }
}

/// The label shown for the variant of a request.
pub open spec fn requested_label(a: Algorithm, named: Option<Seq<char>>) -> Seq<char> {
    match named {
        Some(label) => label,
        None => variant_label(default_variant(a)),
    }
}

/// Whether the options make a request: an algorithm is named, and it is a
/// known one where the variant is left to the default.
pub open spec fn makes_request(o: OptionsView) -> bool {
    match o.algorithm {
        Some(name) => o.variant is Some || algorithm_named(name) != Algorithm::Unknown,
        None => false,
    }
}

/// Makes the request that the options ask for.
///
/// The algorithm and the variant are read from their names, the default
/// variant stands in where none is named, and the paths are completed. A
/// variant that its family does not have is kept in the request as `Unknown`:
/// the dispatcher refuses it.
pub fn make_request(options: &Options) -> (r: Result<Request, RequestError>)
    ensures
        match r {
            Ok(request) => {
                &&& makes_request(options@)
                &&& request.algorithm == algorithm_named(options@.algorithm->0)
                &&& request.variant == requested_variant(request.algorithm, options@.variant)
                &&& request.algorithm_name@ == options@.algorithm->0
                &&& request.variant_name@ == requested_label(request.algorithm, options@.variant)
                &&& exists|kept: bool|
                    request.pk_path@ == #[trigger] resolved_path(
                        options@.pk_path,
                        kept,
                        options@.algorithm->0,
                        PUBLIC_EXTENSION@,
                    )
                &&& exists|kept: bool|
                    request.sk_path@ == #[trigger] resolved_path(
                        options@.sk_path,
                        kept,
                        options@.algorithm->0,
                        SECRET_EXTENSION@,
                    )
                &&& options@.pk_path matches Some(p) ==> (!p.contains('.') ==> request.pk_path@
                    == p + PUBLIC_EXTENSION@)
                &&& options@.sk_path matches Some(p) ==> (!p.contains('.') ==> request.sk_path@
                    == p + SECRET_EXTENSION@)
            },
            Err(RequestError::MissingAlgorithm) => options@.algorithm is None,
            Err(RequestError::UnknownAlgorithm { name }) => {
                &&& options@.algorithm == Some(name@)
                &&& options@.variant is None
                &&& algorithm_named(name@) == Algorithm::Unknown
            },
        },
{
    let name = match &options.algorithm {
        Some(name) => name,
        None => {
            return Err(RequestError::MissingAlgorithm);
        },
    };
    let algorithm = algorithm_from_token(name.as_str());
    let (variant, variant_label) = match &options.variant {
        Some(label) => (variant_from_token(algorithm, label.as_str()), label.clone()),
        None => {
            if algorithm == Algorithm::Unknown {
                return Err(RequestError::UnknownAlgorithm { name: name.clone() });
            }
            let v = minimal_variant_for_algorithm(algorithm);
            (v, variant_name(v).to_owned())
        },
    };
    let (pk_path, sk_path) = finalize_paths(&options.pk_path, &options.sk_path, name.as_str());
    Ok(
        Request {
            algorithm,
            variant,
            algorithm_name: name.clone(),
            variant_name: variant_label,
            pk_path,
            sk_path,
        },
    )
}

} // verus!
