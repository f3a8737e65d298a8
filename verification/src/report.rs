//! What the program says: the message for each failure, the report after a
//! successful run and the usage text, each taken from a translation table.

use crate::catalog::MessageId;
use crate::i18n::{text_in, Translations};
use crate::key_io::{IoError, IoFault, KeyFile};
use crate::keygen::DispatchError;
use crate::names::{algorithm_label, algorithm_name, variant_label, variant_name};
use crate::pem::{base64_standard, preview, preview_bytes};
use crate::taxonomy::{
    algorithms, known_algorithms, variant_list, variants_of, Algorithm, Variant,
};
use crate::text::{join_text, replace_all, substitute, to_upper, uppercase};
use vstd::prelude::*;
use vstd::string::*;

verus! {

pub const ERR_SLOT: &'static str = "{err}";

pub const ALG_SLOT: &'static str = "{alg}";

pub const VAR_SLOT: &'static str = "{var}";

pub const PATH_SLOT: &'static str = "{path}";

pub const ARG_SLOT: &'static str = "{arg}";

pub const PROG_SLOT: &'static str = "{prog}";

pub const SPACE: &'static str = " ";

pub const HELP_HEADER: &'static str = "    배리언트:";

pub const SECTION_INDENT: &'static str = "        ";

pub const SECTION_END: &'static str = ":";

pub const ITEM_INDENT: &'static str = "            ";

pub const ITEM_END: &'static str = ",";

/// Why the isolated run of the generator gave no result.
#[derive(Debug)]
pub enum IsolationError {
    /// The thread with the large stack could not be created.
    CreateFailed { cause: String },
    /// The thread ended without a result.
    Fault,
}

/// The message for a failed file operation.
pub open spec fn io_message(fault: IoFault) -> MessageId {
    match (fault.creating, fault.file) {
        (true, KeyFile::Public) => MessageId::CreatePublic,
        (false, KeyFile::Public) => MessageId::WritePublic,
        (true, KeyFile::Secret) => MessageId::CreateSecret,
        (false, KeyFile::Secret) => MessageId::WriteSecret,
    }
}

/// The text shown for a failed file operation: the message of the operation
/// with the system's reason in place of `{err}`.
pub open spec fn io_error_text(table: Map<Seq<char>, Seq<char>>, fault: IoFault) -> Seq<char> {
    replace_all(text_in(table, io_message(fault)), ERR_SLOT@, fault.cause)
}

/// The text shown for a refused request, with the names that the user gave
/// in place of `{alg}` and `{var}`.
pub open spec fn dispatch_error_text(
    table: Map<Seq<char>, Seq<char>>,
    error: DispatchError,
    algorithm: Seq<char>,
    variant: Seq<char>,
) -> Seq<char> {
    match error {
        DispatchError::UnknownAlgorithm => replace_all(
            text_in(table, MessageId::UnknownAlgorithm),
            ALG_SLOT@,
            algorithm,
        ),
        DispatchError::InvalidVariant { .. } => replace_all(
            replace_all(text_in(table, MessageId::InvalidVariant), ALG_SLOT@, algorithm),
            VAR_SLOT@,
            variant,
        ),
    }
}

/// The text shown when the isolated run gave no result.
pub open spec fn isolation_error_text(
    table: Map<Seq<char>, Seq<char>>,
    cause: Option<Seq<char>>,
) -> Seq<char> {
    match cause {
        Some(reason) => replace_all(text_in(table, MessageId::StackCreate), ERR_SLOT@, reason),
        None => text_in(table, MessageId::StackPanic),
    }
}

/// The four lines printed after both files are written.
pub open spec fn success_lines(
    table: Map<Seq<char>, Seq<char>>,
    algorithm: Seq<char>,
    variant: Seq<char>,
    pk_path: Seq<char>,
    sk_path: Seq<char>,
    public: Seq<u8>,
) -> Seq<Seq<char>> {
    seq![
        replace_all(
            replace_all(text_in(table, MessageId::Generated), ALG_SLOT@, uppercase(algorithm)),
            VAR_SLOT@,
            variant,
        ),
        replace_all(text_in(table, MessageId::PublicSaved), PATH_SLOT@, pk_path),
        replace_all(text_in(table, MessageId::SecretSaved), PATH_SLOT@, sk_path),
        text_in(table, MessageId::PublicPreview) + SPACE@ + base64_standard(preview_bytes(public)),
    ]
}

/// The line of the help text for a variant.
pub open spec fn item_line(v: Variant) -> Seq<char> {
    ITEM_INDENT@ + variant_label(v) + ITEM_END@
}

/// The lines of the help text for a family: its name, its variants and an
/// empty line.
pub open spec fn section_lines(a: Algorithm) -> Seq<Seq<char>> {
    seq![SECTION_INDENT@ + algorithm_label(a) + SECTION_END@] + variant_list(a).map_values(
        |v: Variant| item_line(v),
    ) + seq![Seq::<char>::empty()]
}

/// The sections of a list of families, one after the other.
pub open spec fn sections(list: Seq<Algorithm>) -> Seq<Seq<char>>
    decreases list.len(),
{
    if list.len() == 0 {
        Seq::empty()
    } else {
        sections(list.drop_last()) + section_lines(list.last())
    }
}

/// The list of the variants of every family, as the help text shows it.
pub open spec fn help_text() -> Seq<Seq<char>> {
    seq![HELP_HEADER@] + sections(known_algorithms())
}

/// The usage text: the six lines of the table, the first with the program's
/// name in place of `{prog}`, and the list of variants.
pub open spec fn usage_text(table: Map<Seq<char>, Seq<char>>, prog: Seq<char>) -> Seq<Seq<char>> {
    seq![
        replace_all(text_in(table, MessageId::Usage), PROG_SLOT@, prog),
        text_in(table, MessageId::UsageSupported),
        text_in(table, MessageId::UsageRequired),
        text_in(table, MessageId::UsagePaths),
        text_in(table, MessageId::UsageText),
        text_in(table, MessageId::UsageLang),
    ] + help_text()
}

fn push_line(lines: &mut Vec<String>, line: String)
    ensures
        final(lines).deep_view() == old(lines).deep_view().push(line@),
{
    lines.push(line);
}

/// The message for a failed file operation.
pub fn io_error_message(tr: &Translations, error: &IoError) -> (text: String)
    ensures
        text@ == io_error_text(tr@, error@),
{
    match error {
        IoError::CreateFailed { file, path: _, cause } => {
            let id = match file {
                KeyFile::Public => MessageId::CreatePublic,
                KeyFile::Secret => MessageId::CreateSecret,
            };
            substitute(tr.message(id).as_str(), ERR_SLOT, cause.as_str())
        },
        IoError::WriteFailed { file, path: _, cause } => {
            let id = match file {
                KeyFile::Public => MessageId::WritePublic,
                KeyFile::Secret => MessageId::WriteSecret,
            };
            substitute(tr.message(id).as_str(), ERR_SLOT, cause.as_str())
        },
    }
}

/// The message for a refused request. `algorithm` and `variant` are the
/// names as the user gave them.
pub fn dispatch_error_message(
    tr: &Translations,
    error: DispatchError,
    algorithm: &str,
    variant: &str,
) -> (text: String)
    ensures
        text@ == dispatch_error_text(tr@, error, algorithm@, variant@),
{
    match error {
        DispatchError::UnknownAlgorithm => substitute(
            tr.message(MessageId::UnknownAlgorithm).as_str(),
            ALG_SLOT,
            algorithm,
        ),
        DispatchError::InvalidVariant { .. } => {
            let named = substitute(
                tr.message(MessageId::InvalidVariant).as_str(),
                ALG_SLOT,
                algorithm,
            );
            substitute(named.as_str(), VAR_SLOT, variant)
        },
    }
}

/// The message for an isolated run that gave no result.
pub fn isolation_error_message(tr: &Translations, error: &IsolationError) -> (text: String)
    ensures
        text@ == isolation_error_text(
            tr@,
            match error {
                IsolationError::CreateFailed { cause } => Some(cause@),
                IsolationError::Fault => None,
            },
        ),
{
    match error {
        IsolationError::CreateFailed { cause } => substitute(
            tr.message(MessageId::StackCreate).as_str(),
            ERR_SLOT,
            cause.as_str(),
        ),
        IsolationError::Fault => tr.message(MessageId::StackPanic),
    }
}

/// The message for an argument that the program does not know.
pub fn unknown_argument_message(tr: &Translations, arg: &str) -> (text: String)
    ensures
        text@ == replace_all(text_in(tr@, MessageId::UnknownArgument), ARG_SLOT@, arg@),
{
    substitute(tr.message(MessageId::UnknownArgument).as_str(), ARG_SLOT, arg)
}

/// The four lines printed after both files are written: what was generated,
/// where the two keys went, and the first bytes of the public key in base64.
pub fn success_report(
    tr: &Translations,
    algorithm: &str,
    variant: &str,
    pk_path: &str,
    sk_path: &str,
    public: &[u8],
) -> (lines: Vec<String>)
    ensures
        lines.deep_view() == success_lines(
            tr@,
            algorithm@,
            variant@,
            pk_path@,
            sk_path@,
            public@,
        ),
{
    let mut lines: Vec<String> = Vec::new();
    let shouted = to_upper(algorithm);
    let named = substitute(tr.message(MessageId::Generated).as_str(), ALG_SLOT, shouted.as_str());
    push_line(&mut lines, substitute(named.as_str(), VAR_SLOT, variant));
    push_line(
        &mut lines,
        substitute(tr.message(MessageId::PublicSaved).as_str(), PATH_SLOT, pk_path),
    );
    push_line(
        &mut lines,
        substitute(tr.message(MessageId::SecretSaved).as_str(), PATH_SLOT, sk_path),
    );
    let mut last = tr.message(MessageId::PublicPreview);
    last.append(SPACE);
    last.append(preview(public).as_str());
    push_line(&mut lines, last);
    lines
}

/// The list of the variants of every family, as the help text shows it.
pub fn help_lines() -> (lines: Vec<String>)
    ensures
        lines.deep_view() == help_text(),
{
    let mut lines: Vec<String> = Vec::new();
    push_line(&mut lines, HELP_HEADER.to_owned());
    let families = algorithms();
    let mut i: usize = 0;
    while i < families.len()
        invariant
            families@ == known_algorithms(),
            i <= families.len(),
            lines.deep_view() == seq![HELP_HEADER@] + sections(families@.take(i as int)),
        decreases families.len() - i,
    {
        let family = families[i];
        let mut title = join_text(SECTION_INDENT, algorithm_name(family));
        title.append(SECTION_END);
        push_line(&mut lines, title);
        let variants = variants_of(family);
        let ghost opened = lines.deep_view();
        let mut j: usize = 0;
        while j < variants.len()
            invariant
                variants@ == variant_list(family),
                j <= variants.len(),
                lines.deep_view() == opened + variants@.take(j as int).map_values(
                    |v: Variant| item_line(v),
                ),
            decreases variants.len() - j,
        {
            let mut item = join_text(ITEM_INDENT, variant_name(variants[j]));
            item.append(ITEM_END);
            push_line(&mut lines, item);
            j += 1;
        }
        push_line(&mut lines, String::new());
        i += 1;
        assert(families@.take(i as int).drop_last() =~= families@.take(i - 1));
    }
    assert(families@.take(i as int) =~= families@);
    lines
}

/// The usage text for the program called `prog`.
pub fn usage_lines(tr: &Translations, prog: &str) -> (lines: Vec<String>)
    ensures
        lines.deep_view() == usage_text(tr@, prog@),
{
    let mut lines: Vec<String> = Vec::new();
    push_line(&mut lines, substitute(tr.message(MessageId::Usage).as_str(), PROG_SLOT, prog));
    push_line(&mut lines, tr.message(MessageId::UsageSupported));
    push_line(&mut lines, tr.message(MessageId::UsageRequired));
    push_line(&mut lines, tr.message(MessageId::UsagePaths));
    push_line(&mut lines, tr.message(MessageId::UsageText));
    push_line(&mut lines, tr.message(MessageId::UsageLang));
    let ghost top = lines.deep_view();
    let mut help = help_lines();
    let ghost rest = help.deep_view();
    lines.append(&mut help);
    assert(lines.deep_view() =~= top + rest);
    lines
}

} // verus!
