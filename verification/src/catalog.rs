//! The message catalogue: the identifiers of the messages, the two built-in
//! tables and the table read from a translation file.

use vstd::prelude::*;

verus! {

/// A message that the program can print.
#[derive(Debug, Clone, Copy, PartialEq, Eq, Hash, Structural)]
pub enum MessageId {
    MissingAlgorithm,
    UnknownAlgorithm,
    UnknownArgument,
    InvalidVariant,
    CreatePublic,
    WritePublic,
    CreateSecret,
    WriteSecret,
    StackCreate,
    StackPanic,
    Generated,
    PublicSaved,
    SecretSaved,
    PublicPreview,
    Usage,
    UsageSupported,
    UsageRequired,
    UsagePaths,
    UsageText,
    UsageLang,
}

/// A language with a built-in table.
#[derive(Debug, Clone, Copy, PartialEq, Eq, Hash, Structural)]
pub enum Language {
    Korean,
    English,
}

/// Where the English table is read from before the built-in one is used.
pub const ENGLISH_FILE: &'static str = "i18n/en.json";

/// The language code that selects English; every other code selects Korean.
pub const ENGLISH_CODE: &'static str = "en";

/// The language code of the default table.
pub const KOREAN_CODE: &'static str = "ko";

pub const KEY_MISSING_ALGORITHM: &'static str = "error.missing_alg";

pub const KEY_UNKNOWN_ALGORITHM: &'static str = "error.unknown_algorithm";

pub const KEY_UNKNOWN_ARGUMENT: &'static str = "error.unknown_arg";

pub const KEY_INVALID_VARIANT: &'static str = "error.invalid_variant";

pub const KEY_CREATE_PUBLIC: &'static str = "error.file.create_pk";

pub const KEY_WRITE_PUBLIC: &'static str = "error.file.write_pk";

pub const KEY_CREATE_SECRET: &'static str = "error.file.create_sk";

pub const KEY_WRITE_SECRET: &'static str = "error.file.write_sk";

pub const KEY_STACK_CREATE: &'static str = "error.large_stack_create";

pub const KEY_STACK_PANIC: &'static str = "error.large_stack_panic";

pub const KEY_GENERATED: &'static str = "info.generated";

pub const KEY_PUBLIC_SAVED: &'static str = "info.pk_saved";

pub const KEY_SECRET_SAVED: &'static str = "info.sk_saved";

pub const KEY_PUBLIC_PREVIEW: &'static str = "info.pk_preview";

pub const KEY_USAGE: &'static str = "usage";

pub const KEY_USAGE_SUPPORTED: &'static str = "usage.supported";

pub const KEY_USAGE_REQUIRED: &'static str = "usage.req";

pub const KEY_USAGE_PATHS: &'static str = "usage.paths";

pub const KEY_USAGE_TEXT: &'static str = "usage.text";

pub const KEY_USAGE_LANG: &'static str = "usage.lang";

pub const KO_MISSING_ALGORITHM: &'static str = "필수 인자 누락: -alg <알고리즘>";

pub const KO_UNKNOWN_ALGORITHM: &'static str = "알 수 없는 알고리즘: {alg}";

pub const KO_UNKNOWN_ARGUMENT: &'static str = "알 수 없는 인자: {arg}";

pub const KO_INVALID_VARIANT: &'static str = "'{alg}' 알고리즘에서 지원하지 않는 배리언트: {var}";

pub const KO_CREATE_PUBLIC: &'static str = "공개키 파일을 생성하는 도중 오류가 발생했습니다: {err}";

pub const KO_WRITE_PUBLIC: &'static str = "공개키 파일에 쓰는 도중 오류가 발생했습니다: {err}";

pub const KO_CREATE_SECRET: &'static str = "비밀키 파일을 생성하는 도중 오류가 발생했습니다: {err}";

pub const KO_WRITE_SECRET: &'static str = "비밀키 파일에 쓰는 도중 오류가 발생했습니다: {err}";

pub const KO_STACK_CREATE: &'static str = "대용량 스택 스레드를 생성하는 도중 오류가 발생했습니다: {err}";

pub const KO_STACK_PANIC: &'static str = "대용량 스택 스레드에서 알 수 없는 패닉이 발생했습니다.";

pub const KO_GENERATED: &'static str = "'{alg}' 알고리즘 키 페어 생성 완료(배리언트: {var}).";

pub const KO_PUBLIC_SAVED: &'static str = "공개키 저장: {path}";

pub const KO_SECRET_SAVED: &'static str = "비밀키 저장: {path}";

pub const KO_PUBLIC_PREVIEW: &'static str = "공개키(base64) 미리보기:";

pub const KO_USAGE: &'static str = "사용법: {prog} -alg <알고리즘> [-var | -variant <배리언트>] [-pkpath <공개키 경로>] [-skpath <비밀키 경로>] [-pkt | -pktext] [-skt | -sktext] [-lang <ko|en>]";

pub const KO_USAGE_SUPPORTED: &'static str = "지원되는 알고리즘: mlkem, hqc, mceliece, falcon, mldsa, sphincs+";

pub const KO_USAGE_REQUIRED: &'static str = "- 알고리즘은 필수로 명시해야 합니다. 배리언트는 알고리즘별 최소값이 기본입니다.";

pub const KO_USAGE_PATHS: &'static str = "- 경로를 생략하면 현재 디렉토리에 '<알고리즘>.pub' / '<알고리즘>.sk'로 저장되며, 선택적으로 확장자를 명시할 수 있습니다.";

pub const KO_USAGE_TEXT: &'static str = "- [-pktext] 또는 [-sktext] 옵션을 추가하여 각 공개키/비밀키의 PEM 유사하게 저장하여 확인할 수 있게 합니다. 단, 권장하지 않습니다.";

pub const KO_USAGE_LANG: &'static str = "- [-lang]로 출력 로케일을 설정합니다. 기본값은 ko, en 지원.";

pub const EN_MISSING_ALGORITHM: &'static str = "Missing required argument: -alg <algorithm>";

pub const EN_UNKNOWN_ALGORITHM: &'static str = "Unknown algorithm: {alg}";

pub const EN_UNKNOWN_ARGUMENT: &'static str = "Unknown argument: {arg}";

pub const EN_INVALID_VARIANT: &'static str = "Unsupported variant for '{alg}': {var}";

pub const EN_CREATE_PUBLIC: &'static str = "Error while creating public key file: {err}";

pub const EN_WRITE_PUBLIC: &'static str = "Error while writing to public key file: {err}";

pub const EN_CREATE_SECRET: &'static str = "Error while creating secret key file: {err}";

pub const EN_WRITE_SECRET: &'static str = "Error while writing to secret key file: {err}";

pub const EN_STACK_CREATE: &'static str = "An error occurred while creating a large stack thread: {err}";

pub const EN_STACK_PANIC: &'static str = "Unknown panic occurred in large-stack thread.";

pub const EN_GENERATED: &'static str = "Generated key pair for '{alg}' (variant: {var}).";

pub const EN_PUBLIC_SAVED: &'static str = "Public key saved: {path}";

pub const EN_SECRET_SAVED: &'static str = "Secret key saved: {path}";

pub const EN_PUBLIC_PREVIEW: &'static str = "Public key (base64) preview:";

pub const EN_USAGE: &'static str = "Usage: {prog} -alg <algorithm> [-var | -variant <variant>] [-pkpath <public key path>] [-skpath <secret key path>] [-pkt | -pktext] [-skt | -sktext] [-lang <ko|en>]";

pub const EN_USAGE_SUPPORTED: &'static str = "Supported algorithms: mlkem, hqc, mceliece, falcon, mldsa, sphincs+";

pub const EN_USAGE_REQUIRED: &'static str = "- Algorithm is required. Variant defaults to the minimum per algorithm.";

pub const EN_USAGE_PATHS: &'static str = "- If paths are omitted, files are saved to the current directory as '<algorithm>.pub' / '<algorithm>.sk'. You may optionally specify extensions.";

pub const EN_USAGE_TEXT: &'static str = "- Add [-pktext] or [-sktext] to save public/secret keys in a PEM-like text format.";

pub const EN_USAGE_LANG: &'static str = "- Set output locale with [-lang]. Default is ko; en supported.";

pub const PLAIN_GENERATED: &'static str = "키 페어 생성 완료";

pub const PLAIN_USAGE: &'static str = "사용법: {prog} -alg <알고리즘> [-var | -variant <배리언트>] [-pkpath <공개키 경로>] [-skpath <비밀키 경로>] [-pkt | -pktext] [-skt | -sktext] [-lang <i18n 언어팩>]";

/// The key under which a message stands in a table.
pub open spec fn key_of(id: MessageId) -> Seq<char> {
    match id {
        MessageId::MissingAlgorithm => KEY_MISSING_ALGORITHM@,
        MessageId::UnknownAlgorithm => KEY_UNKNOWN_ALGORITHM@,
        MessageId::UnknownArgument => KEY_UNKNOWN_ARGUMENT@,
        MessageId::InvalidVariant => KEY_INVALID_VARIANT@,
        MessageId::CreatePublic => KEY_CREATE_PUBLIC@,
        MessageId::WritePublic => KEY_WRITE_PUBLIC@,
        MessageId::CreateSecret => KEY_CREATE_SECRET@,
        MessageId::WriteSecret => KEY_WRITE_SECRET@,
        MessageId::StackCreate => KEY_STACK_CREATE@,
        MessageId::StackPanic => KEY_STACK_PANIC@,
        MessageId::Generated => KEY_GENERATED@,
        MessageId::PublicSaved => KEY_PUBLIC_SAVED@,
        MessageId::SecretSaved => KEY_SECRET_SAVED@,
        MessageId::PublicPreview => KEY_PUBLIC_PREVIEW@,
        MessageId::Usage => KEY_USAGE@,
        MessageId::UsageSupported => KEY_USAGE_SUPPORTED@,
        MessageId::UsageRequired => KEY_USAGE_REQUIRED@,
        MessageId::UsagePaths => KEY_USAGE_PATHS@,
        MessageId::UsageText => KEY_USAGE_TEXT@,
        MessageId::UsageLang => KEY_USAGE_LANG@,
    }
}

/// The Korean text of a message.
pub open spec fn korean_text(id: MessageId) -> Seq<char> {
    match id {
        MessageId::MissingAlgorithm => KO_MISSING_ALGORITHM@,
        MessageId::UnknownAlgorithm => KO_UNKNOWN_ALGORITHM@,
        MessageId::UnknownArgument => KO_UNKNOWN_ARGUMENT@,
        MessageId::InvalidVariant => KO_INVALID_VARIANT@,
        MessageId::CreatePublic => KO_CREATE_PUBLIC@,
        MessageId::WritePublic => KO_WRITE_PUBLIC@,
        MessageId::CreateSecret => KO_CREATE_SECRET@,
        MessageId::WriteSecret => KO_WRITE_SECRET@,
        MessageId::StackCreate => KO_STACK_CREATE@,
        MessageId::StackPanic => KO_STACK_PANIC@,
        MessageId::Generated => KO_GENERATED@,
        MessageId::PublicSaved => KO_PUBLIC_SAVED@,
        MessageId::SecretSaved => KO_SECRET_SAVED@,
        MessageId::PublicPreview => KO_PUBLIC_PREVIEW@,
        MessageId::Usage => KO_USAGE@,
        MessageId::UsageSupported => KO_USAGE_SUPPORTED@,
        MessageId::UsageRequired => KO_USAGE_REQUIRED@,
        MessageId::UsagePaths => KO_USAGE_PATHS@,
        MessageId::UsageText => KO_USAGE_TEXT@,
        MessageId::UsageLang => KO_USAGE_LANG@,
    }
}

/// The English text of a message.
pub open spec fn english_text(id: MessageId) -> Seq<char> {
    match id {
        MessageId::MissingAlgorithm => EN_MISSING_ALGORITHM@,
        MessageId::UnknownAlgorithm => EN_UNKNOWN_ALGORITHM@,
        MessageId::UnknownArgument => EN_UNKNOWN_ARGUMENT@,
        MessageId::InvalidVariant => EN_INVALID_VARIANT@,
        MessageId::CreatePublic => EN_CREATE_PUBLIC@,
        MessageId::WritePublic => EN_WRITE_PUBLIC@,
        MessageId::CreateSecret => EN_CREATE_SECRET@,
        MessageId::WriteSecret => EN_WRITE_SECRET@,
        MessageId::StackCreate => EN_STACK_CREATE@,
        MessageId::StackPanic => EN_STACK_PANIC@,
        MessageId::Generated => EN_GENERATED@,
        MessageId::PublicSaved => EN_PUBLIC_SAVED@,
        MessageId::SecretSaved => EN_SECRET_SAVED@,
        MessageId::PublicPreview => EN_PUBLIC_PREVIEW@,
        MessageId::Usage => EN_USAGE@,
        MessageId::UsageSupported => EN_USAGE_SUPPORTED@,
        MessageId::UsageRequired => EN_USAGE_REQUIRED@,
        MessageId::UsagePaths => EN_USAGE_PATHS@,
        MessageId::UsageText => EN_USAGE_TEXT@,
        MessageId::UsageLang => EN_USAGE_LANG@,
    }
}

/// The text used for a message that a table lacks.
pub open spec fn plain_text(id: MessageId) -> Seq<char> {
    match id {
        MessageId::MissingAlgorithm => KO_MISSING_ALGORITHM@,
        MessageId::UnknownAlgorithm => KO_UNKNOWN_ALGORITHM@,
        MessageId::UnknownArgument => KO_UNKNOWN_ARGUMENT@,
        MessageId::InvalidVariant => KO_INVALID_VARIANT@,
        MessageId::CreatePublic => KO_CREATE_PUBLIC@,
        MessageId::WritePublic => KO_WRITE_PUBLIC@,
        MessageId::CreateSecret => KO_CREATE_SECRET@,
        MessageId::WriteSecret => KO_WRITE_SECRET@,
        MessageId::StackCreate => KO_STACK_CREATE@,
        MessageId::StackPanic => KO_STACK_PANIC@,
        MessageId::Generated => PLAIN_GENERATED@,
        MessageId::PublicSaved => KO_PUBLIC_SAVED@,
        MessageId::SecretSaved => KO_SECRET_SAVED@,
        MessageId::PublicPreview => KO_PUBLIC_PREVIEW@,
        MessageId::Usage => PLAIN_USAGE@,
        MessageId::UsageSupported => KO_USAGE_SUPPORTED@,
        MessageId::UsageRequired => KO_USAGE_REQUIRED@,
        MessageId::UsagePaths => KO_USAGE_PATHS@,
        MessageId::UsageText => KO_USAGE_TEXT@,
        MessageId::UsageLang => KO_USAGE_LANG@,
    }
}

/// The text of a message in a built-in table.
pub open spec fn builtin_text(lang: Language, id: MessageId) -> Seq<char> {
    match lang {
        Language::Korean => korean_text(id),
        Language::English => english_text(id),
    }
}

/// `k` is the key of some message.
pub open spec fn is_message_key(k: Seq<char>) -> bool {
    exists|id: MessageId| key_of(id) == k
}

/// The message that stands under the key `k`.
pub open spec fn message_under(k: Seq<char>) -> MessageId {
    choose|id: MessageId| key_of(id) == k
}

/// The built-in table of a language: under the key of every message, the
/// text of that message in the language, and nothing else.
pub open spec fn builtin_table(lang: Language) -> Map<Seq<char>, Seq<char>> {
    Map::new(|k: Seq<char>| is_message_key(k), |k: Seq<char>| builtin_text(lang, message_under(k)))
}

/// All messages, in the order of their declaration.
pub open spec fn message_list() -> Seq<MessageId> {
    seq![
        MessageId::MissingAlgorithm,
        MessageId::UnknownAlgorithm,
        MessageId::UnknownArgument,
        MessageId::InvalidVariant,
        MessageId::CreatePublic,
        MessageId::WritePublic,
        MessageId::CreateSecret,
        MessageId::WriteSecret,
        MessageId::StackCreate,
        MessageId::StackPanic,
        MessageId::Generated,
        MessageId::PublicSaved,
        MessageId::SecretSaved,
        MessageId::PublicPreview,
        MessageId::Usage,
        MessageId::UsageSupported,
        MessageId::UsageRequired,
        MessageId::UsagePaths,
        MessageId::UsageText,
        MessageId::UsageLang,
    ]
}

/// The place of a message in [`message_list`].
pub open spec fn message_index(id: MessageId) -> int {
    match id {
        MessageId::MissingAlgorithm => 0,
        MessageId::UnknownAlgorithm => 1,
        MessageId::UnknownArgument => 2,
        MessageId::InvalidVariant => 3,
        MessageId::CreatePublic => 4,
        MessageId::WritePublic => 5,
        MessageId::CreateSecret => 6,
        MessageId::WriteSecret => 7,
        MessageId::StackCreate => 8,
        MessageId::StackPanic => 9,
        MessageId::Generated => 10,
        MessageId::PublicSaved => 11,
        MessageId::SecretSaved => 12,
        MessageId::PublicPreview => 13,
        MessageId::Usage => 14,
        MessageId::UsageSupported => 15,
        MessageId::UsageRequired => 16,
        MessageId::UsagePaths => 17,
        MessageId::UsageText => 18,
        MessageId::UsageLang => 19,
    }
}

/// The key under which a message stands in a table.
pub fn key(id: MessageId) -> (text: &'static str)
    ensures
        text@ == key_of(id),
{
    match id {
        MessageId::MissingAlgorithm => KEY_MISSING_ALGORITHM,
        MessageId::UnknownAlgorithm => KEY_UNKNOWN_ALGORITHM,
        MessageId::UnknownArgument => KEY_UNKNOWN_ARGUMENT,
        MessageId::InvalidVariant => KEY_INVALID_VARIANT,
        MessageId::CreatePublic => KEY_CREATE_PUBLIC,
        MessageId::WritePublic => KEY_WRITE_PUBLIC,
        MessageId::CreateSecret => KEY_CREATE_SECRET,
        MessageId::WriteSecret => KEY_WRITE_SECRET,
        MessageId::StackCreate => KEY_STACK_CREATE,
        MessageId::StackPanic => KEY_STACK_PANIC,
        MessageId::Generated => KEY_GENERATED,
        MessageId::PublicSaved => KEY_PUBLIC_SAVED,
        MessageId::SecretSaved => KEY_SECRET_SAVED,
        MessageId::PublicPreview => KEY_PUBLIC_PREVIEW,
        MessageId::Usage => KEY_USAGE,
        MessageId::UsageSupported => KEY_USAGE_SUPPORTED,
        MessageId::UsageRequired => KEY_USAGE_REQUIRED,
        MessageId::UsagePaths => KEY_USAGE_PATHS,
        MessageId::UsageText => KEY_USAGE_TEXT,
        MessageId::UsageLang => KEY_USAGE_LANG,
    }
}

/// The text used for a message that a table lacks.
pub fn plain(id: MessageId) -> (text: &'static str)
    ensures
        text@ == plain_text(id),
{
    match id {
        MessageId::MissingAlgorithm => KO_MISSING_ALGORITHM,
        MessageId::UnknownAlgorithm => KO_UNKNOWN_ALGORITHM,
        MessageId::UnknownArgument => KO_UNKNOWN_ARGUMENT,
        MessageId::InvalidVariant => KO_INVALID_VARIANT,
        MessageId::CreatePublic => KO_CREATE_PUBLIC,
        MessageId::WritePublic => KO_WRITE_PUBLIC,
        MessageId::CreateSecret => KO_CREATE_SECRET,
        MessageId::WriteSecret => KO_WRITE_SECRET,
        MessageId::StackCreate => KO_STACK_CREATE,
        MessageId::StackPanic => KO_STACK_PANIC,
        MessageId::Generated => PLAIN_GENERATED,
        MessageId::PublicSaved => KO_PUBLIC_SAVED,
        MessageId::SecretSaved => KO_SECRET_SAVED,
        MessageId::PublicPreview => KO_PUBLIC_PREVIEW,
        MessageId::Usage => PLAIN_USAGE,
        MessageId::UsageSupported => KO_USAGE_SUPPORTED,
        MessageId::UsageRequired => KO_USAGE_REQUIRED,
        MessageId::UsagePaths => KO_USAGE_PATHS,
        MessageId::UsageText => KO_USAGE_TEXT,
        MessageId::UsageLang => KO_USAGE_LANG,
    }
}

/// The text of a message in a built-in table.
pub fn builtin(lang: Language, id: MessageId) -> (text: &'static str)
    ensures
        text@ == builtin_text(lang, id),
{
    match lang {
        Language::Korean => match id {
            MessageId::MissingAlgorithm => KO_MISSING_ALGORITHM,
            MessageId::UnknownAlgorithm => KO_UNKNOWN_ALGORITHM,
            MessageId::UnknownArgument => KO_UNKNOWN_ARGUMENT,
            MessageId::InvalidVariant => KO_INVALID_VARIANT,
            MessageId::CreatePublic => KO_CREATE_PUBLIC,
            MessageId::WritePublic => KO_WRITE_PUBLIC,
            MessageId::CreateSecret => KO_CREATE_SECRET,
            MessageId::WriteSecret => KO_WRITE_SECRET,
            MessageId::StackCreate => KO_STACK_CREATE,
            MessageId::StackPanic => KO_STACK_PANIC,
            MessageId::Generated => KO_GENERATED,
            MessageId::PublicSaved => KO_PUBLIC_SAVED,
            MessageId::SecretSaved => KO_SECRET_SAVED,
            MessageId::PublicPreview => KO_PUBLIC_PREVIEW,
            MessageId::Usage => KO_USAGE,
            MessageId::UsageSupported => KO_USAGE_SUPPORTED,
            MessageId::UsageRequired => KO_USAGE_REQUIRED,
            MessageId::UsagePaths => KO_USAGE_PATHS,
            MessageId::UsageText => KO_USAGE_TEXT,
            MessageId::UsageLang => KO_USAGE_LANG,
        },
        Language::English => match id {
            MessageId::MissingAlgorithm => EN_MISSING_ALGORITHM,
            MessageId::UnknownAlgorithm => EN_UNKNOWN_ALGORITHM,
            MessageId::UnknownArgument => EN_UNKNOWN_ARGUMENT,
            MessageId::InvalidVariant => EN_INVALID_VARIANT,
            MessageId::CreatePublic => EN_CREATE_PUBLIC,
            MessageId::WritePublic => EN_WRITE_PUBLIC,
            MessageId::CreateSecret => EN_CREATE_SECRET,
            MessageId::WriteSecret => EN_WRITE_SECRET,
            MessageId::StackCreate => EN_STACK_CREATE,
            MessageId::StackPanic => EN_STACK_PANIC,
            MessageId::Generated => EN_GENERATED,
            MessageId::PublicSaved => EN_PUBLIC_SAVED,
            MessageId::SecretSaved => EN_SECRET_SAVED,
            MessageId::PublicPreview => EN_PUBLIC_PREVIEW,
            MessageId::Usage => EN_USAGE,
            MessageId::UsageSupported => EN_USAGE_SUPPORTED,
            MessageId::UsageRequired => EN_USAGE_REQUIRED,
            MessageId::UsagePaths => EN_USAGE_PATHS,
            MessageId::UsageText => EN_USAGE_TEXT,
            MessageId::UsageLang => EN_USAGE_LANG,
        },
    }
}

/// All messages, in the order of their declaration.
pub fn messages() -> (list: Vec<MessageId>)
    ensures
        list@ == message_list(),
{
    let mut list: Vec<MessageId> = Vec::new();
    list.push(MessageId::MissingAlgorithm);
    list.push(MessageId::UnknownAlgorithm);
    list.push(MessageId::UnknownArgument);
    list.push(MessageId::InvalidVariant);
    list.push(MessageId::CreatePublic);
    list.push(MessageId::WritePublic);
    list.push(MessageId::CreateSecret);
    list.push(MessageId::WriteSecret);
    list.push(MessageId::StackCreate);
    list.push(MessageId::StackPanic);
    list.push(MessageId::Generated);
    list.push(MessageId::PublicSaved);
    list.push(MessageId::SecretSaved);
    list.push(MessageId::PublicPreview);
    list.push(MessageId::Usage);
    list.push(MessageId::UsageSupported);
    list.push(MessageId::UsageRequired);
    list.push(MessageId::UsagePaths);
    list.push(MessageId::UsageText);
    list.push(MessageId::UsageLang);
    list
}

/// The length of every key and the characters that tell the keys apart.
proof fn lemma_key_shape(id: MessageId)
    ensures
        match id {
            MessageId::MissingAlgorithm => key_of(id).len() == 17 && key_of(id)[5] == '.'
                && key_of(id)[6] == 'm',
            MessageId::UnknownAlgorithm => key_of(id).len() == 23 && key_of(id)[5] == '.'
                && key_of(id)[6] == 'u' && key_of(id)[17] == 'o' && key_of(id)[18] == 'r',
            MessageId::UnknownArgument => key_of(id).len() == 17 && key_of(id)[5] == '.'
                && key_of(id)[6] == 'u',
            MessageId::InvalidVariant => key_of(id).len() == 21 && key_of(id)[5] == '.'
                && key_of(id)[6] == 'i' && key_of(id)[17] == 'i' && key_of(id)[18] == 'a',
            MessageId::CreatePublic => key_of(id).len() == 20 && key_of(id)[5] == '.'
                && key_of(id)[6] == 'f' && key_of(id)[17] == '_' && key_of(id)[18] == 'p',
            MessageId::WritePublic => key_of(id).len() == 19 && key_of(id)[5] == '.'
                && key_of(id)[6] == 'f' && key_of(id)[17] == 'p' && key_of(id)[18] == 'k',
            MessageId::CreateSecret => key_of(id).len() == 20 && key_of(id)[5] == '.'
                && key_of(id)[6] == 'f' && key_of(id)[17] == '_' && key_of(id)[18] == 's',
            MessageId::WriteSecret => key_of(id).len() == 19 && key_of(id)[5] == '.'
                && key_of(id)[6] == 'f' && key_of(id)[17] == 's' && key_of(id)[18] == 'k',
            MessageId::StackCreate => key_of(id).len() == 24 && key_of(id)[5] == '.'
                && key_of(id)[6] == 'l' && key_of(id)[17] == '_' && key_of(id)[18] == 'c',
            MessageId::StackPanic => key_of(id).len() == 23 && key_of(id)[5] == '.'
                && key_of(id)[6] == 'l' && key_of(id)[17] == '_' && key_of(id)[18] == 'p',
            MessageId::Generated => key_of(id).len() == 14 && key_of(id)[5] == 'g'
                && key_of(id)[6] == 'e',
            MessageId::PublicSaved => key_of(id).len() == 13 && key_of(id)[5] == 'p'
                && key_of(id)[6] == 'k',
            MessageId::SecretSaved => key_of(id).len() == 13 && key_of(id)[5] == 's'
                && key_of(id)[6] == 'k',
            MessageId::PublicPreview => key_of(id).len() == 15 && key_of(id)[5] == 'p'
                && key_of(id)[6] == 'k',
            MessageId::Usage => key_of(id).len() == 5,
            MessageId::UsageSupported => key_of(id).len() == 15 && key_of(id)[5] == '.'
                && key_of(id)[6] == 's',
            MessageId::UsageRequired => key_of(id).len() == 9 && key_of(id)[5] == '.'
                && key_of(id)[6] == 'r',
            MessageId::UsagePaths => key_of(id).len() == 11 && key_of(id)[5] == '.'
                && key_of(id)[6] == 'p',
            MessageId::UsageText => key_of(id).len() == 10 && key_of(id)[5] == '.'
                && key_of(id)[6] == 't',
            MessageId::UsageLang => key_of(id).len() == 10 && key_of(id)[5] == '.'
                && key_of(id)[6] == 'l',
        },
{
    reveal_strlit("error.missing_alg");
    reveal_strlit("error.unknown_algorithm");
    reveal_strlit("error.unknown_arg");
    reveal_strlit("error.invalid_variant");
    reveal_strlit("error.file.create_pk");
    reveal_strlit("error.file.write_pk");
    reveal_strlit("error.file.create_sk");
    reveal_strlit("error.file.write_sk");
    reveal_strlit("error.large_stack_create");
    reveal_strlit("error.large_stack_panic");
    reveal_strlit("info.generated");
    reveal_strlit("info.pk_saved");
    reveal_strlit("info.sk_saved");
    reveal_strlit("info.pk_preview");
    reveal_strlit("usage");
    reveal_strlit("usage.supported");
    reveal_strlit("usage.req");
    reveal_strlit("usage.paths");
    reveal_strlit("usage.text");
    reveal_strlit("usage.lang");
}

/// No two messages share a key.
pub proof fn lemma_keys_are_distinct(a: MessageId, b: MessageId)
    ensures
        key_of(a) == key_of(b) ==> a == b,
        is_message_key(key_of(a)),
        message_under(key_of(a)) == a,
{
    lemma_key_shape(a);
    lemma_key_shape(b);
    lemma_key_shape(message_under(key_of(a)));
}

} // verus!
