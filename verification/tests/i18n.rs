use keypairer::catalog::{builtin, key, messages, plain, Language, MessageId};
use keypairer::i18n::{
    load_translations, load_translations_default, select_translations, translation_file,
    Translations,
};

fn text(t: &Translations, k: &str) -> Option<String> {
    t.get(k)
}

#[test]
fn the_catalogue_has_twenty_messages_with_distinct_keys() {
    let ids = messages();
    assert_eq!(ids.len(), 20);
    let mut keys: Vec<&str> = ids.iter().map(|id| key(*id)).collect();
    keys.sort();
    keys.dedup();
    assert_eq!(keys.len(), 20);
}

#[test]
fn keys_are_the_stable_identifiers() {
    assert_eq!(key(MessageId::MissingAlgorithm), "error.missing_alg");
    assert_eq!(key(MessageId::UnknownAlgorithm), "error.unknown_algorithm");
    assert_eq!(key(MessageId::UnknownArgument), "error.unknown_arg");
    assert_eq!(key(MessageId::InvalidVariant), "error.invalid_variant");
    assert_eq!(key(MessageId::CreatePublic), "error.file.create_pk");
    assert_eq!(key(MessageId::WritePublic), "error.file.write_pk");
    assert_eq!(key(MessageId::CreateSecret), "error.file.create_sk");
    assert_eq!(key(MessageId::WriteSecret), "error.file.write_sk");
    assert_eq!(key(MessageId::StackCreate), "error.large_stack_create");
    assert_eq!(key(MessageId::StackPanic), "error.large_stack_panic");
    assert_eq!(key(MessageId::Generated), "info.generated");
    assert_eq!(key(MessageId::PublicSaved), "info.pk_saved");
    assert_eq!(key(MessageId::SecretSaved), "info.sk_saved");
    assert_eq!(key(MessageId::PublicPreview), "info.pk_preview");
    assert_eq!(key(MessageId::Usage), "usage");
    assert_eq!(key(MessageId::UsageSupported), "usage.supported");
    assert_eq!(key(MessageId::UsageRequired), "usage.req");
    assert_eq!(key(MessageId::UsagePaths), "usage.paths");
    assert_eq!(key(MessageId::UsageText), "usage.text");
    assert_eq!(key(MessageId::UsageLang), "usage.lang");
}

#[test]
fn the_default_table_is_korean() {
    let t = load_translations_default();
    assert_eq!(text(&t, "info.pk_saved"), Some("공개키 저장: {path}".to_string()));
    assert_eq!(
        text(&t, "error.file.create_sk"),
        Some("비밀키 파일을 생성하는 도중 오류가 발생했습니다: {err}".to_string())
    );
    assert_eq!(
        text(&t, "info.generated"),
        Some("'{alg}' 알고리즘 키 페어 생성 완료(배리언트: {var}).".to_string())
    );
    for id in messages() {
        assert_eq!(text(&t, key(id)), Some(builtin(Language::Korean, id).to_string()));
        assert_eq!(t.message(id), builtin(Language::Korean, id));
    }
    assert_eq!(text(&t, "no.such.key"), None);
}

#[test]
fn english_without_a_file_is_the_built_in_table() {
    let t = load_translations("en", None);
    assert_eq!(text(&t, "info.pk_saved"), Some("Public key saved: {path}".to_string()));
    assert_eq!(
        text(&t, "error.large_stack_panic"),
        Some("Unknown panic occurred in large-stack thread.".to_string())
    );
    for id in messages() {
        assert_eq!(text(&t, key(id)), Some(builtin(Language::English, id).to_string()));
    }
}

#[test]
fn english_with_a_file_is_the_table_of_the_file() {
    let file = r#"{ "usage": "Use: {prog}", "info.pk_saved": "pk -> {path}", "extra": "x" }"#;
    let t = load_translations("en", Some(file));
    assert_eq!(text(&t, "usage"), Some("Use: {prog}".to_string()));
    assert_eq!(text(&t, "info.pk_saved"), Some("pk -> {path}".to_string()));
    assert_eq!(text(&t, "extra"), Some("x".to_string()));
    // The file replaces the built-in table: what it lacks is not there.
    assert_eq!(text(&t, "info.sk_saved"), None);
    assert_eq!(t.message(MessageId::SecretSaved), "비밀키 저장: {path}");
}

#[test]
fn an_unreadable_file_text_gives_the_built_in_english_table() {
    for file in ["", "not json", "[1, 2]", r#"{"usage": 3}"#, r#"{"usage": "x""#, "null"] {
        let t = load_translations("en", Some(file));
        assert_eq!(
            text(&t, "usage.lang"),
            Some("- Set output locale with [-lang]. Default is ko; en supported.".to_string())
        );
    }
}

#[test]
fn an_empty_object_is_an_empty_table() {
    let t = load_translations("en", Some("{}"));
    for id in messages() {
        assert_eq!(text(&t, key(id)), None);
        assert_eq!(t.message(id), plain(id));
    }
}

#[test]
fn the_last_of_two_entries_with_one_key_stays() {
    let t = load_translations("en", Some(r#"{"usage": "first", "usage": "second"}"#));
    assert_eq!(text(&t, "usage"), Some("second".to_string()));
    let entries = vec![
        ("a".to_string(), "1".to_string()),
        ("b".to_string(), "2".to_string()),
        ("a".to_string(), "3".to_string()),
    ];
    let t = Translations::from_entries(&entries);
    assert_eq!(text(&t, "a"), Some("3".to_string()));
    assert_eq!(text(&t, "b"), Some("2".to_string()));
}

#[test]
fn every_other_code_is_korean_whatever_the_file_holds() {
    let file = r#"{ "usage": "Use: {prog}" }"#;
    for lang in ["ko", "", "fr", "EN", "en ", "english"] {
        for given in [None, Some(file)] {
            let t = load_translations(lang, given);
            assert_eq!(text(&t, "info.sk_saved"), Some("비밀키 저장: {path}".to_string()));
            assert_eq!(
                text(&t, "usage"),
                Some(builtin(Language::Korean, MessageId::Usage).to_string())
            );
        }
    }
}

#[test]
fn select_translations_takes_the_entries_for_english_only() {
    let entries = || Some(vec![("usage".to_string(), "U".to_string())]);
    assert_eq!(text(&select_translations("en", entries()), "usage"), Some("U".to_string()));
    assert_eq!(
        text(&select_translations("ko", entries()), "usage"),
        Some(builtin(Language::Korean, MessageId::Usage).to_string())
    );
    assert_eq!(
        text(&select_translations("en", None), "usage"),
        Some(builtin(Language::English, MessageId::Usage).to_string())
    );
}

#[test]
fn only_english_has_a_translation_file() {
    assert_eq!(translation_file("en"), Some("i18n/en.json"));
    assert_eq!(translation_file("ko"), None);
    assert_eq!(translation_file("EN"), None);
    assert_eq!(translation_file(""), None);
}

#[test]
fn a_missing_message_falls_back_to_its_plain_text() {
    let empty = Translations::new();
    assert_eq!(empty.message(MessageId::Generated), "키 페어 생성 완료");
    assert_eq!(
        empty.message(MessageId::Usage),
        "사용법: {prog} -alg <알고리즘> [-var | -variant <배리언트>] [-pkpath <공개키 경로>] [-skpath <비밀키 경로>] [-pkt | -pktext] [-skt | -sktext] [-lang <i18n 언어팩>]"
    );
    assert_eq!(empty.message(MessageId::MissingAlgorithm), "필수 인자 누락: -alg <알고리즘>");
    for id in messages() {
        if id != MessageId::Generated && id != MessageId::Usage {
            assert_eq!(empty.message(id), builtin(Language::Korean, id));
        }
    }
}

#[test]
fn set_replaces_what_stood_under_the_key() {
    let mut t = Translations::new();
    assert_eq!(text(&t, "k"), None);
    t.set("k", "one");
    t.set("other", "x");
    assert_eq!(text(&t, "k"), Some("one".to_string()));
    t.set("k", "two");
    assert_eq!(text(&t, "k"), Some("two".to_string()));
    assert_eq!(text(&t, "other"), Some("x".to_string()));
}
