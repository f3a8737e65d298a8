use keypairer::i18n::load_translations;
use keypairer::key_io::{
    save_keys, save_keys_default, FileMode, IoError, KeyFile, KeyWriter, Stage,
};
use keypairer::keygen::KeyMaterial;
use keypairer::pem::to_pem;

fn writer(pk_text: bool, sk_text: bool) -> KeyWriter {
    let material = KeyMaterial::new(vec![1, 2, 3, 4], vec![9, 8, 7]);
    KeyWriter::new(material, "out/a.pub", "out/a.sk", pk_text, sk_text)
}

fn failure(w: &KeyWriter) -> (bool, KeyFile, String, String) {
    match w.result() {
        Some(Err(IoError::CreateFailed { file, path, cause })) => (true, file, path, cause),
        Some(Err(IoError::WriteFailed { file, path, cause })) => (false, file, path, cause),
        _ => panic!("the writer has not failed"),
    }
}

#[test]
fn a_run_without_failure_writes_the_public_key_first() {
    let mut w = writer(false, false);

    assert_eq!(w.stage(), Stage::CreatePublic);
    assert_eq!(w.file(), KeyFile::Public);
    assert_eq!(w.path(), "out/a.pub");
    assert_eq!(w.mode(), FileMode::Default);
    assert!(w.payload().is_empty());
    assert!(w.result().is_none());

    w.advance(Ok(()));
    assert_eq!(w.stage(), Stage::WritePublic);
    assert_eq!(w.path(), "out/a.pub");
    assert_eq!(w.payload(), &[1, 2, 3, 4]);

    w.advance(Ok(()));
    assert_eq!(w.stage(), Stage::CreateSecret);
    assert_eq!(w.file(), KeyFile::Secret);
    assert_eq!(w.path(), "out/a.sk");
    assert_eq!(w.mode(), FileMode::OwnerOnly);
    assert!(w.payload().is_empty());

    w.advance(Ok(()));
    assert_eq!(w.stage(), Stage::WriteSecret);
    assert_eq!(w.mode(), FileMode::OwnerOnly);
    assert_eq!(w.payload(), &[9, 8, 7]);
    assert!(!w.is_wiped());

    w.advance(Ok(()));
    assert_eq!(w.stage(), Stage::Finished);
    assert!(matches!(w.result(), Some(Ok(()))));
    assert!(w.is_wiped());
    assert!(w.payload().is_empty());
}

#[test]
fn keys_go_out_as_text_where_asked() {
    let mut w = writer(true, true);
    w.advance(Ok(()));
    assert_eq!(w.payload(), to_pem("PUBLIC KEY", &[1, 2, 3, 4]).as_bytes());
    assert_eq!(w.payload(), b"-----BEGIN PUBLIC KEY-----\nAQIDBA==\n-----END PUBLIC KEY-----\n");
    w.advance(Ok(()));
    w.advance(Ok(()));
    assert_eq!(w.payload(), b"-----BEGIN SECRET KEY-----\nCQgH\n-----END SECRET KEY-----\n");
    w.advance(Ok(()));
    assert!(w.is_wiped());
}

#[test]
fn the_two_files_choose_their_form_independently() {
    let mut w = writer(true, false);
    w.advance(Ok(()));
    assert_eq!(w.payload(), to_pem("PUBLIC KEY", &[1, 2, 3, 4]).as_bytes());
    w.advance(Ok(()));
    w.advance(Ok(()));
    assert_eq!(w.payload(), &[9, 8, 7]);

    let mut w = writer(false, true);
    w.advance(Ok(()));
    assert_eq!(w.payload(), &[1, 2, 3, 4]);
    w.advance(Ok(()));
    w.advance(Ok(()));
    assert_eq!(w.payload(), to_pem("SECRET KEY", &[9, 8, 7]).as_bytes());
}

#[test]
fn the_public_buffer_is_wiped_once_its_file_is_written() {
    let mut w = writer(false, false);
    w.advance(Ok(()));
    w.advance(Ok(()));
    assert_eq!(w.stage(), Stage::CreateSecret);
    assert!(!w.is_wiped());
    w.advance(Ok(()));
    assert_eq!(w.payload(), &[9, 8, 7]);
}

#[test]
fn a_failure_to_create_the_public_file_ends_the_run() {
    let mut w = writer(false, false);
    w.advance(Err("permission denied".to_string()));
    assert_eq!(w.stage(), Stage::Finished);
    assert_eq!(
        failure(&w),
        (true, KeyFile::Public, "out/a.pub".to_string(), "permission denied".to_string())
    );
    assert!(w.is_wiped());
}

#[test]
fn a_failure_to_write_the_public_file_ends_the_run() {
    let mut w = writer(false, false);
    w.advance(Ok(()));
    w.advance(Err("disk full".to_string()));
    assert_eq!(w.stage(), Stage::Finished);
    assert_eq!(
        failure(&w),
        (false, KeyFile::Public, "out/a.pub".to_string(), "disk full".to_string())
    );
    assert!(w.is_wiped());
}

#[test]
fn a_failure_to_create_the_secret_file_ends_the_run() {
    let mut w = writer(false, false);
    w.advance(Ok(()));
    w.advance(Ok(()));
    w.advance(Err("read-only".to_string()));
    assert_eq!(w.stage(), Stage::Finished);
    assert_eq!(
        failure(&w),
        (true, KeyFile::Secret, "out/a.sk".to_string(), "read-only".to_string())
    );
    assert!(w.is_wiped());
}

#[test]
fn a_failure_to_write_the_secret_file_is_no_partial_success() {
    let mut w = writer(false, true);
    w.advance(Ok(()));
    w.advance(Ok(()));
    w.advance(Ok(()));
    w.advance(Err("quota".to_string()));
    assert_eq!(w.stage(), Stage::Finished);
    assert_eq!(
        failure(&w),
        (false, KeyFile::Secret, "out/a.sk".to_string(), "quota".to_string())
    );
    assert!(w.is_wiped());
    assert!(w.payload().is_empty());
}

#[test]
fn nothing_changes_after_the_end() {
    let mut w = writer(false, false);
    w.advance(Err("first".to_string()));
    w.advance(Ok(()));
    w.advance(Err("second".to_string()));
    assert_eq!(w.stage(), Stage::Finished);
    assert_eq!(
        failure(&w),
        (true, KeyFile::Public, "out/a.pub".to_string(), "first".to_string())
    );

    let mut w = writer(false, false);
    for _ in 0..4 {
        w.advance(Ok(()));
    }
    w.advance(Err("late".to_string()));
    assert!(matches!(w.result(), Some(Ok(()))));
    assert!(w.is_wiped());
}

#[test]
fn an_abandoned_run_holds_no_key_bytes() {
    let mut w = writer(true, false);
    w.advance(Ok(()));
    assert!(!w.is_wiped());
    w.abandon();
    assert_eq!(w.stage(), Stage::Finished);
    assert!(w.is_wiped());
    assert!(w.payload().is_empty());
    assert!(matches!(w.result(), Some(Ok(()))));
}

#[test]
fn empty_keys_are_written_as_empty_files() {
    let mut w = KeyWriter::new(KeyMaterial::new(vec![], vec![]), "p", "s", false, true);
    w.advance(Ok(()));
    assert!(w.payload().is_empty());
    w.advance(Ok(()));
    w.advance(Ok(()));
    assert_eq!(w.payload(), b"-----BEGIN SECRET KEY-----\n-----END SECRET KEY-----\n");
}

#[test]
fn save_keys_prepares_the_writer_and_the_report() {
    let tr = load_translations("en", None);
    let public: Vec<u8> = (0u8..40).collect();
    let job = save_keys(
        public.clone(),
        vec![5; 3],
        "k.pub",
        "k.sk",
        "mlkem",
        "512",
        false,
        false,
        &tr,
    );
    assert_eq!(
        job.report,
        vec![
            "Generated key pair for 'MLKEM' (variant: 512).".to_string(),
            "Public key saved: k.pub".to_string(),
            "Secret key saved: k.sk".to_string(),
            "Public key (base64) preview: AAECAwQFBgcICQoLDA0ODxAREhMUFRYXGBkaGxwdHh8=".to_string(),
        ]
    );
    let mut w = job.writer;
    assert_eq!(w.stage(), Stage::CreatePublic);
    assert_eq!(w.path(), "k.pub");
    w.advance(Ok(()));
    assert_eq!(w.payload(), &public[..]);
    w.advance(Ok(()));
    assert_eq!(w.path(), "k.sk");
    w.advance(Ok(()));
    assert_eq!(w.payload(), &[5, 5, 5]);
}

#[test]
fn save_keys_default_reports_in_korean() {
    let job = save_keys_default(vec![1, 2, 3], vec![4], "a.pub", "a.sk", "sphincs+", "x", true, true);
    assert_eq!(
        job.report,
        vec![
            "'SPHINCS+' 알고리즘 키 페어 생성 완료(배리언트: x).".to_string(),
            "공개키 저장: a.pub".to_string(),
            "비밀키 저장: a.sk".to_string(),
            "공개키(base64) 미리보기: AQID".to_string(),
        ]
    );
    let mut w = job.writer;
    w.advance(Ok(()));
    assert_eq!(w.payload(), b"-----BEGIN PUBLIC KEY-----\nAQID\n-----END PUBLIC KEY-----\n");
}
