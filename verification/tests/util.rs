use keypairer::util::{finalize_paths, resolve_path};

fn some(s: &str) -> Option<String> {
    Some(s.to_string())
}

#[test]
fn missing_paths_take_the_name_of_the_algorithm() {
    assert_eq!(
        finalize_paths(&None, &None, "mlkem"),
        ("mlkem.pub".to_string(), "mlkem.sk".to_string())
    );
    assert_eq!(
        finalize_paths(&None, &None, "sphincs+"),
        ("sphincs+.pub".to_string(), "sphincs+.sk".to_string())
    );
}

#[test]
fn a_path_without_extension_gets_the_default_one() {
    assert_eq!(
        finalize_paths(&some("a"), &some("b"), "mlkem"),
        ("a.pub".to_string(), "b.sk".to_string())
    );
    assert_eq!(
        finalize_paths(&some("out/key"), &None, "hqc"),
        ("out/key.pub".to_string(), "hqc.sk".to_string())
    );
}

#[test]
fn a_path_with_an_extension_is_kept() {
    assert_eq!(
        finalize_paths(&some("a.pem"), &some("b.key"), "mlkem"),
        ("a.pem".to_string(), "b.key".to_string())
    );
    assert_eq!(
        finalize_paths(&some("a.pub"), &some("dir/b.tar.gz"), "mlkem"),
        ("a.pub".to_string(), "dir/b.tar.gz".to_string())
    );
}

#[test]
fn a_dot_outside_the_file_name_is_no_extension() {
    assert_eq!(
        finalize_paths(&some("keys.d/public"), &some(".hidden"), "mlkem"),
        ("keys.d/public.pub".to_string(), ".hidden.sk".to_string())
    );
}

#[test]
fn resolve_path_follows_the_answer_it_is_given() {
    assert_eq!(resolve_path(&some("a.b"), true, "mlkem", ".pub"), "a.b");
    assert_eq!(resolve_path(&some("a.b"), false, "mlkem", ".pub"), "a.b.pub");
    assert_eq!(resolve_path(&None, true, "mlkem", ".sk"), "mlkem.sk");
    assert_eq!(resolve_path(&None, false, "mlkem", ".sk"), "mlkem.sk");
}
