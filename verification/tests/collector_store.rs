use reworkit::codec::compress;
use reworkit::collector::{
    accumulate, check_secret, handle_submission, log_filename, validate, CollectorError, FormPart,
};
use reworkit::package::BuildResult;
use reworkit::store::{ResultStore, StoreError};

fn secret() -> String {
    "a-shared-secret".to_string()
}

fn parts(package: &str, arch: &str, success: &str, log: &[u8]) -> Vec<FormPart> {
    vec![
        FormPart::Package(package.to_string()),
        FormPart::Arch(arch.to_string()),
        FormPart::Success(success.to_string()),
        FormPart::Log(log.to_vec()),
    ]
}

fn find<'a>(rs: &'a [BuildResult], arch: &str) -> &'a BuildResult {
    rs.iter().find(|r| r.arch == arch).expect("arch missing")
}

#[test]
fn end_to_end_submit_query_overwrite() {
    let sec = secret();
    let mut store = ResultStore::new();

    let ok_log = compress(&b"ok".to_vec()).unwrap();
    let a = handle_submission(Some(&sec), &sec, &parts("foo", "amd64", "true", &ok_log), &mut store)
        .unwrap();
    assert_eq!(a.filename, "foo-amd64.log");
    assert_eq!(a.log, ok_log);

    let rs = store.query(&"foo".to_string()).unwrap();
    assert_eq!(rs.len(), 1);
    let r = find(&rs, "amd64");
    assert!(r.success);
    assert_eq!(r.log, "foo-amd64.log");

    let fail_log = compress(&b"fail".to_vec()).unwrap();
    handle_submission(Some(&sec), &sec, &parts("foo", "arm64", "false", &fail_log), &mut store)
        .unwrap();
    let rs = store.query(&"foo".to_string()).unwrap();
    assert_eq!(rs.len(), 2);
    assert!(find(&rs, "amd64").success);
    assert!(!find(&rs, "arm64").success);

    // Resubmitting for amd64 overwrites only the amd64 entry.
    handle_submission(Some(&sec), &sec, &parts("foo", "amd64", "false", &fail_log), &mut store)
        .unwrap();
    let rs = store.query(&"foo".to_string()).unwrap();
    assert_eq!(rs.len(), 2);
    assert!(!find(&rs, "amd64").success);
    assert_eq!(find(&rs, "amd64").log, "foo-amd64.log");
    assert!(!find(&rs, "arm64").success);
    assert_eq!(find(&rs, "arm64").log, "foo-arm64.log");
}

#[test]
fn same_pair_twice_last_write_wins_and_merges() {
    let sec = secret();
    let mut store = ResultStore::new();
    handle_submission(Some(&sec), &sec, &parts("pkg", "amd64", "true", b"1"), &mut store).unwrap();
    handle_submission(Some(&sec), &sec, &parts("pkg", "arm64", "true", b"2"), &mut store).unwrap();
    handle_submission(Some(&sec), &sec, &parts("pkg", "amd64", "false", b"3"), &mut store).unwrap();

    let rs = store.query(&"pkg".to_string()).unwrap();
    // Exactly one record per architecture, the later amd64 value, the
    // arm64 record still present: the merged view.
    assert_eq!(rs.len(), 2);
    assert!(!find(&rs, "amd64").success);
    assert!(find(&rs, "arm64").success);
}

#[test]
fn missing_fields_are_rejected_without_side_effects() {
    let sec = secret();
    let mut store = ResultStore::new();

    let no_package = vec![
        FormPart::Arch("amd64".to_string()),
        FormPart::Success("true".to_string()),
    ];
    let r = handle_submission(Some(&sec), &sec, &no_package, &mut store);
    assert!(matches!(r, Err(CollectorError::MissingPackage)));

    let no_arch = vec![
        FormPart::Package("foo".to_string()),
        FormPart::Success("true".to_string()),
    ];
    let r = handle_submission(Some(&sec), &sec, &no_arch, &mut store);
    assert!(matches!(r, Err(CollectorError::MissingArch)));

    let no_success = vec![
        FormPart::Package("foo".to_string()),
        FormPart::Arch("amd64".to_string()),
    ];
    let r = handle_submission(Some(&sec), &sec, &no_success, &mut store);
    assert!(matches!(r, Err(CollectorError::MissingSuccess)));

    // No store mutation happened: the package was never created.
    assert!(matches!(
        store.query(&"foo".to_string()),
        Err(StoreError::PackageNotFound)
    ));
}

#[test]
fn bad_or_missing_secret_is_rejected_without_side_effects() {
    let sec = secret();
    let wrong = "not-it".to_string();
    let mut store = ResultStore::new();

    let r = handle_submission(Some(&wrong), &sec, &parts("foo", "amd64", "true", b"x"), &mut store);
    assert!(matches!(r, Err(CollectorError::InvalidSecret)));

    let r = handle_submission(None, &sec, &parts("foo", "amd64", "true", b"x"), &mut store);
    assert!(matches!(r, Err(CollectorError::InvalidSecret)));

    assert!(matches!(
        store.query(&"foo".to_string()),
        Err(StoreError::PackageNotFound)
    ));
}

#[test]
fn check_secret_is_exact_equality() {
    let sec = secret();
    assert!(check_secret(Some(&sec), &sec));
    assert!(!check_secret(Some(&"a-shared-secret ".to_string()), &sec));
    assert!(!check_secret(Some(&"".to_string()), &sec));
    assert!(!check_secret(None, &sec));
}

#[test]
fn accumulate_concatenates_logs_and_keeps_last_text_field() {
    let ps = vec![
        FormPart::Package("first".to_string()),
        FormPart::Log(b"abc".to_vec()),
        FormPart::Other,
        FormPart::Package("second".to_string()),
        FormPart::Log(b"def".to_vec()),
    ];
    let f = accumulate(&ps);
    assert_eq!(f.package.as_deref(), Some("second"));
    assert_eq!(f.arch, None);
    assert_eq!(f.success, None);
    assert_eq!(f.log, b"abcdef".to_vec());
}

#[test]
fn validate_reads_success_text() {
    let f = accumulate(&parts("p", "a", "true", b""));
    assert!(validate(f).unwrap().success);
    let f = accumulate(&parts("p", "a", "false", b""));
    assert!(!validate(f).unwrap().success);
    // Any text but the literal `true` counts as false.
    let f = accumulate(&parts("p", "a", "True", b""));
    assert!(!validate(f).unwrap().success);
    let f = accumulate(&parts("p", "a", "yes", b""));
    assert!(!validate(f).unwrap().success);
}

#[test]
fn filename_is_package_dash_arch_dot_log() {
    let f = log_filename(&"glibc".to_string(), &"loongarch64".to_string());
    assert_eq!(f, "glibc-loongarch64.log");
}

#[test]
fn store_key_is_namespaced_by_package() {
    let k = reworkit::store::store_key(&"glibc".to_string());
    assert_eq!(k, "reworkit:glibc");
}

#[test]
fn query_unknown_package_is_distinct_error() {
    let store = ResultStore::new();
    let r = store.query(&"nosuch".to_string());
    assert!(matches!(r, Err(StoreError::PackageNotFound)));
    assert_eq!(StoreError::PackageNotFound.message(), "package not found");
}

#[test]
fn collector_error_messages() {
    assert_eq!(CollectorError::InvalidSecret.message(), "Invalid secret token");
    assert_eq!(CollectorError::MissingPackage.message(), "Missing package field");
    assert_eq!(CollectorError::MissingArch.message(), "Missing arch field");
    assert_eq!(CollectorError::MissingSuccess.message(), "Missing success field");
}

#[test]
fn upsert_across_packages_is_isolated() {
    let mut store = ResultStore::new();
    store.upsert("a".to_string(), "x".to_string(), true, "a-x.log".to_string());
    store.upsert("b".to_string(), "x".to_string(), false, "b-x.log".to_string());
    let ra = store.query(&"a".to_string()).unwrap();
    let rb = store.query(&"b".to_string()).unwrap();
    assert_eq!(ra.len(), 1);
    assert_eq!(rb.len(), 1);
    assert!(ra[0].success);
    assert!(!rb[0].success);
}
