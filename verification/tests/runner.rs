use pjdfstest::features::FileSystemFeature;
use pjdfstest::runner::{display_name, is_selected, run_case, skip_decision, CaseOutcome, RunTally};
use pjdfstest::text::{join, str_contains, trim_start_matches};

#[test]
fn display_names() {
    assert_eq!(display_name("pjdfstest::tests::chmod::errno::enotdir"), "chmod::errno::enotdir");
    assert_eq!(display_name("pjdfstest::tests::pjdfstest::tests::x"), "x");
    assert_eq!(display_name("pjdfstest::macros::t::basic"), "pjdfstest::macros::t::basic");
    assert_eq!(trim_start_matches("aaab", ""), "aaab");
    assert_eq!(trim_start_matches("ababc", "ab"), "c");
}

#[test]
fn selection() {
    let none: Vec<String> = vec![];
    assert!(is_selected("pjdfstest::tests::chmod::errno", &none, false));
    let pats = vec!["chmod".to_string(), "rename".to_string()];
    assert!(is_selected("pjdfstest::tests::chmod::errno", &pats, false));
    assert!(!is_selected("pjdfstest::tests::chmod::errno", &pats, true));
    assert!(!is_selected("pjdfstest::tests::unlink::x", &pats, false));
    let exact = vec!["pjdfstest::tests::chmod::errno".to_string()];
    assert!(is_selected("pjdfstest::tests::chmod::errno", &exact, true));
    assert!(str_contains("abc", ""));
    assert!(!str_contains("", "a"));
}

#[test]
fn skip_reasons() {
    let d = skip_decision(false, false, &[], &[], false, vec![]);
    assert!(!d.skip);
    assert!(d.reasons.is_empty());

    let d = skip_decision(true, false, &[], &[], false, vec![]);
    assert!(d.skip);
    assert_eq!(d.reasons, vec!["requires root privileges".to_string()]);

    let d = skip_decision(true, true, &[], &[], false, vec![]);
    assert!(!d.skip);

    let d = skip_decision(
        false,
        true,
        &[FileSystemFeature::Chflags, FileSystemFeature::PosixFallocate, FileSystemFeature::Chflags],
        &[FileSystemFeature::PosixFallocate],
        false,
        vec![],
    );
    assert!(d.skip);
    assert_eq!(d.reasons, vec!["requires features: chflags".to_string()]);

    let d = skip_decision(
        true,
        false,
        &[FileSystemFeature::Utimensat, FileSystemFeature::UtimeNow],
        &[],
        true,
        vec!["file flags SF_APPEND aren't supported".to_string()],
    );
    assert!(d.skip);
    assert_eq!(
        d.reasons,
        vec![
            "requires root privileges".to_string(),
            "requires features: utimensat, utime_now".to_string(),
            "file flags SF_APPEND aren't supported".to_string(),
        ]
    );

    let d = skip_decision(false, false, &[], &[], true, vec![]);
    assert!(d.skip);
    assert!(d.reasons.is_empty());
}

#[test]
fn tally_counts_each_case_once() {
    let mut t = RunTally::new();
    assert_eq!(t.total(), 0);
    assert!(!t.has_failures());
    t.record(CaseOutcome::Passed);
    t.record(CaseOutcome::Skipped);
    t.record(CaseOutcome::Passed);
    t.record(CaseOutcome::Failed);
    assert_eq!(t.failed(), 1);
    assert_eq!(t.skipped(), 1);
    assert_eq!(t.succeeded(), 2);
    assert_eq!(t.total(), 4);
    assert!(t.has_failures());
}

#[test]
fn join_strings() {
    assert_eq!(join(&vec![], ", "), "");
    assert_eq!(join(&vec!["a".to_string()], ", "), "a");
    assert_eq!(join(&vec!["a".to_string(), "b".to_string(), "c".to_string()], ", "), "a, b, c");
}

#[test]
fn run_case_counts_once_and_skips_without_running() {
    let mut t = RunTally::new();
    let skipped = skip_decision(false, true, &[FileSystemFeature::Chflags], &[], false, vec![]);
    let mut ran = false;
    assert_eq!(run_case(&mut t, &skipped, || { ran = true; true }), CaseOutcome::Skipped);
    assert!(!ran);
    let runs = skip_decision(false, true, &[], &[], false, vec![]);
    assert_eq!(run_case(&mut t, &runs, || true), CaseOutcome::Passed);
    assert_eq!(run_case(&mut t, &runs, || false), CaseOutcome::Failed);
    assert_eq!((t.failed(), t.skipped(), t.succeeded(), t.total()), (1, 1, 1, 3));
}
