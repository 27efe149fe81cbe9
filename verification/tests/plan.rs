//! Tests for the spawn plan: the exact argument vector and environment,
//! and the absence of the secret from both.

use borgify::backup::build_plan;
use borgify::config::Archive;

fn archive() -> Archive {
    Archive {
        compression: String::from("lzma"),
        repository: String::from("/path/to/repo"),
        root: String::from("/srv/data"),
        btrfs_snapshot: true,
        patterns: vec![String::from("+foo"), String::from("-bar")],
    }
}

#[test]
fn plan_arguments_are_exact() {
    let plan = build_plan(
        "docs",
        &archive(),
        "2024-01-02T03:04:05",
        "2024-01-02T04:04:05",
        0o077,
        Some(7),
    );
    assert_eq!(plan.program, "borg");
    let expected: Vec<String> = [
        "--verbose",
        "--progress",
        "--iec",
        "--umask",
        "077",
        "create",
        "--stats",
        "--exclude-caches",
        "--timestamp",
        "2024-01-02T03:04:05",
        "--compression",
        "lzma",
        "--pattern=+foo",
        "--pattern=-bar",
        "::docs-2024-01-02T04:04:05",
        ".",
    ]
    .iter()
    .map(|s| String::from(*s))
    .collect();
    assert_eq!(plan.args, expected);
}

#[test]
fn plan_environment_is_exact() {
    let plan = build_plan("docs", &archive(), "utc", "local", 0o022, Some(11));
    let expected = vec![
        (String::from("BORG_REPO"), String::from("/path/to/repo")),
        (String::from("BORG_FILES_CACHE_SUFFIX"), String::from("docs")),
        (String::from("BORG_PASSPHRASE_FD"), String::from("11")),
    ];
    assert_eq!(plan.env, expected);
}

#[test]
fn plan_without_secret_has_no_descriptor_variable() {
    let plan = build_plan("docs", &archive(), "utc", "local", 0o022, None);
    let expected = vec![
        (String::from("BORG_REPO"), String::from("/path/to/repo")),
        (String::from("BORG_FILES_CACHE_SUFFIX"), String::from("docs")),
    ];
    assert_eq!(plan.env, expected);
}

#[test]
fn umask_argument_renders_in_octal_with_leading_zero() {
    let plan = build_plan("a", &archive(), "u", "l", 0, None);
    assert_eq!(plan.args[4], "00");
    let plan = build_plan("a", &archive(), "u", "l", 0o777, None);
    assert_eq!(plan.args[4], "0777");
    let plan = build_plan("a", &archive(), "u", "l", 0o22, None);
    assert_eq!(plan.args[4], "022");
}

/// The secret never appears in the argument vector or the environment: it
/// is not even an input of the plan builder, so two plans for the same run
/// are identical whatever the secret is.
#[test]
fn secret_never_reaches_arguments_or_environment() {
    let secret = "hunter2-hunter2-hunter2";
    let plan = build_plan(
        "docs",
        &archive(),
        "2024-01-02T03:04:05",
        "2024-01-02T04:04:05",
        0o077,
        Some(9),
    );
    assert!(plan.args.iter().all(|a| !a.contains(secret)));
    assert!(plan.env.iter().all(|(k, v)| !k.contains(secret) && !v.contains(secret)));
    // Only the descriptor-number variable is added for the secret handoff.
    assert!(plan.env.iter().all(|(k, v)| k != "BORG_PASSPHRASE_FD" || v == "9"));
}
