use hostconf::bytes::{i64_string, lines_of, parse_u32, split_bytes, u64_string};
use hostconf::cron::ensure_cron_lines;
use hostconf::digest::{compute_digest, digest_matches, parse_hex};
use hostconf::download::{ensure_download_plan, verify_fetched, DownloadPlan};
use hostconf::errors::Error;
use hostconf::fsops::{
    ensure_dir_plan, ensure_file_plan, ensure_removed_plan, ensure_symlink_plan,
};
use hostconf::pkg::missing_packages;
use hostconf::probe::{
    get_group_by_name, get_passwd_by_name, get_user_attr_by_name, parse_group_line,
    parse_passwd_line, parse_user_attr_line,
};
use hostconf::registry::{Driver, HostConfig, Registry, RoleProvider};
use hostconf::smf::{ensure_offline_plan, ensure_online_plan, online_result, SmfAction, SmfState};
use hostconf::types::{Create, FileInfo, FileKind, HashType, InstancePosture};
use hostconf::zfs::{dataset_ops, ensure_dataset_plan, DatasetPlan};

fn hex_of(bytes: &[u8]) -> String {
    let mut s = String::new();
    for b in bytes {
        s.push_str(&format!("{:02x}", b));
    }
    s
}

fn regular(uid: u32, gid: u32, mode: u32, digest: Vec<u8>) -> FileInfo {
    FileInfo {
        kind: FileKind::Regular,
        uid,
        gid,
        mode,
        size: 0,
        digest: Some(digest),
        target: None,
    }
}

#[test]
fn sha1_known_digest() {
    let d = compute_digest(HashType::SHA1, b"abc");
    assert_eq!(hex_of(&d), "a9993e364706816aba3e25717850c26c9cd0d89d");
}

#[test]
fn sha256_known_digest() {
    let d = compute_digest(HashType::SHA256, b"abc");
    assert_eq!(
        hex_of(&d),
        "ba7816bf8f01cfea414140de5dae2223b00361a396177a9cb410ff61f20015ad"
    );
}

#[test]
fn md5_known_digest() {
    let d = compute_digest(HashType::MD5, b"abc");
    assert_eq!(hex_of(&d), "900150983cd24fb0d6963f7d28e17f72");
}

#[test]
fn hex_parsing() {
    assert_eq!(parse_hex(b"00ff10"), Some(vec![0x00, 0xff, 0x10]));
    assert_eq!(parse_hex(b"ABCDEF"), Some(vec![0xab, 0xcd, 0xef]));
    assert_eq!(parse_hex(b"abc"), None);
    assert_eq!(parse_hex(b"zz"), None);
}

#[test]
fn digest_matching_is_exact() {
    let d = compute_digest(HashType::SHA1, b"abc");
    assert!(digest_matches("a9993e364706816aba3e25717850c26c9cd0d89d", &d));
    assert!(digest_matches("A9993E364706816ABA3E25717850C26C9CD0D89D", &d));
    assert!(!digest_matches("a9993e364706816aba3e25717850c26c9cd0d89e", &d));
    assert!(!digest_matches("not hex", &d));
}

#[test]
fn split_and_lines() {
    let f = split_bytes(b"a:b::c", b':');
    assert_eq!(f, vec![b"a".to_vec(), b"b".to_vec(), b"".to_vec(), b"c".to_vec()]);
    assert_eq!(split_bytes(b"", b':'), vec![b"".to_vec()]);
    let l = lines_of(b"one\ntwo\n");
    assert_eq!(l, vec![b"one".to_vec(), b"two".to_vec()]);
    assert_eq!(lines_of(b""), Vec::<Vec<u8>>::new());
    assert_eq!(lines_of(b"solo"), vec![b"solo".to_vec()]);
}

#[test]
fn decimal_parsing_and_rendering() {
    assert_eq!(parse_u32(b"0"), Some(0));
    assert_eq!(parse_u32(b"1001"), Some(1001));
    assert_eq!(parse_u32(b"4294967295"), Some(u32::MAX));
    assert_eq!(parse_u32(b"4294967296"), None);
    assert_eq!(parse_u32(b""), None);
    assert_eq!(parse_u32(b"12a"), None);
    assert_eq!(u64_string(0), "0");
    assert_eq!(u64_string(1001), "1001");
    assert_eq!(i64_string(-42), "-42");
    assert_eq!(i64_string(i64::MIN), "-9223372036854775808");
}

#[test]
fn file_initial_creation_then_converged() {
    // Absent destination: the file is written and the call reports a change.
    let source = compute_digest(HashType::SHA256, b"export PATH\n");
    let plan = ensure_file_plan(&source, &None, 0, 0, 0o600, Create::Always).unwrap();
    assert!(plan.create);
    assert!(plan.changed());
    // A second identical call over the state the write left reports none.
    let seen = regular(0, 0, 0o600, source.clone());
    let plan2 = ensure_file_plan(&source, &Some(seen), 0, 0, 0o600, Create::Always).unwrap();
    assert!(!plan2.changed());
}

#[test]
fn file_content_drift_rewrites() {
    let source = compute_digest(HashType::SHA256, b"new");
    let old = compute_digest(HashType::SHA256, b"old");
    let plan = ensure_file_plan(&source, &Some(regular(0, 0, 0o600, old)), 0, 0, 0o600,
        Create::Always)
        .unwrap();
    assert!(plan.create);
    assert!(plan.changed());
}

#[test]
fn file_if_missing_leaves_existing_alone() {
    let source = compute_digest(HashType::SHA256, b"new");
    let old = compute_digest(HashType::SHA256, b"old");
    let plan = ensure_file_plan(&source, &Some(regular(42, 42, 0o644, old)), 0, 0, 0o600,
        Create::IfMissing)
        .unwrap();
    assert!(!plan.changed());
}

#[test]
fn dir_type_mismatch() {
    let fi = regular(0, 0, 0o600, vec![]);
    assert_eq!(ensure_dir_plan(&Some(fi), 0, 0, 0o700), Err(Error::TypeMismatch));
}

#[test]
fn dir_ownership_reconciled() {
    let fi = FileInfo {
        kind: FileKind::Dir,
        uid: 5,
        gid: 0,
        mode: 0o700,
        size: 0,
        digest: None,
        target: None,
    };
    let plan = ensure_dir_plan(&Some(fi), 0, 0, 0o700).unwrap();
    assert!(plan.chown);
    assert!(!plan.chmod);
    assert!(!plan.create);
    assert!(plan.changed());
}

#[test]
fn symlink_retarget() {
    let fi = FileInfo {
        kind: FileKind::Link,
        uid: 0,
        gid: 0,
        mode: 0,
        size: 0,
        digest: None,
        target: Some("/old".to_string()),
    };
    let plan = ensure_symlink_plan(&Some(fi), &"/new".to_string(), 0, 0).unwrap();
    assert!(plan.create);
    let fi2 = FileInfo {
        kind: FileKind::Link,
        uid: 0,
        gid: 0,
        mode: 0,
        size: 0,
        digest: None,
        target: Some("/new".to_string()),
    };
    let plan2 = ensure_symlink_plan(&Some(fi2), &"/new".to_string(), 0, 0).unwrap();
    assert!(!plan2.changed());
}

#[test]
fn removed_is_idempotent() {
    assert!(ensure_removed_plan(&Some(regular(0, 0, 0o600, vec![]))));
    assert!(!ensure_removed_plan(&None));
}

#[test]
fn download_digest_verified() {
    // A kilobyte artifact fetched fresh: the plan fetches, verification
    // accepts the true digest, and a corrupted artifact is refused.
    let body = vec![7u8; 1024];
    let digest = compute_digest(HashType::SHA1, &body);
    let expected = hex_of(&digest);
    assert_eq!(ensure_download_plan(&None, &expected), DownloadPlan::Fetch);
    assert!(verify_fetched(&digest, &expected).is_ok());
    let mut corrupt = body.clone();
    corrupt[0] ^= 1;
    let bad = compute_digest(HashType::SHA1, &corrupt);
    assert_eq!(verify_fetched(&bad, &expected), Err(Error::DigestMismatch));
    // Present with the right digest: nothing to do.
    assert_eq!(
        ensure_download_plan(&Some(digest.clone()), &expected),
        DownloadPlan::AlreadyPresent
    );
}

#[test]
fn service_reload_on_config_change() {
    assert_eq!(ensure_online_plan(SmfState::Online, true), Ok(SmfAction::Refresh));
    assert_eq!(ensure_online_plan(SmfState::Online, false), Ok(SmfAction::Nothing));
    assert_eq!(ensure_online_plan(SmfState::Maintenance, false), Ok(SmfAction::Clear));
    assert_eq!(ensure_online_plan(SmfState::Disabled, false), Ok(SmfAction::Enable));
    assert_eq!(ensure_online_plan(SmfState::Offline, false), Ok(SmfAction::Wait));
    assert!(online_result(SmfState::Online).is_ok());
    assert_eq!(online_result(SmfState::Offline), Err(Error::ServiceDidNotStart));
    assert_eq!(ensure_offline_plan(SmfState::Online), SmfAction::Disable);
    assert_eq!(ensure_offline_plan(SmfState::Disabled), SmfAction::Nothing);
}

#[test]
fn dataset_convergence() {
    let desired = vec![
        ("compress".to_string(), "on".to_string()),
        ("mountpoint".to_string(), "/data".to_string()),
    ];
    // Absent: created with both properties at creation time.
    let plan = ensure_dataset_plan(false, &Vec::new(), desired.clone());
    match &plan {
        DatasetPlan::Create(p) => assert_eq!(p, &desired),
        _ => panic!("expected creation"),
    }
    let ops = dataset_ops(&"rpool/data".to_string(), &plan);
    assert_eq!(ops.len(), 1);
    // Drifted compress: only the drifted property is set back.
    let current = vec![
        ("compress".to_string(), "off".to_string()),
        ("mountpoint".to_string(), "/data".to_string()),
    ];
    let plan2 = ensure_dataset_plan(true, &current, desired.clone());
    match &plan2 {
        DatasetPlan::Adjust(p) => {
            assert_eq!(p.len(), 1);
            assert_eq!(p[0].0, "compress");
            assert_eq!(p[0].1, "on");
        },
        _ => panic!("expected adjustment"),
    }
    assert!(plan2.changed());
    // Converged: nothing to set.
    let plan3 = ensure_dataset_plan(true, &desired, desired.clone());
    match &plan3 {
        DatasetPlan::Adjust(p) => assert!(p.is_empty()),
        _ => panic!("expected adjustment"),
    }
    assert!(!plan3.changed());
}

#[test]
fn packages_installed_once() {
    let wanted = vec!["tmux".to_string(), "git".to_string()];
    let installed = vec!["git".to_string()];
    let missing = missing_packages(wanted.clone(), &installed);
    assert_eq!(missing, vec!["tmux".to_string()]);
    let after = vec!["git".to_string(), "tmux".to_string()];
    assert!(missing_packages(wanted, &after).is_empty());
}

#[test]
fn cron_stanza_added_then_stable() {
    let existing = vec!["# mine".to_string(), "1 2 3 4 5 /bin/true".to_string()];
    let (once, changed) = ensure_cron_lines(&existing, "renew", "0 0 * * * /bin/renew");
    assert!(changed);
    assert_eq!(once.len(), 5);
    // The same call over its own output is a no-op with an identical crontab.
    let (twice, changed2) = ensure_cron_lines(&once, "renew", "0 0 * * * /bin/renew");
    assert!(!changed2);
    assert_eq!(once, twice);
}

#[test]
fn cron_stale_stanza_replaced() {
    let (once, _) = ensure_cron_lines(&Vec::new(), "renew", "0 0 * * * /bin/old");
    let (next, changed) = ensure_cron_lines(&once, "renew", "0 0 * * * /bin/new");
    assert!(changed);
    assert!(next.iter().any(|l| l == "0 0 * * * /bin/new"));
    assert!(!next.iter().any(|l| l == "0 0 * * * /bin/old"));
    // Other users' lines survive the rewrite.
    let seeded = vec!["5 5 * * * /bin/other".to_string()];
    let (with_other, _) = ensure_cron_lines(&seeded, "renew", "0 0 * * * /bin/new");
    assert!(with_other.iter().any(|l| l == "5 5 * * * /bin/other"));
}

#[test]
fn passwd_probe() {
    let line = b"alice:x:1001:10:Alice:/home/alice:/bin/bash".to_vec();
    let e = parse_passwd_line(&line).unwrap();
    assert_eq!(e.name, b"alice".to_vec());
    assert_eq!(e.uid, 1001);
    assert_eq!(e.gid, 10);
    assert_eq!(e.home, b"/home/alice".to_vec());
    assert_eq!(e.shell, b"/bin/bash".to_vec());
    assert!(parse_passwd_line(&b"short:line".to_vec()).is_none());
    assert!(parse_passwd_line(&b"x:x:notanum:0:g:h:s".to_vec()).is_none());

    let lines = vec![
        b"root:x:0:0:Super-User:/root:/usr/bin/bash".to_vec(),
        line,
    ];
    assert!(get_passwd_by_name(&lines, &b"alice".to_vec()).is_some());
    assert!(get_passwd_by_name(&lines, &b"bob".to_vec()).is_none());
}

#[test]
fn group_probe() {
    let lines = vec![b"staff:x:10:alice,bob".to_vec()];
    let g = parse_group_line(&lines[0]).unwrap();
    assert_eq!(g.gid, 10);
    assert_eq!(g.members, vec![b"alice".to_vec(), b"bob".to_vec()]);
    assert!(get_group_by_name(&lines, &b"staff".to_vec()).is_some());
    assert!(get_group_by_name(&lines, &b"www".to_vec()).is_none());
}

#[test]
fn user_attr_probe() {
    let line = b"alice::::type=normal;profiles=Primary Administrator,Basic Solaris User".to_vec();
    let e = parse_user_attr_line(&line).unwrap();
    assert_eq!(
        e.profiles(),
        &vec![
            b"Primary Administrator".to_vec(),
            b"Basic Solaris User".to_vec()
        ]
    );
    let none = parse_user_attr_line(&b"bob::::type=normal".to_vec()).unwrap();
    assert!(none.profiles().is_empty());
    let lines = vec![line];
    assert!(get_user_attr_by_name(&lines, &b"alice".to_vec()).is_some());
    assert!(get_user_attr_by_name(&lines, &b"bob".to_vec()).is_none());
}

#[test]
fn duplicate_role_refused() {
    let mut reg = Registry::new();
    assert!(reg
        .register(RoleProvider { name: "base".to_string(), posture: InstancePosture::Prohibited })
        .is_ok());
    assert_eq!(
        reg.register(RoleProvider {
            name: "base".to_string(),
            posture: InstancePosture::Prohibited
        }),
        Err(Error::DuplicateRole)
    );
}

#[test]
fn prohibited_role_with_instance_rejected() {
    // The host configuration hands the role an instance label its posture
    // forbids: the apply fails before any role is invoked.
    let mut reg = Registry::new();
    reg.register(RoleProvider { name: "base".to_string(), posture: InstancePosture::Prohibited })
        .unwrap();
    let cfg = HostConfig { roles: vec![("base".to_string(), vec!["primary".to_string()])] };
    assert!(matches!(hostconf::registry::plan_apply(&reg, &cfg), Err(Error::ConfigInvalid)));
}

#[test]
fn unknown_role_rejected() {
    let reg = Registry::new();
    let cfg = HostConfig { roles: vec![("ghost".to_string(), vec![])] };
    assert!(matches!(hostconf::registry::plan_apply(&reg, &cfg), Err(Error::UnknownRole)));
}

#[test]
fn apply_order_and_instances() {
    let mut reg = Registry::new();
    reg.register(RoleProvider { name: "www".to_string(), posture: InstancePosture::Required })
        .unwrap();
    reg.register(RoleProvider { name: "base".to_string(), posture: InstancePosture::Prohibited })
        .unwrap();
    let cfg = HostConfig {
        roles: vec![
            ("base".to_string(), vec![]),
            ("www".to_string(), vec!["a".to_string(), "b".to_string()]),
        ],
    };
    let plan = hostconf::registry::plan_apply(&reg, &cfg).unwrap();
    // Registration order, instances in declared order.
    assert_eq!(plan.len(), 3);
    assert_eq!(plan[0].role, "www");
    assert_eq!(plan[0].instance.as_deref(), Some("a"));
    assert_eq!(plan[1].role, "www");
    assert_eq!(plan[1].instance.as_deref(), Some("b"));
    assert_eq!(plan[2].role, "base");
    assert_eq!(plan[2].instance, None);
}

#[test]
fn required_role_without_instance_rejected() {
    let mut reg = Registry::new();
    reg.register(RoleProvider { name: "www".to_string(), posture: InstancePosture::Required })
        .unwrap();
    let cfg = HostConfig { roles: vec![("www".to_string(), vec![])] };
    assert!(matches!(hostconf::registry::plan_apply(&reg, &cfg), Err(Error::ConfigInvalid)));
}

#[test]
fn driver_fails_fast() {
    let mut reg = Registry::new();
    reg.register(RoleProvider { name: "a".to_string(), posture: InstancePosture::Prohibited })
        .unwrap();
    reg.register(RoleProvider { name: "b".to_string(), posture: InstancePosture::Prohibited })
        .unwrap();
    let cfg = HostConfig {
        roles: vec![("a".to_string(), vec![]), ("b".to_string(), vec![])],
    };
    let plan = hostconf::registry::plan_apply(&reg, &cfg).unwrap();
    let mut driver = Driver::new(plan);
    assert!(driver.next_invocation().is_some());
    // The first role fails: no further invocation is issued.
    driver.record(false);
    assert!(driver.next_invocation().is_none());
}

#[test]
fn driver_runs_all_on_success() {
    let mut reg = Registry::new();
    reg.register(RoleProvider { name: "a".to_string(), posture: InstancePosture::Prohibited })
        .unwrap();
    reg.register(RoleProvider { name: "b".to_string(), posture: InstancePosture::Prohibited })
        .unwrap();
    let cfg = HostConfig {
        roles: vec![("a".to_string(), vec![]), ("b".to_string(), vec![])],
    };
    let plan = hostconf::registry::plan_apply(&reg, &cfg).unwrap();
    let mut driver = Driver::new(plan);
    let mut seen = Vec::new();
    while let Some(inv) = driver.next_invocation() {
        seen.push(inv.role.clone());
        driver.record(true);
    }
    assert_eq!(seen, vec!["a".to_string(), "b".to_string()]);
}
