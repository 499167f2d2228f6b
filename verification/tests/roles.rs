use hostconf::role_base::role_base;
use hostconf::role_local_homedir::role_local_homedir;
use hostconf::role_pkgsrc::{role_pkgsrc, PkgsrcConfig};
use hostconf::role_users::{
    group_ops, load, user_account_ops, user_home_ops, user_profile_ops, FileGroup, FileUser,
    Group, User, UserClass, UsersToml,
};
use hostconf::role_www::{
    bootstrap_command, bootstrap_next, gather_log_dirs, primary_domain, stale_site_files, tokens,
    www_finish_ops, BootstrapState,
};
use hostconf::role_zfs_data::role_zfs_data;
use hostconf::errors::Error;
use hostconf::registry::Registry;
use hostconf::types::{Create, FileInfo, FileKind, HomeDir, Op, Refresh, OS};

fn user_alice() -> User {
    User {
        name: "alice".to_string(),
        uid: 1001,
        class: UserClass::Ops,
        gecos: "alice".to_string(),
        group: "staff".to_string(),
        home: "/home/alice".to_string(),
        home_create: true,
        profiles: vec!["Primary Administrator".to_string()],
    }
}

#[test]
fn descriptor_defaults_applied() {
    let toml = UsersToml {
        users: vec![(
            "alice".to_string(),
            FileUser {
                class: UserClass::Ops,
                gecos: None,
                uid: 1001,
                group: "staff".to_string(),
                home: None,
                home_create: None,
                profiles: None,
            },
        )],
        groups: vec![("staff".to_string(), FileGroup { gid: 10 })],
    };
    let cfg = load(toml).unwrap();
    assert_eq!(cfg.users.len(), 1);
    let u = &cfg.users[0];
    assert_eq!(u.name, "alice");
    assert_eq!(u.gecos, "alice");
    assert_eq!(u.home, "/home/alice");
    assert!(u.home_create);
    assert!(u.profiles.is_empty());
    assert_eq!(cfg.groups[0].name, "staff");
    assert_eq!(cfg.groups[0].gid, 10);
}

#[test]
fn group_created_only_when_absent() {
    let g = Group { name: "staff".to_string(), gid: 10 };
    assert!(group_ops(&g, true).is_empty());
    let ops = group_ops(&g, false);
    assert_eq!(ops.len(), 1);
    match &ops[0] {
        Op::Run { argv } => {
            assert_eq!(argv, &vec!["/usr/sbin/groupadd", "-g", "10", "staff"]);
        },
        _ => panic!("expected a command"),
    }
}

#[test]
fn user_created_with_descriptor_arguments() {
    let u = user_alice();
    let ops = user_account_ops(&u, false);
    assert_eq!(ops.len(), 2);
    match &ops[0] {
        Op::Run { argv } => assert_eq!(
            argv,
            &vec![
                "/usr/sbin/useradd",
                "-u",
                "1001",
                "-g",
                "staff",
                "-d",
                "/home/alice",
                "-s",
                "/bin/bash",
                "-c",
                "alice",
                "alice"
            ]
        ),
        _ => panic!("expected useradd"),
    }
    match &ops[1] {
        Op::Run { argv } => assert_eq!(argv, &vec!["/bin/passwd", "-N", "alice"]),
        _ => panic!("expected passwd"),
    }
    // A second pass over an existing account only locks the password again.
    let again = user_account_ops(&u, true);
    assert_eq!(again.len(), 1);
}

#[test]
fn general_class_users_skipped() {
    let mut u = user_alice();
    u.class = UserClass::General;
    assert!(user_account_ops(&u, false).is_empty());
    assert!(user_profile_ops(&u, &Vec::new()).is_empty());
}

#[test]
fn usermod_only_on_profile_drift() {
    let u = user_alice();
    // Observed profiles match the descriptor: usermod is not invoked.
    let observed = vec![b"Primary Administrator".to_vec()];
    assert!(user_profile_ops(&u, &observed).is_empty());
    // Observed profiles differ: exactly one usermod -P.
    let ops = user_profile_ops(&u, &Vec::new());
    assert_eq!(ops.len(), 1);
    match &ops[0] {
        Op::Run { argv } => assert_eq!(
            argv,
            &vec!["/usr/sbin/usermod", "-P", "Primary Administrator", "alice"]
        ),
        _ => panic!("expected usermod"),
    }
}

#[test]
fn profile_join_is_comma_separated() {
    let mut u = user_alice();
    u.profiles = vec!["A".to_string(), "B".to_string()];
    let ops = user_profile_ops(&u, &Vec::new());
    match &ops[0] {
        Op::Run { argv } => assert_eq!(argv[2], "A,B"),
        _ => panic!("expected usermod"),
    }
}

#[test]
fn zfs_home_layout_enforced() {
    let mut u = user_alice();
    u.home = "/export/alice".to_string();
    let r = user_home_ops(
        &u,
        &HomeDir::ZFS("rpool/home".to_string()),
        &None,
        &Vec::new(),
        &"/data/users".to_string(),
    );
    assert!(matches!(r, Err(Error::ConfigInvalid)));
}

#[test]
fn zfs_home_dataset_and_directories() {
    let u = user_alice();
    let ops = user_home_ops(
        &u,
        &HomeDir::ZFS("rpool/home".to_string()),
        &Some("/data/users/ssh_keys/alice".to_string()),
        &vec!["bashrc".to_string()],
        &"/data/users".to_string(),
    )
    .unwrap();
    assert_eq!(ops.len(), 6);
    match &ops[0] {
        Op::EnsureDataset { name, properties } => {
            assert_eq!(name, "rpool/home/alice");
            assert!(properties.is_empty());
        },
        _ => panic!("expected dataset"),
    }
    match &ops[1] {
        Op::EnsureDir { path, mode, .. } => {
            assert_eq!(path, "/home/alice");
            assert_eq!(*mode, 0o700);
        },
        _ => panic!("expected home dir"),
    }
    match &ops[5] {
        Op::EnsureFile { dest, create, .. } => {
            assert_eq!(dest, "/home/alice/.bashrc");
            assert_eq!(*create, Create::IfMissing);
        },
        _ => panic!("expected dotfile"),
    }
}

#[test]
fn nfs_homes_untouched() {
    let u = user_alice();
    let ops = user_home_ops(&u, &HomeDir::NFS, &None, &Vec::new(), &"/d".to_string()).unwrap();
    assert!(ops.is_empty());
}

#[test]
fn base_role_plan() {
    let dots = vec!["bashrc".to_string(), "vimrc".to_string()];
    let ops = role_base(OS::OmniOS, true, &"/data/base".to_string(), &dots);
    // dir + 2 dotfiles + 4 removals + 2 ips + pkgsrc + ntp file + ntp service
    assert_eq!(ops.len(), 12);
    match &ops[1] {
        Op::EnsureFile { source, dest, .. } => {
            match source {
                hostconf::types::FileSource::Path(p) => {
                    assert_eq!(p, "/data/base/root/dotfiles/bashrc")
                },
                _ => panic!("expected a path source"),
            }
            assert_eq!(dest, "/root/.bashrc");
        },
        _ => panic!("expected dotfile"),
    }
    match &ops[11] {
        Op::EnsureOnline { fmri, refresh } => {
            assert_eq!(fmri, "svc:/network/ntp:default");
            assert_eq!(*refresh, Refresh::WhenPriorChanged);
        },
        _ => panic!("expected ntp service"),
    }
    // A non-global zone configures no NTP; SmartOS uses no IPS.
    assert_eq!(role_base(OS::OmniOS, false, &"/d".to_string(), &Vec::new()).len(), 8);
    assert_eq!(role_base(OS::SmartOS, true, &"/d".to_string(), &Vec::new()).len(), 6);
}

#[test]
fn zfs_data_role_plan() {
    let ops = role_zfs_data(&"rpool/data".to_string());
    assert_eq!(ops.len(), 1);
    match &ops[0] {
        Op::EnsureDataset { name, properties } => {
            assert_eq!(name, "rpool/data");
            assert_eq!(
                properties,
                &vec![
                    ("compress".to_string(), "on".to_string()),
                    ("mountpoint".to_string(), "/data".to_string())
                ]
            );
        },
        _ => panic!("expected dataset"),
    }
}

#[test]
fn local_homedir_role_guards() {
    assert!(matches!(
        role_local_homedir(OS::SmartOS, true, &"/d".to_string()),
        Err(Error::ConfigInvalid)
    ));
    assert!(matches!(
        role_local_homedir(OS::OmniOS, false, &"/d".to_string()),
        Err(Error::ConfigInvalid)
    ));
    let ops = role_local_homedir(OS::OmniOS, true, &"/d".to_string()).unwrap();
    assert_eq!(ops.len(), 5);
    match &ops[4] {
        Op::EnsureDataset { name, .. } => assert_eq!(name, "rpool/home"),
        _ => panic!("expected dataset"),
    }
}

#[test]
fn pkgsrc_bootstrap_skipped_when_usable() {
    let cfg = PkgsrcConfig {
        tar: "bootstrap.tar.gz".to_string(),
        sha: "abc0".to_string(),
        baseurl: "https://pkgsrc.example/".to_string(),
    };
    let pkgin = FileInfo {
        kind: FileKind::Regular,
        uid: 0,
        gid: 0,
        mode: 0o755,
        size: 1,
        digest: None,
        target: None,
    };
    assert!(role_pkgsrc(&Some(pkgin), &cfg).is_empty());
    let ops = role_pkgsrc(&None, &cfg);
    assert_eq!(ops.len(), 3);
    match &ops[0] {
        Op::EnsureDownload { url, dest, .. } => {
            assert_eq!(url, "https://pkgsrc.example/bootstrap.tar.gz");
            assert_eq!(dest, "/tmp/bootstrap.tar.gz");
        },
        _ => panic!("expected download"),
    }
}

#[test]
fn nginx_log_directories_gathered() {
    let lines = vec![
        b"server {".to_vec(),
        b"    access_log /var/log/www/site/access.log main;".to_vec(),
        b"    access_log off;".to_vec(),
        b"    access_log /var/log/www/site/extra.log;".to_vec(),
        b"}".to_vec(),
    ];
    let dirs = gather_log_dirs(&lines, Vec::new());
    assert_eq!(dirs, vec![b"/var/log/www/site".to_vec()]);
}

#[test]
fn line_tokens() {
    let t = tokens(b"  access_log   /var/x.log  main;");
    assert_eq!(
        t,
        vec![b"access_log".to_vec(), b"/var/x.log".to_vec(), b"main;".to_vec()]
    );
    assert!(tokens(b"   ").is_empty());
}

#[test]
fn primary_domain_of_instance() {
    let lines = vec![b"example.com www.example.com".to_vec()];
    assert_eq!(primary_domain(&lines).unwrap(), b"example.com".to_vec());
    assert!(matches!(primary_domain(&Vec::new()), Err(Error::ConfigInvalid)));
    assert!(matches!(primary_domain(&vec![b"  ".to_vec()]), Err(Error::ConfigInvalid)));
}

#[test]
fn stale_site_files_removed() {
    let existing = vec!["old.conf".to_string(), "site.conf".to_string()];
    let wanted = vec!["site.conf".to_string()];
    assert_eq!(stale_site_files(existing, &wanted), vec!["old.conf".to_string()]);
}

#[test]
fn bootstrap_retries_from_registration() {
    let s = BootstrapState::Registering;
    assert_eq!(bootstrap_next(s, false), BootstrapState::Registering);
    let s = bootstrap_next(s, true);
    assert_eq!(s, BootstrapState::Fetching);
    assert_eq!(bootstrap_next(s, false), BootstrapState::Registering);
    assert_eq!(bootstrap_next(s, true), BootstrapState::Done);
    assert!(bootstrap_command(BootstrapState::Done).is_none());
    let argv = bootstrap_command(BootstrapState::Registering).unwrap();
    assert_eq!(argv[2], "--register");
}

#[test]
fn renewal_cron_entry() {
    let ops = www_finish_ops(&"example.com".to_string());
    assert_eq!(ops.len(), 5);
    match &ops[4] {
        Op::EnsureCron { user, tag, line } => {
            assert_eq!(user, "root");
            assert_eq!(tag, "dehydrated");
            assert_eq!(line, "0 0 * * * /opt/dehydrated/bin/dehydrated --cron");
        },
        _ => panic!("expected cron entry"),
    }
    match &ops[0] {
        Op::EnsureSymlink { link, target, .. } => {
            assert_eq!(link, "/opt/local/etc/nginx/fullchain.pem");
            assert_eq!(target, "/var/opt/dehydrated/certs/example.com/fullchain.pem");
        },
        _ => panic!("expected symlink"),
    }
}

#[test]
fn roles_register_once() {
    let mut reg = Registry::new();
    assert!(hostconf::role_users::register(&mut reg).is_ok());
    assert!(hostconf::role_www::register(&mut reg).is_ok());
    assert!(hostconf::role_base::register(&mut reg).is_ok());
    assert!(hostconf::role_pkgsrc::register(&mut reg).is_ok());
    assert!(hostconf::role_zfs_data::register(&mut reg).is_ok());
    assert!(hostconf::role_local_homedir::register(&mut reg).is_ok());
    assert!(matches!(hostconf::role_base::register(&mut reg), Err(Error::DuplicateRole)));
}
