//! The `users` role: UNIX groups and users converged from a declarative
//! descriptor — group and account creation, password locking, authorization
//! profiles, and home directory contents.

use vstd::prelude::*;
use vstd::utf8::encode_utf8;
use crate::bytes::{bytes_eq, dec_str_int, i64_string, string_to_bytes};
use crate::context::{join_path, owner_is};
use crate::errors::Error;
use crate::registry::{reg_has, Registry, RoleProvider};
use crate::types::{Create, FileSource, HomeDir, InstancePosture, Op, Owner};

verus! {

/// The class of a declared user.
#[derive(Clone, Copy, Debug, PartialEq, Eq, Structural)]
pub enum UserClass {
    Ops,
    General,
    Service,
}

/// A user entry as it stands in the descriptor, before defaults.
pub struct FileUser {
    pub class: UserClass,
    pub gecos: Option<String>,
    pub uid: i64,
    pub group: String,
    pub home: Option<String>,
    pub home_create: Option<bool>,
    pub profiles: Option<Vec<String>>,
}

/// A group entry as it stands in the descriptor.
pub struct FileGroup {
    pub gid: i64,
}

/// The raw descriptor: users and groups keyed by name.
pub struct UsersToml {
    pub users: Vec<(String, FileUser)>,
    pub groups: Vec<(String, FileGroup)>,
}

/// A user after defaults were applied.
pub struct User {
    pub name: String,
    pub uid: i64,
    pub class: UserClass,
    pub gecos: String,
    pub group: String,
    pub home: String,
    pub home_create: bool,
    pub profiles: Vec<String>,
}

/// A group after loading.
pub struct Group {
    pub name: String,
    pub gid: i64,
}

/// The loaded configuration, in descriptor order.
pub struct UsersConfig {
    pub users: Vec<User>,
    pub groups: Vec<Group>,
}

/// Defaults: a missing gecos is the login name, a missing home is
/// `/home/<login>`, a missing `home_create` is true, missing profiles are
/// none.
pub open spec fn loaded_user_ok(key: String, fu: FileUser, u: User) -> bool {
    &&& u.name@ == key@
    &&& u.uid == fu.uid
    &&& u.class == fu.class
    &&& u.gecos@ == (match fu.gecos {
        Some(g) => g@,
        None => key@,
    })
    &&& u.group@ == fu.group@
    &&& u.home@ == (match fu.home {
        Some(h) => h@,
        None => "/home/"@ + key@,
    })
    &&& u.home_create == (match fu.home_create {
        Some(b) => b,
        None => true,
    })
    &&& u.profiles.deep_view() == (match fu.profiles {
        Some(p) => p.deep_view(),
        None => Seq::<Seq<char>>::empty(),
    })
}

pub open spec fn loaded_group_ok(key: String, fg: FileGroup, g: Group) -> bool {
    g.name@ == key@ && g.gid == fg.gid
}

/// Apply defaults to the raw descriptor.  Defaults are applied here, after
/// parsing, so that absent values stay distinguishable from explicit ones
/// until this point.
pub fn load(toml: UsersToml) -> (r: Result<UsersConfig, Error>)
    ensures
        (r matches Ok(cfg) && cfg.users@.len() == toml.users@.len() && cfg.groups@.len()
            == toml.groups@.len() && (forall|i: int|
            0 <= i < toml.users@.len() ==> loaded_user_ok(
                toml.users@[i].0,
                toml.users@[i].1,
                #[trigger] cfg.users@[i],
            )) && (forall|i: int|
            0 <= i < toml.groups@.len() ==> loaded_group_ok(
                toml.groups@[i].0,
                toml.groups@[i].1,
                #[trigger] cfg.groups@[i],
            ))),
{
    let ghost tu = toml.users@;
    let ghost tg = toml.groups@;
    let mut users: Vec<User> = Vec::new();
    let mut rem = toml.users;
    while rem.len() > 0
        invariant
            users@.len() + rem@.len() == tu.len(),
            rem@ =~= tu.skip(users@.len() as int),
            forall|j: int|
                0 <= j < users@.len() ==> loaded_user_ok(tu[j].0, tu[j].1, #[trigger] users@[j]),
        decreases rem@.len(),
    {
        let ghost done = users@.len() as int;
        proof {
            assert(rem@[0] == tu[done]);
            assert(rem@.drop_first() =~= tu.skip(done + 1));
        }
        let (k, v) = rem.remove(0);
        let gecos = match v.gecos {
            Some(g) => g,
            None => k.clone(),
        };
        let home = match v.home {
            Some(h) => h,
            None => {
                let mut h = "/home/".to_owned();
                h.append(k.as_str());
                h
            },
        };
        let home_create = match v.home_create {
            Some(b) => b,
            None => true,
        };
        let profiles = match v.profiles {
            Some(p) => p,
            None => Vec::new(),
        };
        users.push(
            User {
                name: k,
                uid: v.uid,
                class: v.class,
                gecos,
                group: v.group,
                home,
                home_create,
                profiles,
            },
        );
        proof {
            let nu = users@[done];
            if tu[done].1.profiles is None {
                assert(nu.profiles.deep_view() =~~= Seq::<Seq<char>>::empty());
            }
            if tu[done].1.profiles is Some {
                assert(nu.profiles.deep_view() =~~= tu[done].1.profiles.unwrap().deep_view());
            }
            assert(loaded_user_ok(tu[done].0, tu[done].1, nu));
        }
    }
    let mut groups: Vec<Group> = Vec::new();
    let mut rem = toml.groups;
    while rem.len() > 0
        invariant
            groups@.len() + rem@.len() == tg.len(),
            rem@ =~= tg.skip(groups@.len() as int),
            forall|j: int|
                0 <= j < groups@.len() ==> loaded_group_ok(tg[j].0, tg[j].1, #[trigger] groups@[j]),
        decreases rem@.len(),
    {
        let ghost done = groups@.len() as int;
        proof {
            assert(rem@[0] == tg[done]);
            assert(rem@.drop_first() =~= tg.skip(done + 1));
        }
        let (k, v) = rem.remove(0);
        groups.push(Group { name: k, gid: v.gid });
    }
    Ok(UsersConfig { users, groups })
}

/// Whether `op` runs exactly the given argv.
pub open spec fn run_op(op: Op, argv: Seq<Seq<char>>) -> bool {
    op matches Op::Run { argv: a } && a.deep_view() == argv
}

/// The operations that converge one group: nothing when it exists, one
/// `groupadd -g <gid> <name>` when it does not.
pub fn group_ops(g: &Group, exists: bool) -> (r: Vec<Op>)
    ensures
        exists ==> r@.len() == 0,
        !exists ==> r@.len() == 1 && run_op(
            r@[0],
            seq!["/usr/sbin/groupadd"@, "-g"@, dec_str_int(g.gid as int), g.name@],
        ),
{
    let mut r: Vec<Op> = Vec::new();
    if !exists {
        let mut argv: Vec<String> = Vec::new();
        argv.push("/usr/sbin/groupadd".to_owned());
        argv.push("-g".to_owned());
        argv.push(i64_string(g.gid));
        argv.push(g.name.clone());
        proof {
            assert(argv.deep_view() =~~= seq![
                "/usr/sbin/groupadd"@,
                "-g"@,
                dec_str_int(g.gid as int),
                g.name@,
            ]);
        }
        r.push(Op::Run { argv });
    }
    r
}

/// The exact `useradd` invocation for a declared user.
pub open spec fn useradd_argv(u: User) -> Seq<Seq<char>> {
    seq![
        "/usr/sbin/useradd"@,
        "-u"@,
        dec_str_int(u.uid as int),
        "-g"@,
        u.group@,
        "-d"@,
        u.home@,
        "-s"@,
        "/bin/bash"@,
        "-c"@,
        u.gecos@,
        u.name@,
    ]
}

/// The account phase of one user: `General`-class users are skipped
/// entirely; service and operator accounts are created when absent and have
/// their password locked (`passwd -N`) on every run.
pub fn user_account_ops(u: &User, passwd_exists: bool) -> (r: Vec<Op>)
    ensures
        u.class == UserClass::General ==> r@.len() == 0,
        u.class != UserClass::General && passwd_exists ==> r@.len() == 1 && run_op(
            r@[0],
            seq!["/bin/passwd"@, "-N"@, u.name@],
        ),
        u.class != UserClass::General && !passwd_exists ==> r@.len() == 2 && run_op(
            r@[0],
            useradd_argv(*u),
        ) && run_op(r@[1], seq!["/bin/passwd"@, "-N"@, u.name@]),
{
    let mut r: Vec<Op> = Vec::new();
    if u.class == UserClass::General {
        return r;
    }
    if !passwd_exists {
        let mut argv: Vec<String> = Vec::new();
        argv.push("/usr/sbin/useradd".to_owned());
        argv.push("-u".to_owned());
        argv.push(i64_string(u.uid));
        argv.push("-g".to_owned());
        argv.push(u.group.clone());
        argv.push("-d".to_owned());
        argv.push(u.home.clone());
        argv.push("-s".to_owned());
        argv.push("/bin/bash".to_owned());
        argv.push("-c".to_owned());
        argv.push(u.gecos.clone());
        argv.push(u.name.clone());
        proof {
            assert(argv.deep_view() =~~= useradd_argv(*u));
        }
        r.push(Op::Run { argv });
    }
    let mut argv: Vec<String> = Vec::new();
    argv.push("/bin/passwd".to_owned());
    argv.push("-N".to_owned());
    argv.push(u.name.clone());
    proof {
        assert(argv.deep_view() =~~= seq!["/bin/passwd"@, "-N"@, u.name@]);
    }
    r.push(Op::Run { argv });
    r
}

/// Whether the observed profile sequence equals the desired one.
pub open spec fn profiles_match(desired: Seq<Seq<char>>, observed: Seq<Seq<u8>>) -> bool {
    observed.len() == desired.len() && (forall|i: int|
        0 <= i < desired.len() ==> #[trigger] observed[i] == encode_utf8(desired[i]))
}

fn profiles_match_exec(desired: &Vec<String>, observed: &Vec<Vec<u8>>) -> (r: bool)
    ensures
        r == profiles_match(desired.deep_view(), observed.deep_view()),
{
    if desired.len() != observed.len() {
        return false;
    }
    let mut i: usize = 0;
    while i < desired.len()
        invariant
            0 <= i <= desired@.len(),
            desired@.len() == observed@.len(),
            forall|j: int|
                0 <= j < i ==> #[trigger] observed.deep_view()[j] == encode_utf8(
                    desired.deep_view()[j],
                ),
        decreases desired@.len() - i,
    {
        let db = string_to_bytes(desired[i].as_str());
        proof {
            assert(desired.deep_view()[i as int] == desired@[i as int]@);
            assert(observed.deep_view()[i as int] == observed@[i as int]@);
            assert(db@ == encode_utf8(desired@[i as int]@));
        }
        if !bytes_eq(&db, &observed[i]) {
            proof {
                assert(observed.deep_view()[i as int] != encode_utf8(desired.deep_view()[i as int]));
            }
            return false;
        }
        i += 1;
    }
    true
}

/// The desired profile list as `usermod -P` takes it: comma-joined.
pub open spec fn joined_profiles(ps: Seq<Seq<char>>) -> Seq<char>
    decreases ps.len(),
{
    if ps.len() == 0 {
        Seq::empty()
    } else if ps.len() == 1 {
        ps[0]
    } else {
        joined_profiles(ps.drop_last()) + seq![','] + ps.last()
    }
}

fn join_profiles(ps: &Vec<String>) -> (r: String)
    ensures
        r@ == joined_profiles(ps.deep_view()),
{
    let ghost pv = ps.deep_view();
    let mut s = String::new();
    let mut i: usize = 0;
    proof {
        assert(pv.take(0) =~~= Seq::<Seq<char>>::empty());
    }
    while i < ps.len()
        invariant
            0 <= i <= ps@.len(),
            pv == ps.deep_view(),
            s@ == joined_profiles(pv.take(i as int)),
        decreases ps@.len() - i,
    {
        if i > 0 {
            proof {
                reveal_strlit(",");
            }
            s.append(",");
            proof {
                assert(","@ =~= seq![',']);
            }
        }
        s.append(ps[i].as_str());
        proof {
            let t = pv.take(i + 1);
            assert(t.drop_last() =~~= pv.take(i as int));
            assert(t.last() == pv[i as int]);
            if i == 0 {
                assert(s@ =~= joined_profiles(t));
            } else {
                assert(s@ =~= joined_profiles(t));
            }
        }
        i += 1;
    }
    proof {
        assert(pv.take(ps@.len() as int) =~~= pv);
    }
    s
}

/// The profile phase of one user: `usermod -P` is invoked exactly when the
/// desired and observed profile sequences differ.  `usermod -P` rewrites the
/// database whether or not anything changed, and the naming-service cache
/// daemon then drops its cache for seconds, so a convergent run must not
/// touch it.
pub fn user_profile_ops(u: &User, observed: &Vec<Vec<u8>>) -> (r: Vec<Op>)
    ensures
        u.class == UserClass::General ==> r@.len() == 0,
        u.class != UserClass::General && profiles_match(
            u.profiles.deep_view(),
            observed.deep_view(),
        ) ==> r@.len() == 0,
        u.class != UserClass::General && !profiles_match(
            u.profiles.deep_view(),
            observed.deep_view(),
        ) ==> r@.len() == 1 && run_op(
            r@[0],
            seq![
                "/usr/sbin/usermod"@,
                "-P"@,
                joined_profiles(u.profiles.deep_view()),
                u.name@,
            ],
        ),
{
    let mut r: Vec<Op> = Vec::new();
    if u.class == UserClass::General {
        return r;
    }
    if !profiles_match_exec(&u.profiles, observed) {
        let mut argv: Vec<String> = Vec::new();
        argv.push("/usr/sbin/usermod".to_owned());
        argv.push("-P".to_owned());
        argv.push(join_profiles(&u.profiles));
        argv.push(u.name.clone());
        proof {
            assert(argv.deep_view() =~~= seq![
                "/usr/sbin/usermod"@,
                "-P"@,
                joined_profiles(u.profiles.deep_view()),
                u.name@,
            ]);
        }
        r.push(Op::Run { argv });
    }
    r
}

/// One home-contents file op: a dotfile installed only if missing.
pub open spec fn home_dotfile_op(op: Op, data_dir: Seq<char>, home: Seq<char>, u: User, n: Seq<char>) -> bool {
    op matches Op::EnsureFile { source, dest, owner, group, mode, create }
        && (source matches FileSource::Path(p) && p@ == data_dir + "/"@ + "dotfiles/"@ + n)
        && dest@ == home + "/."@ + n && owner_is(owner, u.name@) && owner_is(group, u.group@)
        && mode == 0o600 && create == Create::IfMissing
}

/// One home directory op with the user's ownership.
pub open spec fn home_dir_op(op: Op, path: Seq<char>, u: User, mode: u32) -> bool {
    op matches Op::EnsureDir { path: p, owner, group, mode: m } && p@ == path && owner_is(
        owner,
        u.name@,
    ) && owner_is(group, u.group@) && m == mode
}

/// The home phase of one user.  `General`-class users, users declared with
/// `home_create = false`, and hosts with NFS-automounted homes get nothing.
/// Under a ZFS home policy the only supported layout is
/// `<dataset>/<login>` mounted at `/home/<login>`; any other declared home
/// is `ConfigInvalid`.  Then the home, `.ssh` and `bin` directories are
/// converged, the authorized-keys file when the role carries one, and each
/// dotfile is installed only where missing.
pub fn user_home_ops(
    u: &User,
    homedir: &HomeDir,
    sshkeys: &Option<String>,
    dotfiles: &Vec<String>,
    data_dir: &String,
) -> (r: Result<Vec<Op>, Error>)
    ensures
        u.class == UserClass::General || !u.home_create || homedir is NFS ==> (r matches Ok(v)
            && v@.len() == 0),
        u.class != UserClass::General && u.home_create && (homedir matches HomeDir::ZFS(ds)
            && u.home@ != "/home/"@ + u.name@) ==> r == Err::<Vec<Op>, Error>(Error::ConfigInvalid),
        u.class != UserClass::General && u.home_create && (match *homedir {
            HomeDir::NFS => false,
            HomeDir::ZFS(ds) => u.home@ == "/home/"@ + u.name@,
            HomeDir::Bare => true,
        }) ==> (r matches Ok(v) && {
            let z: int = if homedir is ZFS {
                1
            } else {
                0
            };
            let s: int = if sshkeys is Some {
                1
            } else {
                0
            };
            let nd = dotfiles@.len() as int;
            &&& v@.len() == z + 3 + s + nd
            &&& (homedir matches HomeDir::ZFS(ds) ==> (v@[0] matches Op::EnsureDataset {
                name,
                properties,
            } && name@ == ds@ + "/"@ + u.name@ && properties@.len() == 0))
            &&& home_dir_op(v@[z], u.home@, *u, 0o700)
            &&& home_dir_op(v@[z + 1], u.home@ + "/"@ + ".ssh"@, *u, 0o700)
            &&& home_dir_op(v@[z + 2], u.home@ + "/"@ + "bin"@, *u, 0o755)
            &&& (sshkeys matches Some(src) ==> (v@[z + 3] matches Op::EnsureFile {
                source,
                dest,
                owner,
                group,
                mode,
                create,
            } && (source matches FileSource::Path(p) && p@ == src@) && dest@ == u.home@ + "/"@
                + ".ssh/authorized_keys"@ && owner_is(owner, u.name@) && owner_is(group, u.group@)
                && mode == 0o600 && create == Create::Always))
            &&& forall|d: int|
                0 <= d < nd ==> home_dotfile_op(
                    #[trigger] v@[z + 3 + s + d],
                    data_dir@,
                    u.home@,
                    *u,
                    dotfiles.deep_view()[d],
                )
        }),
{
    let mut r: Vec<Op> = Vec::new();
    if u.class == UserClass::General || !u.home_create {
        return Ok(r);
    }
    match homedir {
        HomeDir::NFS => {
            // Automounted home directories are never touched.
            return Ok(r);
        },
        HomeDir::ZFS(dataset) => {
            let mut expect = "/home/".to_owned();
            expect.append(u.name.as_str());
            if !(u.home == expect) {
                return Err(Error::ConfigInvalid);
            }
            let dsname = join_path(dataset.as_str(), u.name.as_str());
            r.push(Op::EnsureDataset { name: dsname, properties: Vec::new() });
        },
        HomeDir::Bare => {
            // Bare directories directly under /home.
        },
    }
    r.push(
        Op::EnsureDir {
            path: u.home.clone(),
            owner: Owner::Name(u.name.clone()),
            group: Owner::Name(u.group.clone()),
            mode: 0o700,
        },
    );
    r.push(
        Op::EnsureDir {
            path: join_path(u.home.as_str(), ".ssh"),
            owner: Owner::Name(u.name.clone()),
            group: Owner::Name(u.group.clone()),
            mode: 0o700,
        },
    );
    r.push(
        Op::EnsureDir {
            path: join_path(u.home.as_str(), "bin"),
            owner: Owner::Name(u.name.clone()),
            group: Owner::Name(u.group.clone()),
            mode: 0o755,
        },
    );
    if let Some(src) = sshkeys {
        r.push(
            Op::EnsureFile {
                source: FileSource::Path(src.clone()),
                dest: join_path(u.home.as_str(), ".ssh/authorized_keys"),
                owner: Owner::Name(u.name.clone()),
                group: Owner::Name(u.group.clone()),
                mode: 0o600,
                create: Create::Always,
            },
        );
    }
    let ghost base = r@.len() as int;
    let ghost head = r@;
    let ghost z: int = if homedir is ZFS { 1int } else { 0int };
    let ghost s: int = if sshkeys is Some { 1int } else { 0int };
    proof {
        assert(base == z + 3 + s);
        assert(homedir matches HomeDir::ZFS(ds) ==> (head[0] matches Op::EnsureDataset {
            name,
            properties,
        } && name@ == ds@ + "/"@ + u.name@ && properties@.len() == 0));
        assert(home_dir_op(head[z], u.home@, *u, 0o700));
        assert(home_dir_op(head[z + 1], u.home@ + "/"@ + ".ssh"@, *u, 0o700));
        assert(home_dir_op(head[z + 2], u.home@ + "/"@ + "bin"@, *u, 0o755));
        assert(sshkeys matches Some(src) ==> (head[z + 3] matches Op::EnsureFile {
            source,
            dest,
            owner,
            group,
            mode,
            create,
        } && (source matches FileSource::Path(p) && p@ == src@) && dest@ == u.home@ + "/"@
            + ".ssh/authorized_keys"@ && owner_is(owner, u.name@) && owner_is(group, u.group@)
            && mode == 0o600 && create == Create::Always));
    }
    let ghost dots = dotfiles.deep_view();
    let mut d: usize = 0;
    while d < dotfiles.len()
        invariant
            0 <= d <= dotfiles@.len(),
            dots == dotfiles.deep_view(),
            r@.len() == base + d,
            head.len() == base,
            r@.take(base) == head,
            forall|q: int|
                0 <= q < d ==> home_dotfile_op(
                    #[trigger] r@[base + q],
                    data_dir@,
                    u.home@,
                    *u,
                    dots[q],
                ),
        decreases dotfiles@.len() - d,
    {
        let rel = join_path("dotfiles", dotfiles[d].as_str());
        let src = join_path(data_dir.as_str(), rel.as_str());
        let mut dst = u.home.clone();
        dst.append("/.");
        dst.append(dotfiles[d].as_str());
        proof {
            reveal_strlit("dotfiles");
            reveal_strlit("/");
            reveal_strlit("dotfiles/");
            assert("dotfiles"@ + "/"@ =~= "dotfiles/"@);
            assert(src@ =~= data_dir@ + "/"@ + "dotfiles/"@ + dots[d as int]);
            reveal_strlit("/.");
        }
        r.push(
            Op::EnsureFile {
                source: FileSource::Path(src),
                dest: dst,
                owner: Owner::Name(u.name.clone()),
                group: Owner::Name(u.group.clone()),
                mode: 0o600,
                create: Create::IfMissing,
            },
        );
        d += 1;
    }
    proof {
        assert forall|q: int| 0 <= q < base implies r@[q] == head[q] by {
            assert(r@.take(base)[q] == r@[q]);
        }
    }
    Ok(r)
}

/// Register the `users` role; it takes no instance label.
pub fn register(registry: &mut Registry) -> (r: Result<(), Error>)
    ensures
        reg_has(old(registry).entries(), "users"@) ==> r == Err::<(), Error>(Error::DuplicateRole)
            && *final(registry) == *old(registry),
        !reg_has(old(registry).entries(), "users"@) ==> r == Ok::<(), Error>(()) && ({
            let e = final(registry).entries();
            &&& e == old(registry).entries().push(e.last())
            &&& e.last().name@ == "users"@
            &&& e.last().posture == InstancePosture::Prohibited
        }),
        old(registry).wf() ==> final(registry).wf(),
{
    registry.register(
        RoleProvider { name: "users".to_owned(), posture: InstancePosture::Prohibited },
    )
}

} // verus!
