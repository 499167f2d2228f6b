//! The user and group probe: verified parsers for the platform-standard
//! colon-delimited databases (`/etc/passwd`, `/etc/group`, `/etc/user_attr`)
//! and name lookups over their lines.  These never mutate; the shell reads
//! the files and hands their lines in.

use vstd::prelude::*;
use crate::bytes::{bytes_eq, spec_split, spec_parse_u32, split_bytes, parse_u32, string_to_bytes};
use crate::types::Owner;

verus! {

/// One `/etc/passwd` entry: `name:password:uid:gid:gecos:home:shell`.
pub struct PasswdEntry {
    pub name: Vec<u8>,
    pub uid: u32,
    pub gid: u32,
    pub gecos: Vec<u8>,
    pub home: Vec<u8>,
    pub shell: Vec<u8>,
}

#[verifier::ext_equal]
pub struct PasswdView {
    pub name: Seq<u8>,
    pub uid: u32,
    pub gid: u32,
    pub gecos: Seq<u8>,
    pub home: Seq<u8>,
    pub shell: Seq<u8>,
}

impl View for PasswdEntry {
    type V = PasswdView;

    open spec fn view(&self) -> PasswdView {
        PasswdView {
            name: self.name@,
            uid: self.uid,
            gid: self.gid,
            gecos: self.gecos@,
            home: self.home@,
            shell: self.shell@,
        }
    }
}

/// One `/etc/group` entry: `name:password:gid:member,member,...`.
pub struct GroupEntry {
    pub name: Vec<u8>,
    pub gid: u32,
    pub members: Vec<Vec<u8>>,
}

#[verifier::ext_equal]
pub struct GroupView {
    pub name: Seq<u8>,
    pub gid: u32,
    pub members: Seq<Seq<u8>>,
}

impl View for GroupEntry {
    type V = GroupView;

    open spec fn view(&self) -> GroupView {
        GroupView { name: self.name@, gid: self.gid, members: self.members.deep_view() }
    }
}

/// One `/etc/user_attr` entry, reduced to what the engine consumes: the user
/// name and the ordered authorization-profile list from the `profiles=`
/// attribute.
pub struct UserAttrEntry {
    pub name: Vec<u8>,
    pub profiles: Vec<Vec<u8>>,
}

#[verifier::ext_equal]
pub struct UserAttrView {
    pub name: Seq<u8>,
    pub profiles: Seq<Seq<u8>>,
}

impl View for UserAttrEntry {
    type V = UserAttrView;

    open spec fn view(&self) -> UserAttrView {
        UserAttrView { name: self.name@, profiles: self.profiles.deep_view() }
    }
}

impl UserAttrEntry {
    /// The ordered sequence of authorization profiles bound to the user.
    pub fn profiles(&self) -> (r: &Vec<Vec<u8>>)
        ensures
            r.deep_view() == self@.profiles,
    {
        &self.profiles
    }
}

fn clone_bytes(v: &Vec<u8>) -> (r: Vec<u8>)
    ensures
        r@ == v@,
{
    vstd::slice::slice_to_vec(v.as_slice())
}

/// What a `/etc/passwd` line denotes, if well-formed.
pub open spec fn spec_parse_passwd(line: Seq<u8>) -> Option<PasswdView> {
    let f = spec_split(line, 58);
    if f.len() < 7 {
        None
    } else {
        match (spec_parse_u32(f[2]), spec_parse_u32(f[3])) {
            (Some(uid), Some(gid)) => Some(
                PasswdView { name: f[0], uid, gid, gecos: f[4], home: f[5], shell: f[6] },
            ),
            _ => None,
        }
    }
}

/// Parse one `/etc/passwd` line.
pub fn parse_passwd_line(line: &Vec<u8>) -> (r: Option<PasswdEntry>)
    ensures
        match r {
            Some(e) => spec_parse_passwd(line@) == Some(e@),
            None => spec_parse_passwd(line@) is None,
        },
{
    let f = split_bytes(line.as_slice(), 58);
    if f.len() < 7 {
        return None;
    }
    proof {
        assert(f.deep_view()[0] == f@[0]@);
        assert(f.deep_view()[2] == f@[2]@);
        assert(f.deep_view()[3] == f@[3]@);
        assert(f.deep_view()[4] == f@[4]@);
        assert(f.deep_view()[5] == f@[5]@);
        assert(f.deep_view()[6] == f@[6]@);
    }
    let uid = parse_u32(f[2].as_slice());
    let gid = parse_u32(f[3].as_slice());
    match (uid, gid) {
        (Some(uid), Some(gid)) => {
            let e = PasswdEntry {
                name: clone_bytes(&f[0]),
                uid,
                gid,
                gecos: clone_bytes(&f[4]),
                home: clone_bytes(&f[5]),
                shell: clone_bytes(&f[6]),
            };
            proof {
                assert(spec_parse_passwd(line@).unwrap() =~~= e@);
            }
            Some(e)
        },
        _ => None,
    }
}

/// What a `/etc/group` line denotes, if well-formed.  An empty member field
/// denotes one empty member name, as the raw format does.
pub open spec fn spec_parse_group(line: Seq<u8>) -> Option<GroupView> {
    let f = spec_split(line, 58);
    if f.len() < 4 {
        None
    } else {
        match spec_parse_u32(f[2]) {
            Some(gid) => Some(GroupView { name: f[0], gid, members: spec_split(f[3], 44) }),
            None => None,
        }
    }
}

/// Parse one `/etc/group` line.
pub fn parse_group_line(line: &Vec<u8>) -> (r: Option<GroupEntry>)
    ensures
        match r {
            Some(e) => spec_parse_group(line@) == Some(e@),
            None => spec_parse_group(line@) is None,
        },
{
    let f = split_bytes(line.as_slice(), 58);
    if f.len() < 4 {
        return None;
    }
    proof {
        assert(f.deep_view()[0] == f@[0]@);
        assert(f.deep_view()[2] == f@[2]@);
        assert(f.deep_view()[3] == f@[3]@);
    }
    match parse_u32(f[2].as_slice()) {
        Some(gid) => {
            let members = split_bytes(f[3].as_slice(), 44);
            let r = GroupEntry { name: clone_bytes(&f[0]), gid, members };
            proof {
                assert(spec_parse_group(line@).unwrap() =~~= r@);
            }
            Some(r)
        },
        None => None,
    }
}

/// The byte spelling of the attribute key `profiles`.
pub open spec fn profiles_key() -> Seq<u8> {
    seq![112u8, 114u8, 111u8, 102u8, 105u8, 108u8, 101u8, 115u8]
}

fn profiles_key_bytes() -> (r: Vec<u8>)
    ensures
        r@ == profiles_key(),
{
    let mut r: Vec<u8> = Vec::new();
    r.push(112);
    r.push(114);
    r.push(111);
    r.push(102);
    r.push(105);
    r.push(108);
    r.push(101);
    r.push(115);
    proof {
        assert(r@ =~= profiles_key());
    }
    r
}

/// A `key=value` attribute split at its first `=`, if it has one.
pub open spec fn spec_split_kv(s: Seq<u8>) -> Option<(Seq<u8>, Seq<u8>)>
    decreases s.len(),
{
    if s.len() == 0 {
        None
    } else if s[0] == 61 {
        Some((Seq::empty(), s.drop_first()))
    } else {
        match spec_split_kv(s.drop_first()) {
            Some((k, v)) => Some((seq![s[0]] + k, v)),
            None => None,
        }
    }
}

fn split_kv(s: &[u8]) -> (r: Option<(Vec<u8>, Vec<u8>)>)
    ensures
        match r {
            Some((k, v)) => spec_split_kv(s@) == Some((k@, v@)),
            None => spec_split_kv(s@) is None,
        },
    decreases s@.len(),
{
    if s.len() == 0 {
        None
    } else if s[0] == 61 {
        let v = vstd::slice::slice_to_vec(vstd::slice::slice_subrange(s, 1, s.len()));
        proof {
            assert(v@ =~= s@.drop_first());
        }
        Some((Vec::new(), v))
    } else {
        let tail = vstd::slice::slice_subrange(s, 1, s.len());
        proof {
            assert(tail@ =~= s@.drop_first());
        }
        match split_kv(tail) {
            Some((mut k, v)) => {
                k.insert(0, s[0]);
                proof {
                    assert(k@ =~= seq![s@[0]] + spec_split_kv(s@.drop_first()).unwrap().0);
                }
                Some((k, v))
            },
            None => None,
        }
    }
}

/// The profile list carried by a sequence of `key=value` attributes: the
/// comma-split value of the first `profiles` key, or empty when there is
/// none.
pub open spec fn spec_profiles_of(pairs: Seq<Seq<u8>>) -> Seq<Seq<u8>>
    decreases pairs.len(),
{
    if pairs.len() == 0 {
        Seq::empty()
    } else {
        let kv = spec_split_kv(pairs[0]);
        if kv is Some && kv.unwrap().0 == profiles_key() {
            spec_split(kv.unwrap().1, 44)
        } else {
            spec_profiles_of(pairs.drop_first())
        }
    }
}

fn profiles_of(pairs: &Vec<Vec<u8>>) -> (r: Vec<Vec<u8>>)
    ensures
        r.deep_view() == spec_profiles_of(pairs.deep_view()),
{
    let ghost pv = pairs.deep_view();
    let key = profiles_key_bytes();
    let mut i: usize = 0;
    proof {
        assert(pv.skip(0) =~~= pv);
    }
    while i < pairs.len()
        invariant
            0 <= i <= pairs@.len(),
            pv == pairs.deep_view(),
            key@ == profiles_key(),
            spec_profiles_of(pv) == spec_profiles_of(pv.skip(i as int)),
        decreases pairs@.len() - i,
    {
        proof {
            assert(pv.skip(i as int).drop_first() =~~= pv.skip(i + 1));
            assert(pv.skip(i as int)[0] == pv[i as int]);
            assert(pv[i as int] == pairs@[i as int]@);
        }
        match split_kv(pairs[i].as_slice()) {
            Some((k, v)) => {
                if bytes_eq(&k, &key) {
                    return split_bytes(v.as_slice(), 44);
                }
            },
            None => {},
        }
        i += 1;
    }
    proof {
        assert(pv.skip(pv.len() as int) =~~= Seq::<Seq<u8>>::empty());
    }
    Vec::new()
}

/// What a `/etc/user_attr` line denotes, if well-formed:
/// `user:qualifier:res1:res2:attr` with semicolon-separated attributes.
pub open spec fn spec_parse_user_attr(line: Seq<u8>) -> Option<UserAttrView> {
    let f = spec_split(line, 58);
    if f.len() < 5 {
        None
    } else {
        Some(UserAttrView { name: f[0], profiles: spec_profiles_of(spec_split(f[4], 59)) })
    }
}

/// Parse one `/etc/user_attr` line.
pub fn parse_user_attr_line(line: &Vec<u8>) -> (r: Option<UserAttrEntry>)
    ensures
        match r {
            Some(e) => spec_parse_user_attr(line@) == Some(e@),
            None => spec_parse_user_attr(line@) is None,
        },
{
    let f = split_bytes(line.as_slice(), 58);
    if f.len() < 5 {
        return None;
    }
    proof {
        assert(f.deep_view()[0] == f@[0]@);
        assert(f.deep_view()[4] == f@[4]@);
    }
    let pairs = split_bytes(f[4].as_slice(), 59);
    let profiles = profiles_of(&pairs);
    let e = UserAttrEntry { name: clone_bytes(&f[0]), profiles };
    proof {
        assert(spec_parse_user_attr(line@).unwrap() =~~= e@);
    }
    Some(e)
}

/// The first well-formed passwd entry for `name` among the lines.
pub open spec fn spec_lookup_passwd(lines: Seq<Seq<u8>>, name: Seq<u8>) -> Option<PasswdView>
    decreases lines.len(),
{
    if lines.len() == 0 {
        None
    } else {
        let p = spec_parse_passwd(lines[0]);
        if p is Some && p.unwrap().name == name {
            p
        } else {
            spec_lookup_passwd(lines.drop_first(), name)
        }
    }
}

/// Look a user up by name over the lines of `/etc/passwd`.
pub fn get_passwd_by_name(lines: &Vec<Vec<u8>>, name: &Vec<u8>) -> (r: Option<PasswdEntry>)
    ensures
        match r {
            Some(e) => spec_lookup_passwd(lines.deep_view(), name@) == Some(e@),
            None => spec_lookup_passwd(lines.deep_view(), name@) is None,
        },
{
    let ghost lv = lines.deep_view();
    let mut i: usize = 0;
    proof {
        assert(lv.skip(0) =~~= lv);
    }
    while i < lines.len()
        invariant
            0 <= i <= lines@.len(),
            lv == lines.deep_view(),
            spec_lookup_passwd(lv, name@) == spec_lookup_passwd(lv.skip(i as int), name@),
        decreases lines@.len() - i,
    {
        proof {
            assert(lv.skip(i as int).drop_first() =~~= lv.skip(i + 1));
            assert(lv.skip(i as int)[0] == lv[i as int]);
            assert(lv[i as int] == lines@[i as int]@);
        }
        match parse_passwd_line(&lines[i]) {
            Some(e) => {
                if bytes_eq(&e.name, name) {
                    return Some(e);
                }
            },
            None => {},
        }
        i += 1;
    }
    proof {
        assert(lv.skip(lv.len() as int) =~~= Seq::<Seq<u8>>::empty());
    }
    None
}

/// The first well-formed group entry for `name` among the lines.
pub open spec fn spec_lookup_group(lines: Seq<Seq<u8>>, name: Seq<u8>) -> Option<GroupView>
    decreases lines.len(),
{
    if lines.len() == 0 {
        None
    } else {
        let p = spec_parse_group(lines[0]);
        if p is Some && p.unwrap().name == name {
            p
        } else {
            spec_lookup_group(lines.drop_first(), name)
        }
    }
}

/// Look a group up by name over the lines of `/etc/group`.
pub fn get_group_by_name(lines: &Vec<Vec<u8>>, name: &Vec<u8>) -> (r: Option<GroupEntry>)
    ensures
        match r {
            Some(e) => spec_lookup_group(lines.deep_view(), name@) == Some(e@),
            None => spec_lookup_group(lines.deep_view(), name@) is None,
        },
{
    let ghost lv = lines.deep_view();
    let mut i: usize = 0;
    proof {
        assert(lv.skip(0) =~~= lv);
    }
    while i < lines.len()
        invariant
            0 <= i <= lines@.len(),
            lv == lines.deep_view(),
            spec_lookup_group(lv, name@) == spec_lookup_group(lv.skip(i as int), name@),
        decreases lines@.len() - i,
    {
        proof {
            assert(lv.skip(i as int).drop_first() =~~= lv.skip(i + 1));
            assert(lv.skip(i as int)[0] == lv[i as int]);
            assert(lv[i as int] == lines@[i as int]@);
        }
        match parse_group_line(&lines[i]) {
            Some(e) => {
                if bytes_eq(&e.name, name) {
                    return Some(e);
                }
            },
            None => {},
        }
        i += 1;
    }
    proof {
        assert(lv.skip(lv.len() as int) =~~= Seq::<Seq<u8>>::empty());
    }
    None
}

/// The first well-formed user_attr entry for `name` among the lines.
pub open spec fn spec_lookup_user_attr(lines: Seq<Seq<u8>>, name: Seq<u8>) -> Option<UserAttrView>
    decreases lines.len(),
{
    if lines.len() == 0 {
        None
    } else {
        let p = spec_parse_user_attr(lines[0]);
        if p is Some && p.unwrap().name == name {
            p
        } else {
            spec_lookup_user_attr(lines.drop_first(), name)
        }
    }
}

/// Look a user up by name over the lines of `/etc/user_attr`.
pub fn get_user_attr_by_name(lines: &Vec<Vec<u8>>, name: &Vec<u8>) -> (r: Option<UserAttrEntry>)
    ensures
        match r {
            Some(e) => spec_lookup_user_attr(lines.deep_view(), name@) == Some(e@),
            None => spec_lookup_user_attr(lines.deep_view(), name@) is None,
        },
{
    let ghost lv = lines.deep_view();
    let mut i: usize = 0;
    proof {
        assert(lv.skip(0) =~~= lv);
    }
    while i < lines.len()
        invariant
            0 <= i <= lines@.len(),
            lv == lines.deep_view(),
            spec_lookup_user_attr(lv, name@) == spec_lookup_user_attr(lv.skip(i as int), name@),
        decreases lines@.len() - i,
    {
        proof {
            assert(lv.skip(i as int).drop_first() =~~= lv.skip(i + 1));
            assert(lv.skip(i as int)[0] == lv[i as int]);
            assert(lv[i as int] == lines@[i as int]@);
        }
        match parse_user_attr_line(&lines[i]) {
            Some(e) => {
                if bytes_eq(&e.name, name) {
                    return Some(e);
                }
            },
            None => {},
        }
        i += 1;
    }
    proof {
        assert(lv.skip(lv.len() as int) =~~= Seq::<Seq<u8>>::empty());
    }
    None
}

/// The uid a desired owner denotes, given the passwd lines.
pub open spec fn spec_resolve_user(o: Owner, lines: Seq<Seq<u8>>) -> Option<u32> {
    match o {
        Owner::Id(id) => Some(id),
        Owner::Name(n) => match spec_lookup_passwd(lines, vstd::utf8::encode_utf8(n@)) {
            Some(e) => Some(e.uid),
            None => None,
        },
    }
}

/// The gid a desired group denotes, given the group lines.
pub open spec fn spec_resolve_group(o: Owner, lines: Seq<Seq<u8>>) -> Option<u32> {
    match o {
        Owner::Id(id) => Some(id),
        Owner::Name(n) => match spec_lookup_group(lines, vstd::utf8::encode_utf8(n@)) {
            Some(e) => Some(e.gid),
            None => None,
        },
    }
}

/// Resolve a desired owner to a numeric uid through the passwd lines.
pub fn resolve_user(owner: &Owner, passwd_lines: &Vec<Vec<u8>>) -> (r: Option<u32>)
    ensures
        r == spec_resolve_user(*owner, passwd_lines.deep_view()),
{
    match owner {
        Owner::Id(id) => Some(*id),
        Owner::Name(n) => {
            let nb = string_to_bytes(n.as_str());
            match get_passwd_by_name(passwd_lines, &nb) {
                Some(e) => Some(e.uid),
                None => None,
            }
        },
    }
}

/// Resolve a desired group to a numeric gid through the group lines.
pub fn resolve_group(owner: &Owner, group_lines: &Vec<Vec<u8>>) -> (r: Option<u32>)
    ensures
        r == spec_resolve_group(*owner, group_lines.deep_view()),
{
    match owner {
        Owner::Id(id) => Some(*id),
        Owner::Name(n) => {
            let nb = string_to_bytes(n.as_str());
            match get_group_by_name(group_lines, &nb) {
                Some(e) => Some(e.gid),
                None => None,
            }
        },
    }
}

} // verus!
