//! Role registry and apply driver: providers are registered once under
//! unique names, cross-checked against the host configuration, ordered by
//! registration, and executed fail-fast.

use vstd::prelude::*;
use crate::errors::Error;
use crate::types::InstancePosture;

verus! {

/// A registered role: a name and the posture governing instance labels.
/// The role callback itself lives with the shell, keyed by this name.
#[derive(Clone, Debug)]
pub struct RoleProvider {
    pub name: String,
    pub posture: InstancePosture,
}

/// The role registry.  Names are unique; registration order is execution
/// order.
pub struct Registry {
    pub providers: Vec<RoleProvider>,
}

/// One (role, instance) pair the driver will run.
#[derive(Clone, Debug)]
pub struct Invocation {
    pub role: String,
    pub instance: Option<String>,
}

/// The host configuration: which roles this host runs, each with its
/// instance labels (empty means one activation without an instance).
pub struct HostConfig {
    pub roles: Vec<(String, Vec<String>)>,
}

/// Whether some provider carries `name`.
pub open spec fn reg_has(reg: Seq<RoleProvider>, name: Seq<char>) -> bool {
    exists|i: int| 0 <= i < reg.len() && #[trigger] reg[i].name@ == name
}

impl Registry {
    pub open spec fn entries(self) -> Seq<RoleProvider> {
        self.providers@
    }

    /// Well-formed: no two providers share a name.
    pub open spec fn wf(self) -> bool {
        forall|i: int, j: int|
            0 <= i < j < self.providers@.len() ==> #[trigger] self.providers@[i].name@
                != #[trigger] self.providers@[j].name@
    }

    pub fn new() -> (r: Registry)
        ensures
            r.entries() == Seq::<RoleProvider>::empty(),
            r.wf(),
    {
        Registry { providers: Vec::new() }
    }

    /// The providers in registration order.
    pub fn providers(&self) -> (r: &Vec<RoleProvider>)
        ensures
            r@ == self.entries(),
    {
        &self.providers
    }

    /// Register a provider under its name.  Duplicate registration fails
    /// with `DuplicateRole` and leaves the registry unchanged.
    pub fn register(&mut self, p: RoleProvider) -> (r: Result<(), Error>)
        ensures
            reg_has(old(self).entries(), p.name@) ==> r == Err::<(), Error>(Error::DuplicateRole)
                && *final(self) == *old(self),
            !reg_has(old(self).entries(), p.name@) ==> r == Ok::<(), Error>(())
                && final(self).entries() == old(self).entries().push(p),
            old(self).wf() ==> final(self).wf(),
    {
        let ghost pre = self.providers@;
        let mut i: usize = 0;
        while i < self.providers.len()
            invariant
                0 <= i <= self.providers@.len(),
                self.providers@ == pre,
                forall|j: int| 0 <= j < i ==> #[trigger] pre[j].name@ != p.name@,
            decreases self.providers@.len() - i,
        {
            if self.providers[i].name == p.name {
                return Err(Error::DuplicateRole);
            }
            i += 1;
        }
        self.providers.push(p);
        proof {
            if old(self).wf() {
                assert forall|a: int, b: int|
                    0 <= a < b < self.providers@.len() implies #[trigger] self.providers@[a].name@
                    != #[trigger] self.providers@[b].name@ by {
                    assert(self.providers@[a] == pre[a]);
                    if b < pre.len() {
                        assert(self.providers@[b] == pre[b]);
                        assert(pre[a].name@ != pre[b].name@);
                    } else {
                        assert(self.providers@[b] == p);
                        assert(pre[a].name@ != p.name@);
                    }
                }
            }
        }
        Ok(())
    }
}

/// The instance labels the host configuration gives `name` (first entry
/// wins), or `None` when the host does not run that role.
pub open spec fn config_lookup(cfg: Seq<(String, Vec<String>)>, name: Seq<char>) -> Option<
    Vec<String>,
>
    decreases cfg.len(),
{
    if cfg.len() == 0 {
        None
    } else if cfg[0].0@ == name {
        Some(cfg[0].1)
    } else {
        config_lookup(cfg.drop_first(), name)
    }
}

/// Whether the configuration names a role that was never registered.
pub open spec fn spec_unknown(cfg: Seq<(String, Vec<String>)>, reg: Seq<RoleProvider>) -> bool {
    exists|i: int| 0 <= i < cfg.len() && !reg_has(reg, #[trigger] cfg[i].0@)
}

/// Whether a posture admits the given number of instance labels.
pub open spec fn posture_ok(p: InstancePosture, n: int) -> bool {
    match p {
        InstancePosture::Required => n >= 1,
        InstancePosture::Prohibited => n == 0,
        InstancePosture::Optional => true,
    }
}

/// Whether some registered role is configured with labels its posture
/// forbids.
pub open spec fn spec_violation(reg: Seq<RoleProvider>, cfg: Seq<(String, Vec<String>)>) -> bool {
    exists|i: int|
        0 <= i < reg.len() && (match config_lookup(cfg, #[trigger] reg[i].name@) {
            Some(insts) => !posture_ok(reg[i].posture, insts@.len() as int),
            None => false,
        })
}

/// The invocations one provider contributes: none when the host does not run
/// it, one instance-less activation when it is configured without labels,
/// otherwise one per label in order.
pub open spec fn spec_role_invocations(p: RoleProvider, cfg: Seq<(String, Vec<String>)>) -> Seq<
    (Seq<char>, Option<Seq<char>>),
> {
    match config_lookup(cfg, p.name@) {
        None => Seq::empty(),
        Some(insts) => if insts@.len() == 0 {
            seq![(p.name@, None::<Seq<char>>)]
        } else {
            Seq::new(insts@.len(), |k: int| (p.name@, Some(insts@[k]@)))
        },
    }
}

/// The full execution order: providers in registration order, each expanded
/// to its invocations.
pub open spec fn spec_plan(reg: Seq<RoleProvider>, cfg: Seq<(String, Vec<String>)>) -> Seq<
    (Seq<char>, Option<Seq<char>>),
>
    decreases reg.len(),
{
    if reg.len() == 0 {
        Seq::empty()
    } else {
        spec_role_invocations(reg[0], cfg) + spec_plan(reg.drop_first(), cfg)
    }
}

/// The view of an invocation list.
pub open spec fn inv_views(v: Seq<Invocation>) -> Seq<(Seq<char>, Option<Seq<char>>)> {
    Seq::new(
        v.len(),
        |i: int|
            (
                v[i].role@,
                match v[i].instance {
                    Some(s) => Some(s@),
                    None => None,
                },
            ),
    )
}

fn config_lookup_exec<'a>(cfg: &'a HostConfig, name: &String) -> (r: Option<&'a Vec<String>>)
    ensures
        match r {
            Some(v) => config_lookup(cfg.roles@, name@) == Some(*v),
            None => config_lookup(cfg.roles@, name@) is None,
        },
{
    let mut i: usize = 0;
    proof {
        assert(cfg.roles@.skip(0) =~= cfg.roles@);
    }
    while i < cfg.roles.len()
        invariant
            0 <= i <= cfg.roles@.len(),
            config_lookup(cfg.roles@, name@) == config_lookup(cfg.roles@.skip(i as int), name@),
        decreases cfg.roles@.len() - i,
    {
        proof {
            assert(cfg.roles@.skip(i as int).drop_first() =~= cfg.roles@.skip(i + 1));
            assert(cfg.roles@.skip(i as int)[0] == cfg.roles@[i as int]);
        }
        if cfg.roles[i].0 == *name {
            return Some(&cfg.roles[i].1);
        }
        i += 1;
    }
    None
}

fn reg_has_exec(reg: &Vec<RoleProvider>, name: &String) -> (r: bool)
    ensures
        r == reg_has(reg@, name@),
{
    let mut i: usize = 0;
    while i < reg.len()
        invariant
            0 <= i <= reg@.len(),
            forall|j: int| 0 <= j < i ==> #[trigger] reg@[j].name@ != name@,
        decreases reg@.len() - i,
    {
        if reg[i].name == *name {
            return true;
        }
        i += 1;
    }
    false
}

/// Validate the host configuration against the registry and compute the
/// deterministic execution order.  A configured role that was never
/// registered is `UnknownRole`; a configured role whose labels violate its
/// posture (a `Required` role with none, a `Prohibited` role with any) is
/// `ConfigInvalid`, found before any role is invoked.
pub fn plan_apply(registry: &Registry, cfg: &HostConfig) -> (r: Result<Vec<Invocation>, Error>)
    ensures
        spec_unknown(cfg.roles@, registry.entries()) ==> r == Err::<Vec<Invocation>, Error>(
            Error::UnknownRole,
        ),
        !spec_unknown(cfg.roles@, registry.entries()) && spec_violation(
            registry.entries(),
            cfg.roles@,
        ) ==> r == Err::<Vec<Invocation>, Error>(Error::ConfigInvalid),
        !spec_unknown(cfg.roles@, registry.entries()) && !spec_violation(
            registry.entries(),
            cfg.roles@,
        ) ==> (r matches Ok(plan) && inv_views(plan@) == spec_plan(registry.entries(), cfg.roles@)),
{
    let reg = registry.providers();
    // Reject configuration entries that name no registered role.
    let mut i: usize = 0;
    while i < cfg.roles.len()
        invariant
            0 <= i <= cfg.roles@.len(),
            reg@ == registry.entries(),
            forall|j: int| 0 <= j < i ==> reg_has(registry.entries(), #[trigger] cfg.roles@[j].0@),
        decreases cfg.roles@.len() - i,
    {
        if !reg_has_exec(reg, &cfg.roles[i].0) {
            return Err(Error::UnknownRole);
        }
        i += 1;
    }
    // Cross-check each provider's posture against its configured labels.
    let mut i: usize = 0;
    while i < reg.len()
        invariant
            0 <= i <= reg@.len(),
            reg@ == registry.entries(),
            !spec_unknown(cfg.roles@, registry.entries()),
            forall|j: int|
                0 <= j < i ==> (match config_lookup(cfg.roles@, #[trigger] reg@[j].name@) {
                    Some(insts) => posture_ok(reg@[j].posture, insts@.len() as int),
                    None => true,
                }),
        decreases reg@.len() - i,
    {
        match config_lookup_exec(cfg, &reg[i].name) {
            Some(insts) => {
                let ok = match reg[i].posture {
                    InstancePosture::Required => insts.len() >= 1,
                    InstancePosture::Prohibited => insts.len() == 0,
                    InstancePosture::Optional => true,
                };
                if !ok {
                    return Err(Error::ConfigInvalid);
                }
            },
            None => {},
        }
        i += 1;
    }
    // Expand providers, in registration order, to invocations.
    let mut out: Vec<Invocation> = Vec::new();
    let mut i: usize = 0;
    proof {
        assert(reg@.skip(0) =~= reg@);
        assert(inv_views(out@) =~= spec_plan(reg@, cfg.roles@).take(0));
        assert(spec_plan(reg@, cfg.roles@) =~= inv_views(out@) + spec_plan(
            reg@.skip(0),
            cfg.roles@,
        ));
    }
    while i < reg.len()
        invariant
            0 <= i <= reg@.len(),
            reg@ == registry.entries(),
            spec_plan(reg@, cfg.roles@) =~= inv_views(out@) + spec_plan(
                reg@.skip(i as int),
                cfg.roles@,
            ),
        decreases reg@.len() - i,
    {
        proof {
            assert(reg@.skip(i as int).drop_first() =~= reg@.skip(i + 1));
            assert(reg@.skip(i as int)[0] == reg@[i as int]);
        }
        let ghost pre = inv_views(out@);
        let ghost head = spec_role_invocations(reg@[i as int], cfg.roles@);
        match config_lookup_exec(cfg, &reg[i].name) {
            None => {
                proof {
                    assert(head =~= Seq::<(Seq<char>, Option<Seq<char>>)>::empty());
                    assert(inv_views(out@) =~= pre + head);
                }
            },
            Some(insts) => {
                if insts.len() == 0 {
                    out.push(Invocation { role: reg[i].name.clone(), instance: None });
                    proof {
                        assert(inv_views(out@) =~= pre + head);
                    }
                } else {
                    let mut k: usize = 0;
                    while k < insts.len()
                        invariant
                            0 <= k <= insts@.len(),
                            insts@.len() > 0,
                            config_lookup(cfg.roles@, reg@[i as int].name@) == Some(*insts),
                            i < reg@.len(),
                            reg@ == registry.entries(),
                            head == spec_role_invocations(reg@[i as int], cfg.roles@),
                            pre.len() == out@.len() - k,
                            inv_views(out@) =~= pre + head.take(k as int),
                        decreases insts@.len() - k,
                    {
                        let ghost ov = out@;
                        out.push(
                            Invocation {
                                role: reg[i].name.clone(),
                                instance: Some(insts[k].clone()),
                            },
                        );
                        proof {
                            assert(head =~= Seq::new(
                                insts@.len(),
                                |q: int| (reg@[i as int].name@, Some(insts@[q]@)),
                            ));
                            let cur = inv_views(out@);
                            let goal = pre + head.take(k + 1);
                            assert forall|q: int| 0 <= q < cur.len() implies cur[q] == goal[q] by {
                                if q < ov.len() {
                                    assert(out@[q] == ov[q]);
                                    assert(cur[q] == inv_views(ov)[q]);
                                    assert(inv_views(ov)[q] == (pre + head.take(k as int))[q]);
                                } else {
                                    assert(out@[q].role@ == reg@[i as int].name@);
                                    assert(cur[q] == head[k as int]);
                                }
                            }
                            assert(inv_views(out@) =~= pre + head.take(k + 1));
                        }
                        k += 1;
                    }
                    proof {
                        assert(head.take(insts@.len() as int) =~= head);
                        assert(inv_views(out@) =~= pre + head);
                    }
                }
            },
        }
        proof {
            assert(spec_plan(reg@.skip(i as int), cfg.roles@) =~= head + spec_plan(
                reg@.skip(i + 1),
                cfg.roles@,
            ));
            assert(spec_plan(reg@, cfg.roles@) =~= inv_views(out@) + spec_plan(
                reg@.skip(i + 1),
                cfg.roles@,
            ));
        }
        i += 1;
    }
    proof {
        assert(spec_plan(reg@.skip(reg@.len() as int), cfg.roles@) =~= Seq::<
            (Seq<char>, Option<Seq<char>>),
        >::empty());
        assert(inv_views(out@) =~= spec_plan(reg@, cfg.roles@));
    }
    Ok(out)
}

/// The apply driver: issues invocations in order and aborts on the first
/// failure, leaving partially applied state in place.
pub struct Driver {
    pub plan: Vec<Invocation>,
    pub next: usize,
    pub failed: bool,
}

/// The invocation a driver state issues next, if any: nothing once a role
/// has failed or the plan is exhausted.
pub open spec fn spec_next(d: Driver) -> Option<Invocation> {
    if d.failed || d.next >= d.plan@.len() {
        None
    } else {
        Some(d.plan@[d.next as int])
    }
}

/// The driver state after one invocation ran and reported `ok`.
pub open spec fn spec_record(d: Driver, ok: bool) -> Driver {
    Driver { plan: d.plan, next: (d.next + 1) as usize, failed: d.failed || !ok }
}

impl Driver {
    pub fn new(plan: Vec<Invocation>) -> (r: Driver)
        ensures
            r.plan == plan,
            r.next == 0,
            !r.failed,
    {
        Driver { plan, next: 0, failed: false }
    }

    /// The next invocation to run, or `None` when the pass is over.
    pub fn next_invocation(&self) -> (r: Option<&Invocation>)
        ensures
            match r {
                Some(inv) => spec_next(*self) == Some(*inv),
                None => spec_next(*self) is None,
            },
    {
        if self.failed || self.next >= self.plan.len() {
            None
        } else {
            Some(&self.plan[self.next])
        }
    }

    /// Record the outcome of the invocation just run.
    pub fn record(&mut self, ok: bool)
        requires
            old(self).next < old(self).plan@.len(),
        ensures
            *final(self) == spec_record(*old(self), ok),
    {
        let n = self.plan.len();
        self.next = self.next + 1;
        if !ok {
            self.failed = true;
        }
        proof {
            assert(*self =~= spec_record(*old(self), ok));
        }
    }
}

/// The apply pass fails fast: from the moment one role reports an error, the
/// driver never issues another invocation, whatever outcomes are recorded
/// afterwards.
pub proof fn lemma_fail_fast(d: Driver, ok: bool)
    requires
        d.failed,
    ensures
        spec_next(d) is None,
        spec_record(d, ok).failed,
{
}

/// A `Prohibited` role configured with any instance label makes the whole
/// apply fail with `ConfigInvalid` before any role is invoked.
pub proof fn lemma_prohibited_instance_rejected(
    reg: Seq<RoleProvider>,
    cfg: Seq<(String, Vec<String>)>,
    i: int,
)
    requires
        0 <= i < reg.len(),
        reg[i].posture == InstancePosture::Prohibited,
        config_lookup(cfg, reg[i].name@) matches Some(insts) && insts@.len() > 0,
    ensures
        spec_violation(reg, cfg),
{
}

} // verus!
