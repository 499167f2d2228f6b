//! Decision logic of ZFS dataset convergence.

use vstd::prelude::*;
use crate::types::Op;

verus! {

/// What `ensure_dataset` decides to do.
#[derive(Clone, Debug)]
pub enum DatasetPlan {
    /// Create the dataset with all listed properties applied at creation.
    Create(Vec<(String, String)>),
    /// Issue one `zfs set` per listed property; empty means converged.
    Adjust(Vec<(String, String)>),
}

impl DatasetPlan {
    /// Whether carrying this plan out alters observable state.
    pub open spec fn spec_changed(self) -> bool {
        match self {
            DatasetPlan::Create(_) => true,
            DatasetPlan::Adjust(v) => v.len() > 0,
        }
    }

    pub fn changed(&self) -> (r: bool)
        ensures
            r == self.spec_changed(),
    {
        match self {
            DatasetPlan::Create(_) => true,
            DatasetPlan::Adjust(v) => v.len() > 0,
        }
    }
}

/// The current value of a named property, as observed (first match wins).
pub open spec fn prop_value(current: Seq<(String, String)>, key: Seq<char>) -> Option<Seq<char>>
    decreases current.len(),
{
    if current.len() == 0 {
        None
    } else if current[0].0@ == key {
        Some(current[0].1@)
    } else {
        prop_value(current.drop_first(), key)
    }
}

/// The desired properties whose observed value differs, in order.
pub open spec fn props_to_set(
    current: Seq<(String, String)>,
    desired: Seq<(String, String)>,
) -> Seq<(String, String)>
    decreases desired.len(),
{
    if desired.len() == 0 {
        Seq::empty()
    } else {
        let rest = props_to_set(current, desired.drop_first());
        if prop_value(current, desired[0].0@) == Some(desired[0].1@) {
            rest
        } else {
            seq![desired[0]] + rest
        }
    }
}

fn lookup_prop<'a>(current: &'a Vec<(String, String)>, key: &String) -> (r: Option<&'a String>)
    ensures
        match r {
            Some(v) => prop_value(current@, key@) == Some(v@),
            None => prop_value(current@, key@) is None,
        },
{
    let mut i: usize = 0;
    proof {
        assert(current@.skip(0) =~= current@);
    }
    while i < current.len()
        invariant
            0 <= i <= current@.len(),
            prop_value(current@, key@) == prop_value(current@.skip(i as int), key@),
        decreases current@.len() - i,
    {
        proof {
            assert(current@.skip(i as int).drop_first() =~= current@.skip(i + 1));
        }
        if current[i].0 == *key {
            return Some(&current[i].1);
        }
        i += 1;
    }
    None
}

/// Decide how to converge a dataset.  An absent dataset is created with the
/// given properties applied atomically at creation; an existing one has each
/// named property reconciled against its observed value, and properties not
/// mentioned are left untouched.  Datasets are never destroyed.
pub fn ensure_dataset_plan(
    exists: bool,
    current: &Vec<(String, String)>,
    desired: Vec<(String, String)>,
) -> (r: DatasetPlan)
    ensures
        !exists ==> r == DatasetPlan::Create(desired),
        exists ==> (r matches DatasetPlan::Adjust(v) && v@ == props_to_set(current@, desired@)),
{
    if !exists {
        return DatasetPlan::Create(desired);
    }
    let mut out: Vec<(String, String)> = Vec::new();
    let mut d = desired;
    while d.len() > 0
        invariant
            props_to_set(current@, desired@) =~= out@ + props_to_set(current@, d@),
        decreases d@.len(),
    {
        proof {
            assert(d@.drop_first() =~= d@.skip(1));
        }
        let p = d.remove(0);
        let keep = match lookup_prop(current, &p.0) {
            Some(v) => *v == p.1,
            None => false,
        };
        if !keep {
            out.push(p);
        }
        proof {
            assert(props_to_set(current@, desired@) =~= out@ + props_to_set(current@, d@));
        }
    }
    proof {
        assert(props_to_set(current@, desired@) =~= out@);
    }
    DatasetPlan::Adjust(out)
}

/// Once every desired property reads back with its desired value, a further
/// `ensure_dataset` plans no work, so the second application reports
/// `changed == false`.
pub proof fn lemma_dataset_converged(
    current: Seq<(String, String)>,
    desired: Seq<(String, String)>,
)
    requires
        forall|i: int|
            0 <= i < desired.len() ==> prop_value(current, #[trigger] desired[i].0@) == Some(
                desired[i].1@,
            ),
    ensures
        props_to_set(current, desired) == Seq::<(String, String)>::empty(),
    decreases desired.len(),
{
    if desired.len() > 0 {
        assert(forall|i: int|
            0 <= i < desired.drop_first().len() ==> desired.drop_first()[i] == desired[i + 1]);
        lemma_dataset_converged(current, desired.drop_first());
    }
}

/// The `key=value` rendering of one property pair.
pub open spec fn kv_view(k: Seq<char>, v: Seq<char>) -> Seq<char> {
    k + "="@ + v
}

fn render_kv(p: &(String, String)) -> (r: String)
    ensures
        r@ == kv_view(p.0@, p.1@),
{
    let mut kv = p.0.clone();
    kv.append("=");
    kv.append(p.1.as_str());
    kv
}

/// Whether `op` is exactly `zfs set key=value name`.
pub open spec fn set_op_matches(op: Op, name: Seq<char>, p: (String, String)) -> bool {
    op matches Op::Run { argv } && argv@.len() == 4 && argv@[0]@ == "/sbin/zfs"@ && argv@[1]@
        == "set"@ && argv@[2]@ == kv_view(p.0@, p.1@) && argv@[3]@ == name
}

/// Whether `op` is exactly `zfs create -o k=v ... name`.
pub open spec fn create_op_matches(op: Op, name: Seq<char>, props: Seq<(String, String)>) -> bool {
    op matches Op::Run { argv } && argv@.len() == 3 + 2 * props.len() && argv@[0]@ == "/sbin/zfs"@
        && argv@[1]@ == "create"@ && argv@[argv@.len() - 1]@ == name && forall|j: int|
        0 <= j < props.len() ==> #[trigger] argv@[2 + 2 * j]@ == "-o"@ && argv@[3 + 2 * j]@
            == kv_view(props[j].0@, props[j].1@)
}

/// Render a dataset plan into the operations the shell runs: one
/// `zfs create` with `-o key=value` pairs, or one `zfs set key=value` per
/// divergent property.
pub fn dataset_ops(name: &String, plan: &DatasetPlan) -> (r: Vec<Op>)
    ensures
        match *plan {
            DatasetPlan::Create(props) => r@.len() == 1 && create_op_matches(
                r@[0],
                name@,
                props@,
            ),
            DatasetPlan::Adjust(props) => r@.len() == props@.len() && forall|i: int|
                0 <= i < props@.len() ==> set_op_matches(#[trigger] r@[i], name@, props@[i]),
        },
{
    match plan {
        DatasetPlan::Create(props) => {
            let mut argv: Vec<String> = Vec::new();
            argv.push("/sbin/zfs".to_owned());
            argv.push("create".to_owned());
            let mut i: usize = 0;
            while i < props.len()
                invariant
                    0 <= i <= props@.len(),
                    argv@.len() == 2 + 2 * i,
                    argv@[0]@ == "/sbin/zfs"@,
                    argv@[1]@ == "create"@,
                    forall|j: int|
                        0 <= j < i ==> #[trigger] argv@[2 + 2 * j]@ == "-o"@ && argv@[3 + 2 * j]@
                            == kv_view(props@[j].0@, props@[j].1@),
                decreases props@.len() - i,
            {
                argv.push("-o".to_owned());
                argv.push(render_kv(&props[i]));
                proof {
                    assert(argv@[2 + 2 * i as int]@ == "-o"@);
                    assert(argv@[3 + 2 * i as int]@ == kv_view(
                        props@[i as int].0@,
                        props@[i as int].1@,
                    ));
                }
                i += 1;
            }
            argv.push(name.clone());
            let mut out: Vec<Op> = Vec::new();
            out.push(Op::Run { argv });
            out
        },
        DatasetPlan::Adjust(props) => {
            let mut out: Vec<Op> = Vec::new();
            let mut i: usize = 0;
            while i < props.len()
                invariant
                    0 <= i <= props@.len(),
                    out@.len() == i,
                    forall|j: int|
                        0 <= j < i ==> set_op_matches(#[trigger] out@[j], name@, props@[j]),
                decreases props@.len() - i,
            {
                let mut argv: Vec<String> = Vec::new();
                argv.push("/sbin/zfs".to_owned());
                argv.push("set".to_owned());
                argv.push(render_kv(&props[i]));
                argv.push(name.clone());
                out.push(Op::Run { argv });
                i += 1;
            }
            out
        },
    }
}

} // verus!
