//! Decision logic of package convergence, shared by the IPS and pkgsrc
//! facades: which of the wanted packages are not yet installed.

use vstd::prelude::*;

verus! {

/// Whether some string in `hay` reads `needle`.
pub open spec fn spec_contains_str(hay: Seq<String>, needle: Seq<char>) -> bool {
    exists|i: int| 0 <= i < hay.len() && hay[i]@ == needle
}

/// The wanted packages that are not installed, in order.
pub open spec fn spec_missing(wanted: Seq<String>, installed: Seq<String>) -> Seq<String>
    decreases wanted.len(),
{
    if wanted.len() == 0 {
        Seq::empty()
    } else {
        let rest = spec_missing(wanted.drop_first(), installed);
        if spec_contains_str(installed, wanted[0]@) {
            rest
        } else {
            seq![wanted[0]] + rest
        }
    }
}

/// Whether `needle` occurs in `hay`.
pub fn contains_str(hay: &Vec<String>, needle: &String) -> (r: bool)
    ensures
        r == spec_contains_str(hay@, needle@),
{
    let mut i: usize = 0;
    while i < hay.len()
        invariant
            0 <= i <= hay@.len(),
            forall|j: int| 0 <= j < i ==> hay@[j]@ != needle@,
        decreases hay@.len() - i,
    {
        if hay[i] == *needle {
            return true;
        }
        i += 1;
    }
    false
}

/// The packages the installer must be invoked for: every wanted package not
/// already installed, in the order given.  An already-installed package
/// produces no call, which makes both `ensure_packages` facades idempotent.
pub fn missing_packages(wanted: Vec<String>, installed: &Vec<String>) -> (r: Vec<String>)
    ensures
        r@ == spec_missing(wanted@, installed@),
{
    let mut out: Vec<String> = Vec::new();
    let mut w = wanted;
    while w.len() > 0
        invariant
            spec_missing(wanted@, installed@) =~= out@ + spec_missing(w@, installed@),
        decreases w@.len(),
    {
        proof {
            assert(w@.drop_first() =~= w@.skip(1));
        }
        let p = w.remove(0);
        if !contains_str(installed, &p) {
            out.push(p);
        }
        proof {
            assert(spec_missing(wanted@, installed@) =~= out@ + spec_missing(w@, installed@));
        }
    }
    proof {
        assert(spec_missing(wanted@, installed@) =~= out@);
    }
    out
}

/// Once every wanted package is observed installed, a further
/// `ensure_packages` plans no installer call.
pub proof fn lemma_packages_converged(wanted: Seq<String>, installed: Seq<String>)
    requires
        forall|i: int| 0 <= i < wanted.len() ==> spec_contains_str(installed, #[trigger] wanted[i]@),
    ensures
        spec_missing(wanted, installed) == Seq::<String>::empty(),
    decreases wanted.len(),
{
    if wanted.len() > 0 {
        assert(forall|i: int|
            0 <= i < wanted.drop_first().len() ==> wanted.drop_first()[i] == wanted[i + 1]);
        lemma_packages_converged(wanted.drop_first(), installed);
    }
}

} // verus!
