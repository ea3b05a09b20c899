//! Continuous integration: whether the client runs in it, and what it says
//! of itself.

use vstd::prelude::*;
use vstd::string::StringExecFns;
use crate::text::starts_with;

verus! {

/// One variable of the environment.
pub struct EnvVar {
    pub key: String,
    pub value: String,
}

/// Whether the client runs in continuous integration: both `CI` and
/// `GITHUB_ACTIONS` are set.
pub fn running_in_ci(ci_set: bool, github_actions_set: bool) -> (in_ci: bool)
    ensures
        in_ci == (ci_set && github_actions_set),
{
    ci_set && github_actions_set
}

/// The platform that runs the client: `github` where `GITHUB_ACTIONS` is
/// set, and `unknown` otherwise.
pub fn which_ci(github_actions_set: bool) -> (platform: String)
    ensures
        platform@ == (if github_actions_set {
            "github"@
        } else {
            "unknown"@
        }),
{
    if github_actions_set {
        String::from_str("github")
    } else {
        String::from_str("unknown")
    }
}

/// The variable is one of GitHub's: its key begins with `GITHUB_`.
pub open spec fn is_github_var(var: EnvVar) -> bool {
    "GITHUB_"@.is_prefix_of(var.key@)
}

/// Those of `vars` that are GitHub's, in the order in which they came.
pub fn get_github_env_vars(vars: &Vec<EnvVar>) -> (github: Vec<EnvVar>)
    ensures
        github@ == vars@.filter(|var: EnvVar| is_github_var(var)),
{
    let ghost keep = |var: EnvVar| is_github_var(var);
    let mut github: Vec<EnvVar> = Vec::new();
    let mut i: usize = 0;
    assert(vars@.take(0) =~= Seq::<EnvVar>::empty());
    while i < vars.len()
        invariant
            i <= vars@.len(),
            keep == (|var: EnvVar| is_github_var(var)),
            github@ == vars@.take(i as int).filter(keep),
        decreases vars@.len() - i,
    {
        let ghost next = vars@.take(i as int + 1);
        proof {
            assert(next.drop_last() =~= vars@.take(i as int));
            assert(next.last() == vars@[i as int]);
            reveal(Seq::filter);
            assert(next.filter(keep) == if keep(next.last()) {
                next.drop_last().filter(keep).push(next.last())
            } else {
                next.drop_last().filter(keep)
            });
        }
        if starts_with(vars[i].key.as_str(), "GITHUB_") {
            let copy = EnvVar { key: vars[i].key.clone(), value: vars[i].value.clone() };
            assert(copy == vars@[i as int]);
            github.push(copy);
        }
        i = i + 1;
    }
    assert(vars@.take(i as int) =~= vars@);
    github
}

} // verus!
