//! The git hook that scans what is about to be committed.

use vstd::prelude::*;
use vstd::string::StringExecFns;

verus! {

/// The kinds of scan that the user is asked about, each with the answer.
pub struct HookAnswers {
    pub base: bool,
    pub policy: bool,
    pub pii: bool,
    pub secrets: bool,
    pub malicious: bool,
}

/// `name` where it is wanted.
pub open spec fn wanted(name: Seq<char>, want: bool) -> Seq<Seq<char>> {
    if want {
        seq![name]
    } else {
        Seq::empty()
    }
}

/// The kinds of scan that the hook runs: with the default configuration
/// personal data and secrets, and else what the user has chosen, in the
/// order in which the questions are put.
pub open spec fn hook_kinds(default_config: bool, answers: HookAnswers) -> Seq<Seq<char>> {
    if default_config {
        seq!["pii"@, "secrets"@]
    } else {
        wanted("base"@, answers.base) + wanted("policy"@, answers.policy) + wanted(
            "pii"@,
            answers.pii,
        ) + wanted("secrets"@, answers.secrets) + wanted("malicious"@, answers.malicious)
    }
}

/// The names of a list.
pub open spec fn names(list: Seq<&'static str>) -> Seq<Seq<char>> {
    Seq::new(list.len(), |i: int| list[i]@)
}

/// Appends `name` to `list` where it is wanted.
fn push_wanted(list: &mut Vec<&'static str>, name: &'static str, want: bool)
    ensures
        names(final(list)@) == names(old(list)@) + wanted(name@, want),
{
    let ghost before = list@;
    if want {
        list.push(name);
        assert(names(before.push(name)) =~= names(before) + seq![name@]);
    } else {
        assert(names(before) + Seq::<Seq<char>>::empty() =~= names(before));
    }
}

/// The kinds of scan that the hook runs.
pub fn hook_scan_types(default_config: bool, answers: &HookAnswers) -> (kinds: Vec<&'static str>)
    ensures
        names(kinds@) == hook_kinds(default_config, *answers),
{
    let mut kinds: Vec<&'static str> = Vec::new();
    assert(names(kinds@) =~= Seq::<Seq<char>>::empty());
    if default_config {
        kinds.push("pii");
        kinds.push("secrets");
        assert(names(kinds@) =~= seq!["pii"@, "secrets"@]);
    } else {
        push_wanted(&mut kinds, "base", answers.base);
        push_wanted(&mut kinds, "policy", answers.policy);
        push_wanted(&mut kinds, "pii", answers.pii);
        push_wanted(&mut kinds, "secrets", answers.secrets);
        push_wanted(&mut kinds, "malicious", answers.malicious);
        assert(names(kinds@) =~= hook_kinds(default_config, *answers));
    }
    kinds
}

/// `kinds` in one line, with commas between them.
pub open spec fn joined(kinds: Seq<Seq<char>>) -> Seq<char>
    decreases kinds.len(),
{
    if kinds.len() == 0 {
        Seq::empty()
    } else if kinds.len() == 1 {
        kinds[0]
    } else {
        joined(kinds.drop_last()) + ","@ + kinds.last()
    }
}

/// The script of the hook: a scan of the uncommitted changes, of the kinds
/// named, that fails on any issue.
pub open spec fn hook_script(kinds: Seq<Seq<char>>) -> Seq<char> {
    "#!/bin/sh\n# Corgea pre-commit hook\ncorgea scan blast --only-uncommitted --fail-on LO --scan-type "@
        + joined(kinds) + "\n"@
}

/// The script of the hook.
pub fn setup_pre_commit_hook(kinds: &Vec<&'static str>) -> (script: String)
    ensures
        script@ == hook_script(names(kinds@)),
{
    let ghost all = names(kinds@);
    let mut line = String::new();
    let mut i: usize = 0;
    assert(all.take(0) =~= Seq::<Seq<char>>::empty());
    while i < kinds.len()
        invariant
            i <= kinds@.len(),
            all == names(kinds@),
            line@ == joined(all.take(i as int)),
        decreases kinds@.len() - i,
    {
        proof {
            assert(all.take(i as int + 1).drop_last() =~= all.take(i as int));
            assert(all.take(i as int + 1).last() == kinds@[i as int]@);
            if i == 0 {
                assert(all.take(1)[0] == kinds@[0]@);
                assert(Seq::<char>::empty() + kinds@[0]@ =~= kinds@[0]@);
            }
        }
        if i > 0 {
            line.append(",");
        }
        line.append(kinds[i]);
        i = i + 1;
    }
    assert(all.take(i as int) =~= all);
    let mut script = String::from_str(
        "#!/bin/sh\n# Corgea pre-commit hook\ncorgea scan blast --only-uncommitted --fail-on LO --scan-type ",
    );
    script.append(line.as_str());
    script.append("\n");
    script
}

} // verus!
