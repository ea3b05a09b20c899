//! What the command line asks for, and whether it may.

use vstd::prelude::*;
use vstd::string::StrSliceExecFns;
use vstd::string::StringExecFns;
use crate::text::{join, pieces, same, split, strings, trim, trimmed};

verus! {

/// The scanners that the client can run.
#[derive(Debug, Clone, Copy, PartialEq, Eq, Structural)]
pub enum Scanner {
    Snyk,
    Semgrep,
    Blast,
}

impl Scanner {
    /// The scanner that a name stands for.
    pub open spec fn named(name: Seq<char>) -> Option<Scanner> {
        if name == "snyk"@ {
            Some(Scanner::Snyk)
        } else if name == "semgrep"@ {
            Some(Scanner::Semgrep)
        } else if name == "blast"@ {
            Some(Scanner::Blast)
        } else {
            None
        }
    }

    /// The scanner that a name stands for; any other name is refused.
    pub fn from_str(name: &str) -> (scanner: Result<Scanner, &'static str>)
        ensures
            match scanner {
                Ok(s) => Scanner::named(name@) == Some(s),
                Err(message) => Scanner::named(name@) is None && message@
                    == "Only snyk, semgrep and blast are valid scanners."@,
            },
    {
        if same(name, "snyk") {
            Ok(Scanner::Snyk)
        } else if same(name, "semgrep") {
            Ok(Scanner::Semgrep)
        } else if same(name, "blast") {
            Ok(Scanner::Blast)
        } else {
            Err("Only snyk, semgrep and blast are valid scanners.")
        }
    }
}

/// What is asked of a scan.
pub struct ScanOptions {
    pub scanner: Scanner,
    pub fail_on: Option<String>,
    pub fail: bool,
    pub only_uncommitted: bool,
    pub scan_type: Option<String>,
    pub policy: Option<String>,
}

/// Why the options of a scan are refused.
#[derive(Debug)]
pub enum OptionsError {
    FailOnNeedsBlast,
    InvalidFailOn,
    FailNeedsBlast,
    OnlyUncommittedNeedsBlast,
    FailAndFailOn,
    EmptyScanType,
    /// This kind of scan is not known.
    InvalidScanType(String),
    EmptyPolicy,
    EmptyPolicyId,
}

/// The content of an [`OptionsError`].
pub enum OptionsFault {
    FailOnNeedsBlast,
    InvalidFailOn,
    FailNeedsBlast,
    OnlyUncommittedNeedsBlast,
    FailAndFailOn,
    EmptyScanType,
    InvalidScanType(Seq<char>),
    EmptyPolicy,
    EmptyPolicyId,
}

impl View for OptionsError {
    type V = OptionsFault;

    open spec fn view(&self) -> OptionsFault {
        match self {
            OptionsError::FailOnNeedsBlast => OptionsFault::FailOnNeedsBlast,
            OptionsError::InvalidFailOn => OptionsFault::InvalidFailOn,
            OptionsError::FailNeedsBlast => OptionsFault::FailNeedsBlast,
            OptionsError::OnlyUncommittedNeedsBlast => OptionsFault::OnlyUncommittedNeedsBlast,
            OptionsError::FailAndFailOn => OptionsFault::FailAndFailOn,
            OptionsError::EmptyScanType => OptionsFault::EmptyScanType,
            OptionsError::InvalidScanType(kind) => OptionsFault::InvalidScanType(kind@),
            OptionsError::EmptyPolicy => OptionsFault::EmptyPolicy,
            OptionsError::EmptyPolicyId => OptionsFault::EmptyPolicyId,
        }
    }
}

impl OptionsFault {
    /// The words in which the refusal is reported.
    pub open spec fn message(self) -> Seq<char> {
        match self {
            OptionsFault::FailOnNeedsBlast => "fail_on is only supported with blast scanner."@,
            OptionsFault::InvalidFailOn =>
                "Invalid fail_on option. Expected one of 'CR', 'HI', 'ME', 'LO'."@,
            OptionsFault::FailNeedsBlast => "fail is only supported with blast scanner."@,
            OptionsFault::OnlyUncommittedNeedsBlast =>
                "only_uncommitted is only supported with blast scanner."@,
            OptionsFault::FailAndFailOn => "fail and fail_on cannot be used together."@,
            OptionsFault::EmptyScanType => "scan_type cannot be empty."@,
            OptionsFault::InvalidScanType(kind) => "Invalid scan_type: "@ + kind
                + ". Supported types are: blast, malicious, policy, secrets, pii."@,
            OptionsFault::EmptyPolicy => "policy cannot be empty."@,
            OptionsFault::EmptyPolicyId => "One of the policy ids passed is empty."@,
        }
    }
}

impl OptionsError {
    /// The words in which the refusal is reported.
    pub fn message(&self) -> (text: String)
        ensures
            text@ == self@.message(),
    {
        match self {
            OptionsError::FailOnNeedsBlast => String::from_str(
                "fail_on is only supported with blast scanner.",
            ),
            OptionsError::InvalidFailOn => String::from_str(
                "Invalid fail_on option. Expected one of 'CR', 'HI', 'ME', 'LO'.",
            ),
            OptionsError::FailNeedsBlast => String::from_str(
                "fail is only supported with blast scanner.",
            ),
            OptionsError::OnlyUncommittedNeedsBlast => String::from_str(
                "only_uncommitted is only supported with blast scanner.",
            ),
            OptionsError::FailAndFailOn => String::from_str(
                "fail and fail_on cannot be used together.",
            ),
            OptionsError::EmptyScanType => String::from_str("scan_type cannot be empty."),
            OptionsError::InvalidScanType(kind) => {
                let mut text = join("Invalid scan_type: ", kind.as_str());
                text.append(". Supported types are: blast, malicious, policy, secrets, pii.");
                text
            },
            OptionsError::EmptyPolicy => String::from_str("policy cannot be empty."),
            OptionsError::EmptyPolicyId => String::from_str(
                "One of the policy ids passed is empty.",
            ),
        }
    }
}

/// The levels that `fail_on` can name.
pub open spec fn is_level(level: Seq<char>) -> bool {
    level == "CR"@ || level == "HI"@ || level == "LO"@ || level == "ME"@
}

/// The kinds of scan that the server offers.
pub open spec fn is_scan_type(kind: Seq<char>) -> bool {
    kind == "blast"@ || kind == "malicious"@ || kind == "policy"@ || kind == "secrets"@ || kind
        == "pii"@
}

/// The first of `kinds` that, white space at its ends aside, is no kind of
/// scan.
pub open spec fn first_unknown_kind(kinds: Seq<Seq<char>>) -> Option<Seq<char>>
    decreases kinds.len(),
{
    if kinds.len() == 0 {
        None
    } else if !is_scan_type(trimmed(kinds[0])) {
        Some(trimmed(kinds[0]))
    } else {
        first_unknown_kind(kinds.drop_first())
    }
}

/// One of `ids` is empty, white space aside.
pub open spec fn has_empty_id(ids: Seq<Seq<char>>) -> bool {
    exists|i: int| 0 <= i < ids.len() && trimmed(#[trigger] ids[i]).len() == 0
}

/// Why the options of a scan are refused, if they are: the first of the
/// rules that they break.
pub open spec fn options_fault(
    scanner: Scanner,
    fail_on: Option<Seq<char>>,
    fail: bool,
    only_uncommitted: bool,
    scan_type: Option<Seq<char>>,
    policy: Option<Seq<char>>,
) -> Option<OptionsFault> {
    if fail_on is Some && scanner != Scanner::Blast {
        Some(OptionsFault::FailOnNeedsBlast)
    } else if fail_on matches Some(level) && !is_level(level) {
        Some(OptionsFault::InvalidFailOn)
    } else if fail && scanner != Scanner::Blast {
        Some(OptionsFault::FailNeedsBlast)
    } else if only_uncommitted && scanner != Scanner::Blast {
        Some(OptionsFault::OnlyUncommittedNeedsBlast)
    } else if fail && fail_on is Some {
        Some(OptionsFault::FailAndFailOn)
    } else if scan_type matches Some(kinds) && kinds.len() == 0 {
        Some(OptionsFault::EmptyScanType)
    } else if scan_type matches Some(kinds) && first_unknown_kind(pieces(kinds, ',')) is Some {
        Some(OptionsFault::InvalidScanType(first_unknown_kind(pieces(scan_type->Some_0, ','))->Some_0))
    } else if policy matches Some(ids) && ids.len() == 0 {
        Some(OptionsFault::EmptyPolicy)
    } else if policy matches Some(ids) && has_empty_id(pieces(ids, ',')) {
        Some(OptionsFault::EmptyPolicyId)
    } else {
        None
    }
}

/// The characters of a text that may be absent.
pub open spec fn text_view(text: Option<String>) -> Option<Seq<char>> {
    match text {
        Some(t) => Some(t@),
        None => None,
    }
}

/// Whether `level` is one that `fail_on` can name.
pub fn is_fail_on_level(level: &str) -> (valid: bool)
    ensures
        valid == is_level(level@),
{
    same(level, "CR") || same(level, "HI") || same(level, "LO") || same(level, "ME")
}

/// Whether `kind` is a kind of scan that the server offers.
pub fn is_supported_scan_type(kind: &str) -> (valid: bool)
    ensures
        valid == is_scan_type(kind@),
{
    same(kind, "blast") || same(kind, "malicious") || same(kind, "policy") || same(kind, "secrets")
        || same(kind, "pii")
}

/// The first kind of scan in a list separated by commas that the server
/// does not offer.
pub fn unknown_scan_type(scan_type: &str) -> (unknown: Option<String>)
    ensures
        match unknown {
            Some(kind) => first_unknown_kind(pieces(scan_type@, ',')) == Some(kind@),
            None => first_unknown_kind(pieces(scan_type@, ',')) is None,
        },
{
    let kinds = split(scan_type, ',');
    let ghost all = strings(kinds@);
    let mut i: usize = 0;
    assert(all.skip(0) =~= all);
    while i < kinds.len()
        invariant
            i <= kinds@.len(),
            all == strings(kinds@),
            all == pieces(scan_type@, ','),
            first_unknown_kind(all) == first_unknown_kind(all.skip(i as int)),
        decreases kinds@.len() - i,
    {
        assert(all.skip(i as int).drop_first() =~= all.skip(i as int + 1));
        assert(all.skip(i as int)[0] == kinds@[i as int]@);
        let kind = trim(kinds[i].as_str());
        if !is_supported_scan_type(kind) {
            return Some(String::from_str(kind));
        }
        i = i + 1;
    }
    None
}

/// Whether a list of policy ids separated by commas holds an empty one.
pub fn has_empty_policy_id(policy: &str) -> (found: bool)
    ensures
        found == has_empty_id(pieces(policy@, ',')),
{
    let ids = split(policy, ',');
    let ghost all = strings(ids@);
    let mut i: usize = 0;
    while i < ids.len()
        invariant
            i <= ids@.len(),
            all == strings(ids@),
            all == pieces(policy@, ','),
            forall|k: int| 0 <= k < i ==> trimmed(#[trigger] all[k]).len() > 0,
        decreases ids@.len() - i,
    {
        assert(all[i as int] == ids@[i as int]@);
        if trim(ids[i].as_str()).unicode_len() == 0 {
            assert(trimmed(all[i as int]).len() == 0);
            return true;
        }
        i = i + 1;
    }
    false
}

impl ScanOptions {
    /// Holds the options against the rules. Options that pass come with a
    /// note: `true` where policies are named and no kind of scan, so that
    /// every other kind of scan runs as well.
    pub fn check(&self) -> (checked: Result<bool, OptionsError>)
        ensures
            match checked {
                Ok(runs_all_kinds) => options_fault(
                    self.scanner,
                    text_view(self.fail_on),
                    self.fail,
                    self.only_uncommitted,
                    text_view(self.scan_type),
                    text_view(self.policy),
                ) is None && runs_all_kinds == (self.policy is Some && self.scan_type is None),
                Err(e) => options_fault(
                    self.scanner,
                    text_view(self.fail_on),
                    self.fail,
                    self.only_uncommitted,
                    text_view(self.scan_type),
                    text_view(self.policy),
                ) == Some(e@),
            },
    {
        let blast = match self.scanner {
            Scanner::Blast => true,
            _ => false,
        };
        if let Some(level) = &self.fail_on {
            if !blast {
                return Err(OptionsError::FailOnNeedsBlast);
            }
            if !is_fail_on_level(level.as_str()) {
                return Err(OptionsError::InvalidFailOn);
            }
        }
        if self.fail && !blast {
            return Err(OptionsError::FailNeedsBlast);
        }
        if self.only_uncommitted && !blast {
            return Err(OptionsError::OnlyUncommittedNeedsBlast);
        }
        if self.fail && self.fail_on.is_some() {
            return Err(OptionsError::FailAndFailOn);
        }
        if let Some(kinds) = &self.scan_type {
            if kinds.as_str().unicode_len() == 0 {
                return Err(OptionsError::EmptyScanType);
            }
            if let Some(kind) = unknown_scan_type(kinds.as_str()) {
                return Err(OptionsError::InvalidScanType(kind));
            }
        }
        if let Some(ids) = &self.policy {
            if ids.as_str().unicode_len() == 0 {
                return Err(OptionsError::EmptyPolicy);
            }
            if has_empty_policy_id(ids.as_str()) {
                return Err(OptionsError::EmptyPolicyId);
            }
        }
        Ok(self.policy.is_some() && self.scan_type.is_none())
    }
}

} // verus!
