//! The client's own scanner: what follows the upload of a project.

use vstd::prelude::*;
use crate::text::{join, same};
use crate::utils::api::{Issue, ScanResponse};

verus! {

/// The seconds between two questions about a scan's status.
pub const POLL_INTERVAL_SECONDS: u64 = 1;

/// Whether the scan is done: the server says `complete`. Every other status
/// means that the scan is still under way. A scan that could not be fetched
/// stays the error that it is.
pub fn check_scan_status(fetched: Result<ScanResponse, String>) -> (done: Result<bool, String>)
    ensures
        match fetched {
            Ok(scan) => done == Ok::<bool, String>(scan.status@ == "complete"@),
            Err(e) => done == Err::<bool, String>(e),
        },
{
    match fetched {
        Ok(scan) => Ok(same(scan.status.as_str(), "complete")),
        Err(e) => Err(e),
    }
}

/// The states of waiting for a scan.
#[derive(Clone, Copy, Debug, PartialEq, Eq, Structural)]
pub enum PollState {
    Pending,
    Complete,
}

/// What the one who waits does next.
pub enum PollAction {
    /// Sleep for so many seconds, then ask for the status again.
    AskAgainAfter(u64),
    /// The scan is complete: stop waiting.
    Stop,
    /// The status cannot be had: give up, with this explanation.
    GiveUp(String),
}

/// The state after the answer `status` to a question about the scan.
pub open spec fn poll_state_after(state: PollState, status: Result<bool, String>) -> PollState {
    match state {
        PollState::Complete => PollState::Complete,
        PollState::Pending => if status == Ok::<bool, String>(true) {
            PollState::Complete
        } else {
            PollState::Pending
        },
    }
}

/// Takes the answer to a question about the scan's status and says how the
/// waiting goes on. Waiting ends when the scan is complete, and only then;
/// an answer that is an error ends it at once, and is not asked again.
pub fn wait_for_scan(state: PollState, status: Result<bool, String>) -> (next: (
    PollState,
    PollAction,
))
    ensures
        next.0 == poll_state_after(state, status),
        match next.1 {
            PollAction::Stop => state == PollState::Complete || status == Ok::<bool, String>(true),
            PollAction::AskAgainAfter(seconds) => state == PollState::Pending && status == Ok::<
                bool,
                String,
            >(false) && seconds == POLL_INTERVAL_SECONDS,
            PollAction::GiveUp(e) => state == PollState::Pending && status == Err::<bool, String>(
                e,
            ),
        },
        next.1 is Stop <==> next.0 == PollState::Complete,
{
    match state {
        PollState::Complete => (PollState::Complete, PollAction::Stop),
        PollState::Pending => match status {
            Ok(true) => (PollState::Complete, PollAction::Stop),
            Ok(false) => (PollState::Pending, PollAction::AskAgainAfter(POLL_INTERVAL_SECONDS)),
            Err(e) => (PollState::Pending, PollAction::GiveUp(e)),
        },
    }
}

/// How many issues of one urgency there are.
pub struct UrgencyCount {
    pub urgency: String,
    pub count: usize,
}

/// The issues of a scan, counted by urgency.
pub struct UrgencyCounts {
    entries: Vec<UrgencyCount>,
}

/// The number of `issues` whose urgency is `urgency`.
pub open spec fn issues_of(issues: Seq<Issue>, urgency: Seq<char>) -> nat
    decreases issues.len(),
{
    if issues.len() == 0 {
        0
    } else {
        issues_of(issues.drop_last(), urgency) + if issues.last().urgency@ == urgency {
            1nat
        } else {
            0nat
        }
    }
}

/// The count that `entries` hold for `urgency`: that of the first entry of
/// that urgency, and 0 where there is none.
pub open spec fn count_in(entries: Seq<UrgencyCount>, urgency: Seq<char>) -> nat
    decreases entries.len(),
{
    if entries.len() == 0 {
        0
    } else if entries[0].urgency@ == urgency {
        entries[0].count as nat
    } else {
        count_in(entries.drop_first(), urgency)
    }
}

/// The sum of the counts of `entries`.
pub open spec fn sum_of(entries: Seq<UrgencyCount>) -> nat
    decreases entries.len(),
{
    if entries.len() == 0 {
        0
    } else {
        sum_of(entries.drop_last()) + entries.last().count as nat
    }
}

/// No two of `entries` are of the same urgency.
pub open spec fn distinct(entries: Seq<UrgencyCount>) -> bool {
    forall|i: int, j: int|
        0 <= i < j < entries.len() ==> (#[trigger] entries[i]).urgency@ != (
        #[trigger] entries[j]).urgency@
}

/// Every one of `entries` counts at least one issue.
pub open spec fn positive(entries: Seq<UrgencyCount>) -> bool {
    forall|i: int| 0 <= i < entries.len() ==> (#[trigger] entries[i]).count > 0
}

/// Putting `count` in place of the count of the entry at `at` changes what
/// the entries hold for that entry's urgency, and for no other.
proof fn lemma_count_in_update(entries: Seq<UrgencyCount>, at: int, count: usize, urgency: Seq<char>)
    requires
        0 <= at < entries.len(),
        distinct(entries),
    ensures
        count_in(
            entries.update(at, UrgencyCount { urgency: entries[at].urgency, count }),
            urgency,
        ) == if urgency == entries[at].urgency@ {
            count as nat
        } else {
            count_in(entries, urgency)
        },
    decreases entries.len(),
{
    let changed = entries.update(at, UrgencyCount { urgency: entries[at].urgency, count });
    if at == 0 {
        assert(changed.drop_first() =~= entries.drop_first());
    } else {
        assert(changed.drop_first() =~= entries.drop_first().update(
            at - 1,
            UrgencyCount { urgency: entries[at].urgency, count },
        ));
        assert(entries.drop_first()[at - 1] == entries[at]);
        assert(distinct(entries.drop_first())) by {
            assert forall|i: int, j: int| 0 <= i < j < entries.drop_first().len() implies (
            #[trigger] entries.drop_first()[i]).urgency@ != (
            #[trigger] entries.drop_first()[j]).urgency@ by {
                assert(entries.drop_first()[i] == entries[i + 1]);
                assert(entries.drop_first()[j] == entries[j + 1]);
            }
        }
        lemma_count_in_update(entries.drop_first(), at - 1, count, urgency);
        assert(entries[0].urgency@ != entries[at].urgency@);
    }
}

/// What distinct entries hold for the urgency of one of them is that
/// entry's count.
proof fn lemma_count_in_found(entries: Seq<UrgencyCount>, at: int)
    requires
        0 <= at < entries.len(),
        distinct(entries),
    ensures
        count_in(entries, entries[at].urgency@) == entries[at].count,
    decreases entries.len(),
{
    if at > 0 {
        assert(entries.drop_first()[at - 1] == entries[at]);
        assert(distinct(entries.drop_first())) by {
            assert forall|i: int, j: int| 0 <= i < j < entries.drop_first().len() implies (
            #[trigger] entries.drop_first()[i]).urgency@ != (
            #[trigger] entries.drop_first()[j]).urgency@ by {
                assert(entries.drop_first()[i] == entries[i + 1]);
                assert(entries.drop_first()[j] == entries[j + 1]);
            }
        }
        lemma_count_in_found(entries.drop_first(), at - 1);
        assert(entries[0].urgency@ != entries[at].urgency@);
    }
}

/// A new entry at the end changes what the entries hold for its urgency,
/// where they held nothing, and for no other.
proof fn lemma_count_in_push(entries: Seq<UrgencyCount>, entry: UrgencyCount, urgency: Seq<char>)
    requires
        forall|i: int| 0 <= i < entries.len() ==> (#[trigger] entries[i]).urgency@ != entry.urgency@,
    ensures
        count_in(entries.push(entry), urgency) == if urgency == entry.urgency@ {
            entry.count as nat
        } else {
            count_in(entries, urgency)
        },
    decreases entries.len(),
{
    if entries.len() == 0 {
        assert(entries.push(entry).drop_first() =~= entries);
    } else {
        assert(entries.push(entry).drop_first() =~= entries.drop_first().push(entry));
        assert forall|i: int| 0 <= i < entries.drop_first().len() implies (
        #[trigger] entries.drop_first()[i]).urgency@ != entry.urgency@ by {
            assert(entries.drop_first()[i] == entries[i + 1]);
        }
        lemma_count_in_push(entries.drop_first(), entry, urgency);
        assert(entries[0].urgency@ != entry.urgency@);
    }
}

/// The sum of the counts after one of them went up by one.
proof fn lemma_sum_update(entries: Seq<UrgencyCount>, at: int, count: usize)
    requires
        0 <= at < entries.len(),
        count == entries[at].count + 1,
    ensures
        sum_of(entries.update(at, UrgencyCount { urgency: entries[at].urgency, count })) == sum_of(
            entries,
        ) + 1,
    decreases entries.len(),
{
    let changed = entries.update(at, UrgencyCount { urgency: entries[at].urgency, count });
    if at == entries.len() - 1 {
        assert(changed.drop_last() =~= entries.drop_last());
    } else {
        assert(changed.drop_last() =~= entries.drop_last().update(
            at,
            UrgencyCount { urgency: entries[at].urgency, count },
        ));
        lemma_sum_update(entries.drop_last(), at, count);
    }
}

/// No count is larger than the sum of all.
proof fn lemma_count_below_sum(entries: Seq<UrgencyCount>, at: int)
    requires
        0 <= at < entries.len(),
    ensures
        entries[at].count <= sum_of(entries),
    decreases entries.len(),
{
    if at < entries.len() - 1 {
        lemma_count_below_sum(entries.drop_last(), at);
    }
}

impl UrgencyCounts {
    /// The entries, one for each urgency that occurs.
    pub closed spec fn entries(&self) -> Seq<UrgencyCount> {
        self.entries@
    }

    /// No urgency has two entries, and every entry counts at least one
    /// issue.
    pub open spec fn wf(&self) -> bool {
        distinct(self.entries()) && positive(self.entries())
    }

    /// The number of issues of the urgency.
    pub open spec fn count_spec(&self, urgency: Seq<char>) -> nat {
        count_in(self.entries(), urgency)
    }

    /// The number of issues of the urgency.
    pub fn get(&self, urgency: &str) -> (count: usize)
        ensures
            count == self.count_spec(urgency@),
    {
        let mut i: usize = 0;
        assert(self.entries@.skip(0) =~= self.entries@);
        while i < self.entries.len()
            invariant
                i <= self.entries@.len(),
                count_in(self.entries@, urgency@) == count_in(
                    self.entries@.skip(i as int),
                    urgency@,
                ),
            decreases self.entries@.len() - i,
        {
            assert(self.entries@.skip(i as int).drop_first() =~= self.entries@.skip(i as int + 1));
            if same(self.entries[i].urgency.as_str(), urgency) {
                return self.entries[i].count;
            }
            i = i + 1;
        }
        0
    }

    /// The number of all issues.
    pub fn total(&self) -> (sum: usize)
        requires
            sum_of(self.entries()) <= usize::MAX,
        ensures
            sum == sum_of(self.entries()),
    {
        let mut sum: usize = 0;
        let mut i: usize = 0;
        assert(self.entries@.take(0) =~= Seq::<UrgencyCount>::empty());
        while i < self.entries.len()
            invariant
                i <= self.entries@.len(),
                sum == sum_of(self.entries@.take(i as int)),
                sum_of(self.entries@) <= usize::MAX,
            decreases self.entries@.len() - i,
        {
            proof {
                assert(self.entries@.take(i as int + 1).drop_last() =~= self.entries@.take(i as int));
                lemma_sum_grows(self.entries@, i as int + 1);
            }
            sum = sum + self.entries[i].count;
            i = i + 1;
        }
        assert(self.entries@.take(i as int) =~= self.entries@);
        sum
    }
}

/// The sum of the first `n` counts is no larger than the sum of all.
proof fn lemma_sum_grows(entries: Seq<UrgencyCount>, n: int)
    requires
        0 <= n <= entries.len(),
    ensures
        sum_of(entries.take(n)) <= sum_of(entries),
    decreases entries.len() - n,
{
    if n < entries.len() {
        assert(entries.take(n + 1).drop_last() =~= entries.take(n));
        lemma_sum_grows(entries, n + 1);
    } else {
        assert(entries.take(n) =~= entries);
    }
}

/// What is said where the issues of a scan could not be fetched.
pub open spec fn fetch_failure(cause: Seq<char>) -> Seq<char> {
    "Failed to fetch scan issues: "@ + cause
}

/// Counts the issues of a scan by urgency. Issues that could not be fetched
/// are reported as such.
pub fn fetch_and_group_scan_issues(fetched: Result<Vec<Issue>, String>) -> (grouped: Result<
    UrgencyCounts,
    String,
>)
    ensures
        match fetched {
            Ok(issues) => grouped matches Ok(counts) && counts.wf() && sum_of(counts.entries())
                == issues@.len() && forall|urgency: Seq<char>|
                counts.count_spec(urgency) == #[trigger] issues_of(issues@, urgency),
            Err(e) => grouped matches Err(message) && message@ == fetch_failure(e@),
        },
{
    match fetched {
        Ok(issues) => Ok(group_by_urgency(&issues)),
        Err(e) => Err(join("Failed to fetch scan issues: ", e.as_str())),
    }
}

/// Counts `issues` by urgency.
pub fn group_by_urgency(issues: &Vec<Issue>) -> (counts: UrgencyCounts)
    ensures
        counts.wf(),
        sum_of(counts.entries()) == issues@.len(),
        forall|urgency: Seq<char>|
            counts.count_spec(urgency) == #[trigger] issues_of(issues@, urgency),
{
    let mut entries: Vec<UrgencyCount> = Vec::new();
    let mut i: usize = 0;
    assert(issues@.take(0) =~= Seq::<Issue>::empty());
    while i < issues.len()
        invariant
            i <= issues@.len(),
            distinct(entries@),
            positive(entries@),
            sum_of(entries@) == i,
            forall|urgency: Seq<char>|
                count_in(entries@, urgency) == #[trigger] issues_of(
                    issues@.take(i as int),
                    urgency,
                ),
        decreases issues@.len() - i,
    {
        let ghost before = entries@;
        let ghost seen = issues@.take(i as int);
        proof {
            assert(issues@.take(i as int + 1).drop_last() =~= seen);
            assert(issues@.take(i as int + 1).last() == issues@[i as int]);
        }
        // Find the entry of this issue's urgency.
        let mut at: usize = 0;
        while at < entries.len() && !same(entries[at].urgency.as_str(), issues[i].urgency.as_str())
            invariant
                at <= entries@.len(),
                i < issues@.len(),
                forall|k: int| 0 <= k < at ==> (#[trigger] entries@[k]).urgency@ != issues@[i as int].urgency@,
            decreases entries@.len() - at,
        {
            at = at + 1;
        }
        if at < entries.len() {
            proof {
                lemma_count_below_sum(before, at as int);
            }
            let count = entries[at].count + 1;
            let urgency = entries[at].urgency.clone();
            let ghost entry = UrgencyCount { urgency: before[at as int].urgency, count };
            entries.set(at, UrgencyCount { urgency, count });
            proof {
                assert(entries@ =~= before.update(at as int, entry));
                lemma_sum_update(before, at as int, count);
                assert forall|urgency: Seq<char>|
                    count_in(entries@, urgency) == #[trigger] issues_of(
                        issues@.take(i as int + 1),
                        urgency,
                    ) by {
                    lemma_count_in_update(before, at as int, count, urgency);
                    lemma_count_in_found(before, at as int);
                    assert(count_in(before, urgency) == issues_of(seen, urgency));
                }
            }
        } else {
            let entry = UrgencyCount { urgency: issues[i].urgency.clone(), count: 1 };
            entries.push(entry);
            proof {
                assert(entries@ =~= before.push(entry));
                assert(entries@.drop_last() =~= before);
                assert forall|urgency: Seq<char>|
                    count_in(entries@, urgency) == #[trigger] issues_of(
                        issues@.take(i as int + 1),
                        urgency,
                    ) by {
                    lemma_count_in_push(before, entry, urgency);
                    assert(count_in(before, urgency) == issues_of(seen, urgency));
                    lemma_absent_is_zero(before, entry.urgency@);
                }
            }
        }
        i = i + 1;
    }
    assert(issues@.take(i as int) =~= issues@);
    UrgencyCounts { entries }
}

/// Entries hold nothing for an urgency that none of them is of.
proof fn lemma_absent_is_zero(entries: Seq<UrgencyCount>, urgency: Seq<char>)
    requires
        forall|i: int| 0 <= i < entries.len() ==> (#[trigger] entries[i]).urgency@ != urgency,
    ensures
        count_in(entries, urgency) == 0,
    decreases entries.len(),
{
    if entries.len() > 0 {
        assert forall|i: int| 0 <= i < entries.drop_first().len() implies (
        #[trigger] entries.drop_first()[i]).urgency@ != urgency by {
            assert(entries.drop_first()[i] == entries[i + 1]);
        }
        lemma_absent_is_zero(entries.drop_first(), urgency);
    }
}

/// Whether the issues found call for a failing exit, given the level named
/// with `fail_on`. The levels are, from the lowest, `LO`, `ME`, `HI` and
/// `CR`, and a level fails on the issues of its own urgency and of every
/// higher one: `LO` on any issue; `ME` on medium, high or critical ones; `HI`
/// on high or critical ones; `CR` on critical ones. Any other level never
/// fails.
pub open spec fn exceeds(counts: Seq<UrgencyCount>, fail_on: Seq<char>) -> bool {
    if fail_on == "LO"@ {
        exists|i: int| 0 <= i < counts.len() && (#[trigger] counts[i]).count > 0
    } else if fail_on == "ME"@ {
        count_in(counts, "ME"@) > 0 || count_in(counts, "HI"@) > 0 || count_in(counts, "CR"@) > 0
    } else if fail_on == "HI"@ {
        count_in(counts, "CR"@) > 0 || count_in(counts, "HI"@) > 0
    } else if fail_on == "CR"@ {
        count_in(counts, "CR"@) > 0
    } else {
        false
    }
}

impl UrgencyCounts {
    /// Whether any urgency has an issue.
    pub fn any(&self) -> (found: bool)
        ensures
            found == exists|i: int|
                0 <= i < self.entries().len() && (#[trigger] self.entries()[i]).count > 0,
    {
        let mut i: usize = 0;
        while i < self.entries.len()
            invariant
                i <= self.entries@.len(),
                forall|k: int| 0 <= k < i ==> (#[trigger] self.entries@[k]).count == 0,
            decreases self.entries@.len() - i,
        {
            if self.entries[i].count > 0 {
                assert(self.entries()[i as int].count > 0);
                return true;
            }
            i = i + 1;
        }
        false
    }

    /// Whether the issues found call for a failing exit, given the level
    /// named with `fail_on`.
    pub fn exceeds_threshold(&self, fail_on: &str) -> (fails: bool)
        ensures
            fails == exceeds(self.entries(), fail_on@),
    {
        if same(fail_on, "LO") {
            self.any()
        } else if same(fail_on, "ME") {
            self.get("ME") > 0 || self.get("HI") > 0 || self.get("CR") > 0
        } else if same(fail_on, "HI") {
            self.get("CR") > 0 || self.get("HI") > 0
        } else if same(fail_on, "CR") {
            self.get("CR") > 0
        } else {
            false
        }
    }
}

/// Entries that hold a count for some urgency hold an entry that counts
/// at least one issue.
proof fn lemma_counted_is_some_entry(entries: Seq<UrgencyCount>, urgency: Seq<char>)
    requires
        count_in(entries, urgency) > 0,
    ensures
        exists|i: int| 0 <= i < entries.len() && (#[trigger] entries[i]).count > 0,
    decreases entries.len(),
{
    if entries[0].urgency@ == urgency {
        assert(entries[0].count > 0);
    } else {
        lemma_counted_is_some_entry(entries.drop_first(), urgency);
        let i = choose|i: int|
            0 <= i < entries.drop_first().len() && (#[trigger] entries.drop_first()[i]).count > 0;
        assert(entries[i + 1] == entries.drop_first()[i]);
        assert(entries[i + 1].count > 0);
    }
}

/// Issues that fail at one level fail at every lower one: what fails at
/// `CR` fails at `HI`, what fails at `HI` fails at `ME`, and what fails at
/// `ME` fails at `LO`.
pub proof fn lemma_lower_levels_fail_too(counts: Seq<UrgencyCount>)
    ensures
        exceeds(counts, "CR"@) ==> exceeds(counts, "HI"@),
        exceeds(counts, "HI"@) ==> exceeds(counts, "ME"@),
        exceeds(counts, "ME"@) ==> exceeds(counts, "LO"@),
{
    reveal_strlit("LO");
    reveal_strlit("ME");
    reveal_strlit("HI");
    reveal_strlit("CR");
    assert("LO"@ != "ME"@ && "LO"@ != "HI"@ && "LO"@ != "CR"@) by {
        assert("LO"@[0] == 'L');
        assert("ME"@[0] == 'M');
        assert("HI"@[0] == 'H');
        assert("CR"@[0] == 'C');
    }
    assert("ME"@ != "HI"@ && "ME"@ != "CR"@ && "HI"@ != "CR"@) by {
        assert("ME"@[0] == 'M');
        assert("HI"@[0] == 'H');
        assert("CR"@[0] == 'C');
    }
    if exceeds(counts, "ME"@) {
        if count_in(counts, "ME"@) > 0 {
            lemma_counted_is_some_entry(counts, "ME"@);
        } else if count_in(counts, "HI"@) > 0 {
            lemma_counted_is_some_entry(counts, "HI"@);
        } else {
            lemma_counted_is_some_entry(counts, "CR"@);
        }
    }
}

/// The code with which a scan ends: 1 where the project's blocking rules
/// are asked for and block, or where the issues exceed the level named with
/// `fail_on`; 0 otherwise.
pub fn run(counts: &UrgencyCounts, blocked: Option<bool>, fail_on: Option<&str>) -> (code: i32)
    ensures
        code == (if blocked == Some(true) || (fail_on matches Some(level) && exceeds(
            counts.entries(),
            level@,
        )) {
            1i32
        } else {
            0i32
        }),
{
    if let Some(true) = blocked {
        return 1;
    }
    match fail_on {
        Some(level) => if counts.exceeds_threshold(level) {
            1
        } else {
            0
        },
        None => 0,
    }
}

} // verus!
