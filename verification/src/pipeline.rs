//! The stage machine of the Tests stage, and the decisions of the Clean
//! and Report stages. The caller performs each action (they are external
//! processes and filesystem work) and hands back whether it succeeded;
//! everything decided between two actions stands here.

use vstd::prelude::*;

verus! {

/// Where the Tests stage stands: each phase waits for the outcome of the
/// action `next_action` names for it.
#[derive(PartialEq, Eq, Structural, Clone, Copy, Debug)]
pub enum StagePhase {
    /// Nothing has run yet.
    Start,
    /// The coverage workspace was removed.
    Cleaned,
    /// The instrumented test run finished successfully.
    TestsRan,
    /// The raw profiles were merged into one profile data file.
    ProfileMerged,
    /// The target list was resolved.
    TargetsResolved,
    /// Both report invocations were issued; the stage is done.
    ReportsGenerated,
    /// A test-run or merge failure ended the stage; nothing more runs.
    Aborted,
}

/// The one action the caller performs next for the Tests stage.
#[derive(PartialEq, Eq, Structural, Clone, Copy, Debug)]
pub enum StageAction {
    /// Remove the coverage workspace.
    CleanWorkspace,
    /// Run the test suite with the coverage environment set.
    RunTestSuite,
    /// Merge every raw profile in the workspace into one data file.
    MergeProfiles,
    /// List the compiled-dependency directory and resolve the target list.
    ResolveTargets,
    /// Invoke the coverage tool twice: terminal summary and HTML export.
    GenerateReports,
}

/// The action each phase waits on; `None` once the stage is over.
pub open spec fn spec_next_action(p: StagePhase) -> Option<StageAction> {
    match p {
        StagePhase::Start => Some(StageAction::CleanWorkspace),
        StagePhase::Cleaned => Some(StageAction::RunTestSuite),
        StagePhase::TestsRan => Some(StageAction::MergeProfiles),
        StagePhase::ProfileMerged => Some(StageAction::ResolveTargets),
        StagePhase::TargetsResolved => Some(StageAction::GenerateReports),
        StagePhase::ReportsGenerated => None,
        StagePhase::Aborted => None,
    }
}

/// The transition table: a failed test run or merge aborts the stage; a
/// failure of the report invocations is advisory and does not (clean
/// removal and target resolution either succeed or panic in the caller,
/// so their flag is ignored).
pub open spec fn spec_advance(p: StagePhase, ok: bool) -> StagePhase {
    match p {
        StagePhase::Start => StagePhase::Cleaned,
        StagePhase::Cleaned => if ok {
            StagePhase::TestsRan
        } else {
            StagePhase::Aborted
        },
        StagePhase::TestsRan => if ok {
            StagePhase::ProfileMerged
        } else {
            StagePhase::Aborted
        },
        StagePhase::ProfileMerged => StagePhase::TargetsResolved,
        StagePhase::TargetsResolved => StagePhase::ReportsGenerated,
        StagePhase::ReportsGenerated => StagePhase::ReportsGenerated,
        StagePhase::Aborted => StagePhase::Aborted,
    }
}

/// The action the caller performs next, or `None` when the stage is over.
pub fn next_action(p: &StagePhase) -> (a: Option<StageAction>)
    ensures
        a == spec_next_action(*p),
{
    match p {
        StagePhase::Start => Some(StageAction::CleanWorkspace),
        StagePhase::Cleaned => Some(StageAction::RunTestSuite),
        StagePhase::TestsRan => Some(StageAction::MergeProfiles),
        StagePhase::ProfileMerged => Some(StageAction::ResolveTargets),
        StagePhase::TargetsResolved => Some(StageAction::GenerateReports),
        StagePhase::ReportsGenerated => None,
        StagePhase::Aborted => None,
    }
}

/// Moves the stage on after the caller performed the current action and
/// reports whether it succeeded.
pub fn advance(p: &StagePhase, ok: bool) -> (q: StagePhase)
    ensures
        q == spec_advance(*p, ok),
{
    match p {
        StagePhase::Start => StagePhase::Cleaned,
        StagePhase::Cleaned => if ok {
            StagePhase::TestsRan
        } else {
            StagePhase::Aborted
        },
        StagePhase::TestsRan => if ok {
            StagePhase::ProfileMerged
        } else {
            StagePhase::Aborted
        },
        StagePhase::ProfileMerged => StagePhase::TargetsResolved,
        StagePhase::TargetsResolved => StagePhase::ReportsGenerated,
        StagePhase::ReportsGenerated => StagePhase::ReportsGenerated,
        StagePhase::Aborted => StagePhase::Aborted,
    }
}

/// The actions a run of the stage machine issues from phase `p`, when
/// the caller reports the outcomes in `events`, one per performed action,
/// in order.
pub open spec fn spec_actions_issued(p: StagePhase, events: Seq<bool>) -> Seq<StageAction>
    decreases events.len(),
{
    if events.len() == 0 {
        Seq::<StageAction>::empty()
    } else {
        match spec_next_action(p) {
            None => Seq::<StageAction>::empty(),
            Some(a) => seq![a] + spec_actions_issued(spec_advance(p, events[0]), events.skip(1)),
        }
    }
}

/// Law: once the stage is aborted, no action is ever issued again,
/// whatever outcomes follow.
pub proof fn lemma_aborted_issues_nothing(events: Seq<bool>)
    ensures
        spec_actions_issued(StagePhase::Aborted, events) == Seq::<StageAction>::empty(),
{
}

/// Law: a run whose every step succeeds performs the five steps of the
/// Tests stage, once each, in order.
pub proof fn lemma_successful_run(events: Seq<bool>)
    requires
        events.len() == 5,
        forall|i: int| 0 <= i < 5 ==> events[i],
    ensures
        spec_actions_issued(StagePhase::Start, events) =~= seq![
            StageAction::CleanWorkspace,
            StageAction::RunTestSuite,
            StageAction::MergeProfiles,
            StageAction::ResolveTargets,
            StageAction::GenerateReports,
        ],
{
    let e1 = events.skip(1);
    let e2 = e1.skip(1);
    let e3 = e2.skip(1);
    let e4 = e3.skip(1);
    let e5 = e4.skip(1);
    assert(e1[0] == events[1] && e2[0] == events[2] && e3[0] == events[3]);
    assert(e5.len() == 0);
    assert(spec_actions_issued(StagePhase::ReportsGenerated, e5) =~= Seq::<StageAction>::empty());
    assert(spec_actions_issued(StagePhase::TargetsResolved, e4) =~= seq![
        StageAction::GenerateReports,
    ] + spec_actions_issued(StagePhase::ReportsGenerated, e5));
    assert(spec_actions_issued(StagePhase::ProfileMerged, e3) =~= seq![
        StageAction::ResolveTargets,
    ] + spec_actions_issued(StagePhase::TargetsResolved, e4));
    assert(spec_actions_issued(StagePhase::TestsRan, e2) =~= seq![StageAction::MergeProfiles]
        + spec_actions_issued(StagePhase::ProfileMerged, e3));
    assert(spec_actions_issued(StagePhase::Cleaned, e1) =~= seq![StageAction::RunTestSuite]
        + spec_actions_issued(StagePhase::TestsRan, e2));
    assert(spec_actions_issued(StagePhase::Start, events) =~= seq![StageAction::CleanWorkspace]
        + spec_actions_issued(StagePhase::Cleaned, e1));
    assert(spec_actions_issued(StagePhase::Start, events) =~= seq![
        StageAction::CleanWorkspace,
        StageAction::RunTestSuite,
        StageAction::MergeProfiles,
        StageAction::ResolveTargets,
        StageAction::GenerateReports,
    ]);
}

/// Law: when the test run fails (the second reported outcome), the run
/// stops right there — no merge step and no report step is ever issued.
pub proof fn lemma_failed_tests_run_stops(events: Seq<bool>)
    requires
        events.len() >= 2,
        !events[1],
    ensures
        spec_actions_issued(StagePhase::Start, events) =~= seq![
            StageAction::CleanWorkspace,
            StageAction::RunTestSuite,
        ],
        !spec_actions_issued(StagePhase::Start, events).contains(StageAction::MergeProfiles),
        !spec_actions_issued(StagePhase::Start, events).contains(StageAction::GenerateReports),
{
    let e1 = events.skip(1);
    let e2 = e1.skip(1);
    lemma_aborted_issues_nothing(e2);
    assert(e1[0] == events[1]);
    assert(spec_actions_issued(StagePhase::Cleaned, e1) =~= seq![StageAction::RunTestSuite]
        + spec_actions_issued(StagePhase::Aborted, e2));
    assert(spec_actions_issued(StagePhase::Start, events) =~= seq![StageAction::CleanWorkspace]
        + spec_actions_issued(StagePhase::Cleaned, e1));
    assert(spec_actions_issued(StagePhase::Start, events) =~= seq![
        StageAction::CleanWorkspace,
        StageAction::RunTestSuite,
    ]);
}

/// Law: when the merge fails (the third reported outcome), the run stops
/// right there — no report step is ever issued, so nothing the report
/// steps would write is touched.
pub proof fn lemma_failed_merge_run_stops(events: Seq<bool>)
    requires
        events.len() >= 3,
        events[1],
        !events[2],
    ensures
        spec_actions_issued(StagePhase::Start, events) =~= seq![
            StageAction::CleanWorkspace,
            StageAction::RunTestSuite,
            StageAction::MergeProfiles,
        ],
        !spec_actions_issued(StagePhase::Start, events).contains(StageAction::GenerateReports),
{
    let e1 = events.skip(1);
    let e2 = e1.skip(1);
    let e3 = e2.skip(1);
    lemma_aborted_issues_nothing(e3);
    assert(e1[0] == events[1] && e2[0] == events[2]);
    assert(spec_actions_issued(StagePhase::TestsRan, e2) =~= seq![StageAction::MergeProfiles]
        + spec_actions_issued(StagePhase::Aborted, e3));
    assert(spec_actions_issued(StagePhase::Cleaned, e1) =~= seq![StageAction::RunTestSuite]
        + spec_actions_issued(StagePhase::TestsRan, e2));
    assert(spec_actions_issued(StagePhase::Start, events) =~= seq![StageAction::CleanWorkspace]
        + spec_actions_issued(StagePhase::Cleaned, e1));
    assert(spec_actions_issued(StagePhase::Start, events) =~= seq![
        StageAction::CleanWorkspace,
        StageAction::RunTestSuite,
        StageAction::MergeProfiles,
    ]);
}

/// The coverage artifacts one invocation leaves behind.
pub struct CoverageArtifacts {
    /// Whether the merged profile data file exists.
    pub profile_data: bool,
    /// Whether the rendered HTML report exists.
    pub html_report: bool,
}

/// A workspace holding no artifacts at all.
pub open spec fn no_artifacts() -> CoverageArtifacts {
    CoverageArtifacts { profile_data: false, html_report: false }
}

/// What the Clean stage leaves: the whole workspace, and so every
/// artifact in it, is gone.
pub open spec fn spec_after_clean(a: CoverageArtifacts) -> CoverageArtifacts {
    no_artifacts()
}

/// What the Tests stage leaves, given which of its steps succeeded: it
/// cleans first; a failed test run or merge leaves nothing; otherwise the
/// profile data exists and the report exists when the report tool
/// succeeded.
pub open spec fn spec_after_tests_stage(
    a: CoverageArtifacts,
    test_ok: bool,
    merge_ok: bool,
    report_ok: bool,
) -> CoverageArtifacts {
    if !test_ok {
        spec_after_clean(a)
    } else if !merge_ok {
        spec_after_clean(a)
    } else {
        CoverageArtifacts { profile_data: true, html_report: report_ok }
    }
}

/// Law: cleaning a workspace that holds nothing is a no-op — the state it
/// leaves is the state it found.
pub proof fn lemma_clean_absent_is_noop()
    ensures
        spec_after_clean(no_artifacts()) == no_artifacts(),
{
}

/// Law: cleaning twice ends in the same state as cleaning once — the
/// workspace is absent both times.
pub proof fn lemma_clean_idempotent(a: CoverageArtifacts)
    ensures
        spec_after_clean(spec_after_clean(a)) == spec_after_clean(a),
        spec_after_clean(a) == no_artifacts(),
{
}

/// Law: when the test run exits non-zero, the Tests stage creates no
/// profile data file and no HTML report, and the stage machine aborts
/// with no further action — in particular no merge and no report step.
pub proof fn lemma_failed_tests_abort(a: CoverageArtifacts, merge_ok: bool, report_ok: bool)
    ensures
        spec_after_tests_stage(a, false, merge_ok, report_ok) == no_artifacts(),
        spec_advance(StagePhase::Cleaned, false) == StagePhase::Aborted,
        spec_next_action(StagePhase::Aborted) is None,
        spec_advance(StagePhase::Aborted, true) == StagePhase::Aborted,
        spec_advance(StagePhase::Aborted, false) == StagePhase::Aborted,
{
}

/// Law: when the profile merge fails, no report step runs — the HTML
/// report is exactly what the clean step left (and no profile data file
/// exists), so the failing merge rewrites nothing.
pub proof fn lemma_failed_merge_abort(a: CoverageArtifacts, report_ok: bool)
    ensures
        spec_after_tests_stage(a, true, false, report_ok).html_report == spec_after_clean(
            a,
        ).html_report,
        spec_after_tests_stage(a, true, false, report_ok) == no_artifacts(),
        spec_advance(StagePhase::TestsRan, false) == StagePhase::Aborted,
        spec_next_action(StagePhase::Aborted) is None,
{
}

/// The Clean stage's one decision: remove the workspace exactly when it
/// exists; when it does not, nothing is touched and nothing fails.
pub fn clean_decision(cov_dir_exists: bool) -> (remove: bool)
    ensures
        remove == cov_dir_exists,
{
    cov_dir_exists
}

/// The Report stage's one decision: regenerate everything (the full Tests
/// stage) exactly when the HTML report is absent; the viewer is opened
/// either way afterwards.
pub fn report_decision(html_index_exists: bool) -> (regenerate: bool)
    ensures
        regenerate == !html_index_exists,
{
    !html_index_exists
}

} // verus!
