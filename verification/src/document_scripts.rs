//! Ownership decisions of main-document script work.
//!
//! - The main-document task owner: the exact document epoch a task targets.
//! - Initial script acceptance: what the Page VM does for each handoff the
//!   parser made while it parsed the initial document, and when acceptance
//!   fails.
//! - Finalization: the post-parse work of an owner that is still current.
//! - Child classic script execution: the follow-up facts of one execution.

use vstd::prelude::*;
use crate::worker_host_bridge::RendererDocumentToken;

verus! {

/// The frame document a task belongs to.
#[derive(Clone, Copy, Debug, PartialEq, Eq, Hash, Structural)]
pub struct FrameDocumentTaskOwner(pub u64);

/// The exact main-document epoch shared by task families that target one
/// live parser/runtime instance.
///
/// - `root_document` rejects tasks of a retired PageVm generation;
/// - `document_owner` rejects a replaced `Document`;
/// - `runtime_generation` rejects `document.open()` epochs that keep the
///   same realm and PageVm.
///
/// A task may still be selected after its owner went stale; the executor
/// compares the owner with the current runtime and discards a mismatch.
#[derive(Clone, Copy, Debug, PartialEq, Eq, Hash, Structural)]
pub struct RendererPageMainDocumentTaskOwner {
    root_document: RendererDocumentToken,
    document_owner: FrameDocumentTaskOwner,
    runtime_generation: u64,
}

impl RendererPageMainDocumentTaskOwner {
    /// The root document.
    pub closed spec fn spec_root_document(self) -> RendererDocumentToken {
        self.root_document
    }

    /// The document owner.
    pub closed spec fn spec_document_owner(self) -> FrameDocumentTaskOwner {
        self.document_owner
    }

    /// The runtime generation.
    pub closed spec fn spec_runtime_generation(self) -> u64 {
        self.runtime_generation
    }

    /// The owner of the given epoch.
    pub fn new(
        root_document: RendererDocumentToken,
        document_owner: FrameDocumentTaskOwner,
        runtime_generation: u64,
    ) -> (owner: Self)
        ensures
            owner.spec_root_document() == root_document,
            owner.spec_document_owner() == document_owner,
            owner.spec_runtime_generation() == runtime_generation,
    {
        RendererPageMainDocumentTaskOwner { root_document, document_owner, runtime_generation }
    }

    /// The owner of the given epoch (test support).
    pub fn new_for_testing(
        root_document: RendererDocumentToken,
        document_owner: FrameDocumentTaskOwner,
        runtime_generation: u64,
    ) -> (owner: Self)
        ensures
            owner.spec_root_document() == root_document,
            owner.spec_document_owner() == document_owner,
            owner.spec_runtime_generation() == runtime_generation,
    {
        Self::new(root_document, document_owner, runtime_generation)
    }

    /// The root document.
    pub fn root_document(self) -> (root: RendererDocumentToken)
        ensures
            root == self.spec_root_document(),
    {
        self.root_document
    }

    /// The document owner.
    pub fn document_owner(self) -> (owner: FrameDocumentTaskOwner)
        ensures
            owner == self.spec_document_owner(),
    {
        self.document_owner
    }

    /// The runtime generation.
    pub fn runtime_generation(self) -> (generation: u64)
        ensures
            generation == self.spec_runtime_generation(),
    {
        self.runtime_generation
    }
}

/// Two owners are equal exactly when their three identity layers are.
pub proof fn law_owner_identity_is_its_three_layers(a: RendererPageMainDocumentTaskOwner, b: RendererPageMainDocumentTaskOwner)
    ensures
        (a == b) <==> (a.spec_root_document() == b.spec_root_document() && a.spec_document_owner()
            == b.spec_document_owner() && a.spec_runtime_generation() == b.spec_runtime_generation()),
{
}

/// A handoff the parser made while it parsed the initial document, as far as
/// acceptance decides on it.
#[derive(Clone, Copy, Debug, PartialEq, Eq, Structural)]
pub enum ParserHandoffKind {
    /// A `<link rel=modulepreload>`.
    ModulepreloadLink,
    /// A parser-blocking classic script.
    BlockingClassic,
    /// An async module script.
    AsyncPostParseModule,
    /// An async classic script.
    AsyncPostParseClassic,
    /// A deferred (non-async, post-parse) script.
    NonAsyncPostParse,
    /// An import map.
    ImportMap,
    /// A script element that runs nothing; `reports_run` where it still has a
    /// run to report.
    NoExecution { reports_run: bool },
    /// A script whose preparation failed.
    PreparationFailure,
}

/// One thing the Page VM does while accepting a handoff.
#[derive(Clone, Copy, Debug, PartialEq, Eq, Structural)]
pub enum InitialScriptAcceptanceStep {
    /// Hand the modulepreload link to the VM.
    AcceptModulepreload,
    /// Note the script's start position, bind its prepared script and mark
    /// it already started.
    BindParserScript,
    /// Queue the prepared blocking script as Page-owned work.
    PushPreparedScriptWork,
    /// Let the VM accept the async module for the owner (it answers whether
    /// it did).
    AcceptAsyncModule,
    /// Let the scheduler accept the async classic candidate and claim its
    /// parse-time handoff (it answers whether both happened).
    AcceptAsyncClassic,
    /// Let the VM claim the deferred script for the owner (it answers whether
    /// it did).
    ClaimDeferredScript,
    /// Hand the import map to the module runtime.
    AcceptImportMap,
    /// Apply the element's state transition and note its start position.
    ApplyElementState,
    /// Report the element's run.
    RecordRun,
    /// Queue the preparation failure as Page-owned work.
    PushPreparationFailureWork,
}

/// The steps of accepting a handoff, in order.
pub open spec fn acceptance_steps(kind: ParserHandoffKind) -> Seq<InitialScriptAcceptanceStep> {
    match kind {
        ParserHandoffKind::ModulepreloadLink => seq![InitialScriptAcceptanceStep::AcceptModulepreload],
        ParserHandoffKind::BlockingClassic => seq![
            InitialScriptAcceptanceStep::BindParserScript,
            InitialScriptAcceptanceStep::PushPreparedScriptWork,
        ],
        ParserHandoffKind::AsyncPostParseModule => seq![
            InitialScriptAcceptanceStep::BindParserScript,
            InitialScriptAcceptanceStep::AcceptAsyncModule,
        ],
        ParserHandoffKind::AsyncPostParseClassic => seq![
            InitialScriptAcceptanceStep::BindParserScript,
            InitialScriptAcceptanceStep::AcceptAsyncClassic,
        ],
        ParserHandoffKind::NonAsyncPostParse => seq![
            InitialScriptAcceptanceStep::BindParserScript,
            InitialScriptAcceptanceStep::ClaimDeferredScript,
        ],
        ParserHandoffKind::ImportMap => seq![InitialScriptAcceptanceStep::AcceptImportMap],
        ParserHandoffKind::NoExecution { reports_run } => if reports_run {
            seq![InitialScriptAcceptanceStep::ApplyElementState, InitialScriptAcceptanceStep::RecordRun]
        } else {
            seq![InitialScriptAcceptanceStep::ApplyElementState]
        },
        ParserHandoffKind::PreparationFailure => seq![
            InitialScriptAcceptanceStep::ApplyElementState,
            InitialScriptAcceptanceStep::PushPreparationFailureWork,
        ],
    }
}

/// The steps of accepting a handoff, in order.
pub fn initial_handoff_acceptance_steps(kind: ParserHandoffKind) -> (steps: Vec<InitialScriptAcceptanceStep>)
    ensures
        steps@ == acceptance_steps(kind),
{
    let steps: Vec<InitialScriptAcceptanceStep> = match kind {
        ParserHandoffKind::ModulepreloadLink => vec![InitialScriptAcceptanceStep::AcceptModulepreload],
        ParserHandoffKind::BlockingClassic => vec![
            InitialScriptAcceptanceStep::BindParserScript,
            InitialScriptAcceptanceStep::PushPreparedScriptWork,
        ],
        ParserHandoffKind::AsyncPostParseModule => vec![
            InitialScriptAcceptanceStep::BindParserScript,
            InitialScriptAcceptanceStep::AcceptAsyncModule,
        ],
        ParserHandoffKind::AsyncPostParseClassic => vec![
            InitialScriptAcceptanceStep::BindParserScript,
            InitialScriptAcceptanceStep::AcceptAsyncClassic,
        ],
        ParserHandoffKind::NonAsyncPostParse => vec![
            InitialScriptAcceptanceStep::BindParserScript,
            InitialScriptAcceptanceStep::ClaimDeferredScript,
        ],
        ParserHandoffKind::ImportMap => vec![InitialScriptAcceptanceStep::AcceptImportMap],
        ParserHandoffKind::NoExecution { reports_run } => if reports_run {
            vec![InitialScriptAcceptanceStep::ApplyElementState, InitialScriptAcceptanceStep::RecordRun]
        } else {
            vec![InitialScriptAcceptanceStep::ApplyElementState]
        },
        ParserHandoffKind::PreparationFailure => vec![
            InitialScriptAcceptanceStep::ApplyElementState,
            InitialScriptAcceptanceStep::PushPreparationFailureWork,
        ],
    };
    assert(steps@ =~= acceptance_steps(kind));
    steps
}

/// The error of a step whose answer was no, if it is one that answers.
pub open spec fn refused_step_error(step: InitialScriptAcceptanceStep) -> Option<Seq<char>> {
    match step {
        InitialScriptAcceptanceStep::AcceptAsyncModule => Some(
            "initial parser async module could not bind its document owner"@,
        ),
        InitialScriptAcceptanceStep::AcceptAsyncClassic => Some(
            "initial document async parser handoff could not establish discovery ownership"@,
        ),
        InitialScriptAcceptanceStep::ClaimDeferredScript => Some(
            "initial parser-deferred handoff could not bind its document owner"@,
        ),
        _ => None,
    }
}

/// Whether acceptance goes on after `step` answered `accepted`: a step that
/// answers fails the whole acceptance when it answers no.
pub fn acceptance_step_outcome(step: InitialScriptAcceptanceStep, accepted: bool) -> (outcome: Result<(), String>)
    ensures
        match refused_step_error(step) {
            Some(message) => if accepted {
                outcome is Ok
            } else {
                outcome matches Err(e) && e@ == message
            },
            None => outcome is Ok,
        },
{
    if accepted {
        return Ok(());
    }
    match step {
        InitialScriptAcceptanceStep::AcceptAsyncModule => Err(
            "initial parser async module could not bind its document owner".to_owned(),
        ),
        InitialScriptAcceptanceStep::AcceptAsyncClassic => Err(
            "initial document async parser handoff could not establish discovery ownership".to_owned(),
        ),
        InitialScriptAcceptanceStep::ClaimDeferredScript => Err(
            "initial parser-deferred handoff could not bind its document owner".to_owned(),
        ),
        _ => Ok(()),
    }
}

/// The steps of accepting `kinds`, in order: each handoff's steps, tagged
/// with its index, one handoff after the other.
pub open spec fn acceptance_trace(kinds: Seq<ParserHandoffKind>) -> Seq<(usize, InitialScriptAcceptanceStep)>
    decreases kinds.len(),
{
    if kinds.len() == 0 {
        Seq::empty()
    } else {
        let n = kinds.len() - 1;
        acceptance_trace(kinds.drop_last()) + acceptance_steps(kinds[n]).map_values(
            |step: InitialScriptAcceptanceStep| (n as usize, step),
        )
    }
}

/// How many entries of `trace` are `step`.
pub open spec fn step_count(trace: Seq<(usize, InitialScriptAcceptanceStep)>, step: InitialScriptAcceptanceStep) -> nat
    decreases trace.len(),
{
    if trace.len() == 0 {
        0
    } else {
        step_count(trace.drop_last(), step) + if trace.last().1 == step {
            1nat
        } else {
            0nat
        }
    }
}

/// How many of `kinds` are `kind`.
pub open spec fn kind_count(kinds: Seq<ParserHandoffKind>, kind: ParserHandoffKind) -> nat
    decreases kinds.len(),
{
    if kinds.len() == 0 {
        0
    } else {
        kind_count(kinds.drop_last(), kind) + if kinds.last() == kind {
            1nat
        } else {
            0nat
        }
    }
}

proof fn lemma_step_count_add(
    a: Seq<(usize, InitialScriptAcceptanceStep)>,
    b: Seq<(usize, InitialScriptAcceptanceStep)>,
    step: InitialScriptAcceptanceStep,
)
    ensures
        step_count(a + b, step) == step_count(a, step) + step_count(b, step),
    decreases b.len(),
{
    if b.len() > 0 {
        assert((a + b).drop_last() =~= a + b.drop_last());
        lemma_step_count_add(a, b.drop_last(), step);
    } else {
        assert(a + b =~= a);
    }
}

/// Accepting `kinds` queues one prepared script per parser-blocking classic
/// script, and only for such a handoff.
pub proof fn law_one_prepared_script_work_per_blocking_classic(kinds: Seq<ParserHandoffKind>)
    requires
        kinds.len() <= usize::MAX,
    ensures
        step_count(acceptance_trace(kinds), InitialScriptAcceptanceStep::PushPreparedScriptWork)
            == kind_count(kinds, ParserHandoffKind::BlockingClassic),
        forall|i: int|
            0 <= i < acceptance_trace(kinds).len() && (#[trigger] acceptance_trace(kinds)[i]).1
                == InitialScriptAcceptanceStep::PushPreparedScriptWork ==> kinds[acceptance_trace(kinds)[i].0 as int]
                == ParserHandoffKind::BlockingClassic,
    decreases kinds.len(),
{
    law_acceptance_visits_handoffs_in_order(kinds);
    if kinds.len() > 0 {
        let n = kinds.len() - 1;
        let front = kinds.drop_last();
        law_one_prepared_script_work_per_blocking_classic(front);
        let tail = acceptance_steps(kinds[n]).map_values(|step: InitialScriptAcceptanceStep| (n as usize, step));
        lemma_step_count_add(acceptance_trace(front), tail, InitialScriptAcceptanceStep::PushPreparedScriptWork);
        reveal_with_fuel(step_count, 3);
        assert(tail.len() <= 2);
        if tail.len() == 2 {
            assert(tail.drop_last().drop_last() =~= Seq::<(usize, InitialScriptAcceptanceStep)>::empty());
        } else {
            assert(tail.drop_last() =~= Seq::<(usize, InitialScriptAcceptanceStep)>::empty());
        }
        let t = acceptance_trace(kinds);
        assert forall|i: int|
            0 <= i < t.len() && (#[trigger] t[i]).1 == InitialScriptAcceptanceStep::PushPreparedScriptWork implies kinds[t[i].0 as int]
                == ParserHandoffKind::BlockingClassic by {
            let ft = acceptance_trace(front);
            if i < ft.len() {
                assert(t[i] == ft[i]);
            } else {
                assert(t[i] == tail[i - ft.len()]);
            }
        }
    }
}

/// Accepting `kinds` visits the handoffs in order: every step belongs to a
/// handoff of `kinds` and is one of its acceptance steps, and the handoff
/// index never goes back.
pub proof fn law_acceptance_visits_handoffs_in_order(kinds: Seq<ParserHandoffKind>)
    requires
        kinds.len() <= usize::MAX,
    ensures
        forall|i: int|
            0 <= i < acceptance_trace(kinds).len() ==> (#[trigger] acceptance_trace(kinds)[i]).0 < kinds.len()
                && acceptance_steps(kinds[acceptance_trace(kinds)[i].0 as int]).contains(acceptance_trace(kinds)[i].1),
        forall|i: int, j: int|
            0 <= i <= j < acceptance_trace(kinds).len() ==> (#[trigger] acceptance_trace(kinds)[i]).0
                <= (#[trigger] acceptance_trace(kinds)[j]).0,
    decreases kinds.len(),
{
    if kinds.len() > 0 {
        let n = kinds.len() - 1;
        let front = kinds.drop_last();
        law_acceptance_visits_handoffs_in_order(front);
        let ft = acceptance_trace(front);
        let steps = acceptance_steps(kinds[n]);
        let tail = steps.map_values(|step: InitialScriptAcceptanceStep| (n as usize, step));
        let t = acceptance_trace(kinds);
        assert forall|i: int| 0 <= i < t.len() implies (#[trigger] t[i]).0 < kinds.len()
            && acceptance_steps(kinds[t[i].0 as int]).contains(t[i].1) by {
            if i < ft.len() {
                assert(t[i] == ft[i]);
                assert(kinds[ft[i].0 as int] == front[ft[i].0 as int]);
            } else {
                let k = i - ft.len();
                assert(t[i] == tail[k]);
                assert(steps[k] == t[i].1);
            }
        }
        assert forall|i: int, j: int| 0 <= i <= j < t.len() implies (#[trigger] t[i]).0 <= (#[trigger] t[j]).0 by {
            if j < ft.len() {
                assert(t[i] == ft[i] && t[j] == ft[j]);
            } else if i < ft.len() {
                assert(t[i] == ft[i]);
                assert(t[j] == tail[j - ft.len()]);
            } else {
                assert(t[i] == tail[i - ft.len()]);
                assert(t[j] == tail[j - ft.len()]);
            }
        }
    }
}

/// Whether `step` queues Page-owned work.
pub open spec fn queues_page_owned_work(step: InitialScriptAcceptanceStep) -> bool {
    step == InitialScriptAcceptanceStep::PushPreparedScriptWork || step
        == InitialScriptAcceptanceStep::PushPreparationFailureWork
}

/// The handoff of each Page-owned work item that the steps of `trace`
/// queue, in order.
pub open spec fn queued_work(trace: Seq<(usize, InitialScriptAcceptanceStep)>) -> Seq<usize>
    decreases trace.len(),
{
    if trace.len() == 0 {
        Seq::empty()
    } else if queues_page_owned_work(trace.last().1) {
        queued_work(trace.drop_last()).push(trace.last().0)
    } else {
        queued_work(trace.drop_last())
    }
}

/// The handoffs of `kinds` that queue Page-owned work (a blocking classic
/// script or a preparation failure), in order.
pub open spec fn work_handoffs(kinds: Seq<ParserHandoffKind>) -> Seq<usize>
    decreases kinds.len(),
{
    if kinds.len() == 0 {
        Seq::empty()
    } else {
        let n = kinds.len() - 1;
        let front = work_handoffs(kinds.drop_last());
        match kinds[n] {
            ParserHandoffKind::BlockingClassic | ParserHandoffKind::PreparationFailure => front.push(n as usize),
            _ => front,
        }
    }
}

proof fn lemma_queued_work_add(a: Seq<(usize, InitialScriptAcceptanceStep)>, b: Seq<(usize, InitialScriptAcceptanceStep)>)
    ensures
        queued_work(a + b) == queued_work(a) + queued_work(b),
    decreases b.len(),
{
    if b.len() > 0 {
        assert((a + b).drop_last() =~= a + b.drop_last());
        assert((a + b).last() == b.last());
        lemma_queued_work_add(a, b.drop_last());
        if queues_page_owned_work(b.last().1) {
            assert(queued_work(a) + queued_work(b.drop_last()).push(b.last().0) =~= (queued_work(a) + queued_work(
                b.drop_last(),
            )).push(b.last().0));
        }
    } else {
        assert(a + b =~= a);
        assert(queued_work(a) + Seq::<usize>::empty() =~= queued_work(a));
    }
}

/// Accepting every handoff of `kinds` queues one Page-owned work item for
/// each blocking classic script and each preparation failure, in handoff
/// order, and none for any other handoff.
pub proof fn law_page_owned_work_follows_the_handoffs(kinds: Seq<ParserHandoffKind>)
    requires
        kinds.len() <= usize::MAX,
    ensures
        queued_work(acceptance_trace(kinds)) == work_handoffs(kinds),
    decreases kinds.len(),
{
    if kinds.len() > 0 {
        let n = kinds.len() - 1;
        let front = kinds.drop_last();
        law_page_owned_work_follows_the_handoffs(front);
        let tail = acceptance_steps(kinds[n]).map_values(|step: InitialScriptAcceptanceStep| (n as usize, step));
        lemma_queued_work_add(acceptance_trace(front), tail);
        reveal_with_fuel(queued_work, 3);
        if tail.len() == 2 {
            assert(tail.drop_last().drop_last() =~= Seq::<(usize, InitialScriptAcceptanceStep)>::empty());
        } else {
            assert(tail.drop_last() =~= Seq::<(usize, InitialScriptAcceptanceStep)>::empty());
        }
        let w = queued_work(tail);
        match kinds[n] {
            ParserHandoffKind::BlockingClassic | ParserHandoffKind::PreparationFailure => {
                assert(w =~= seq![n as usize]);
                assert(work_handoffs(front) + w =~= work_handoffs(front).push(n as usize));
            },
            _ => {
                assert(w =~= Seq::<usize>::empty());
                assert(work_handoffs(front) + w =~= work_handoffs(front));
            },
        }
    }
}

/// A run over `kinds` that completed every step has queued exactly the
/// Page-owned work of `law_page_owned_work_follows_the_handoffs`.
pub proof fn law_completed_run_queues_the_handoffs_work<S>(run: InitialScriptAcceptanceRun<S>, kinds: Seq<ParserHandoffKind>)
    requires
        kinds.len() <= usize::MAX,
        run.wf(),
        run.steps() == acceptance_trace(kinds),
        run.completed() == run.steps().len(),
    ensures
        run.spec_page_owned_work() == work_handoffs(kinds),
{
    law_page_owned_work_follows_the_handoffs(kinds);
    assert(run.steps().subrange(0, run.completed() as int) =~= run.steps());
}

/// Initial script acceptance as it runs for one main owner: the steps of
/// every handoff, in order, one at a time, until the first step that
/// refuses.  It keeps the owner and the blocking stylesheet inputs (of type
/// `S`) as given, and the handoff of each Page-owned work item queued so
/// far.
pub struct InitialScriptAcceptanceRun<S> {
    owner: FrameDocumentTaskOwner,
    trace: Vec<(usize, InitialScriptAcceptanceStep)>,
    position: usize,
    failure: Option<String>,
    page_owned_work: Vec<usize>,
    blocking_stylesheet_inputs: Vec<S>,
}

impl<S> InitialScriptAcceptanceRun<S> {
    /// The owner the run accepts for.
    pub closed spec fn spec_owner(&self) -> FrameDocumentTaskOwner {
        self.owner
    }

    /// The blocking stylesheet inputs, as given.
    pub closed spec fn spec_blocking_stylesheet_inputs(&self) -> Seq<S> {
        self.blocking_stylesheet_inputs@
    }

    /// The handoff of each Page-owned work item queued so far.
    pub closed spec fn spec_page_owned_work(&self) -> Seq<usize> {
        self.page_owned_work@
    }

    /// Every step of the run, in order.
    pub closed spec fn steps(&self) -> Seq<(usize, InitialScriptAcceptanceStep)> {
        self.trace@
    }

    /// How many steps were completed.
    pub closed spec fn completed(&self) -> nat {
        self.position as nat
    }

    /// The error of the step that refused, if one did.
    pub closed spec fn failure(&self) -> Option<Seq<char>> {
        match self.failure {
            Some(e) => Some(e@),
            None => None,
        }
    }

    /// The completed steps never outrun the run; a refusal stops at a step;
    /// the queued work is that of the completed steps.
    pub closed spec fn wf(&self) -> bool {
        &&& self.position <= self.trace@.len()
        &&& self.failure is Some ==> self.position < self.trace@.len()
        &&& self.page_owned_work@ == queued_work(self.trace@.subrange(0, self.position as int))
    }

    /// The step to perform next, if the run goes on.
    pub open spec fn pending_step(&self) -> Option<(usize, InitialScriptAcceptanceStep)> {
        if self.failure() is None && self.completed() < self.steps().len() {
            Some(self.steps()[self.completed() as int])
        } else {
            None
        }
    }

    /// The run for `owner` over `handoffs`, with no step done yet.
    pub fn new(owner: FrameDocumentTaskOwner, handoffs: &Vec<ParserHandoffKind>, blocking_stylesheet_inputs: Vec<S>) -> (run:
        Self)
        ensures
            run.wf(),
            run.spec_owner() == owner,
            run.spec_blocking_stylesheet_inputs() == blocking_stylesheet_inputs@,
            run.steps() == acceptance_trace(handoffs@),
            run.completed() == 0,
            run.failure() is None,
            run.spec_page_owned_work() == Seq::<usize>::empty(),
    {
        let mut trace: Vec<(usize, InitialScriptAcceptanceStep)> = Vec::new();
        let mut i: usize = 0;
        while i < handoffs.len()
            invariant
                i <= handoffs@.len(),
                trace@ == acceptance_trace(handoffs@.subrange(0, i as int)),
            decreases handoffs@.len() - i,
        {
            let steps = initial_handoff_acceptance_steps(handoffs[i]);
            let ghost before = trace@;
            let mut k: usize = 0;
            while k < steps.len()
                invariant
                    i < handoffs@.len(),
                    k <= steps@.len(),
                    steps@ == acceptance_steps(handoffs@[i as int]),
                    trace@ == before + steps@.subrange(0, k as int).map_values(
                        |step: InitialScriptAcceptanceStep| (i, step),
                    ),
                decreases steps@.len() - k,
            {
                trace.push((i, steps[k]));
                k = k + 1;
                assert(steps@.subrange(0, k as int).map_values(|step: InitialScriptAcceptanceStep| (i, step))
                    =~= steps@.subrange(0, k - 1).map_values(|step: InitialScriptAcceptanceStep| (i, step)).push(
                    (i, steps@[k - 1]),
                ));
            }
            proof {
                let next = handoffs@.subrange(0, i + 1);
                assert(next.drop_last() =~= handoffs@.subrange(0, i as int));
                assert(steps@.subrange(0, k as int) =~= steps@);
                assert(next[i as int] == handoffs@[i as int]);
            }
            i = i + 1;
        }
        assert(handoffs@.subrange(0, i as int) =~= handoffs@);
        assert(trace@.subrange(0, 0) =~= Seq::<(usize, InitialScriptAcceptanceStep)>::empty());
        InitialScriptAcceptanceRun {
            owner,
            trace,
            position: 0,
            failure: None,
            page_owned_work: Vec::new(),
            blocking_stylesheet_inputs,
        }
    }

    /// The step to perform next: the handoff's index and the step; nothing
    /// once every step is done or one refused.
    pub fn next_step(&self) -> (step: Option<(usize, InitialScriptAcceptanceStep)>)
        requires
            self.wf(),
        ensures
            step == self.pending_step(),
    {
        if self.failure.is_none() && self.position < self.trace.len() {
            Some(self.trace[self.position])
        } else {
            None
        }
    }

    /// Records the answer of the pending step (`true` for a step that does
    /// not answer): a refusal stops the run with the step's error;
    /// otherwise the run moves to the next step.
    pub fn complete_step(&mut self, accepted: bool)
        requires
            old(self).wf(),
            old(self).pending_step() is Some,
        ensures
            final(self).wf(),
            final(self).steps() == old(self).steps(),
            final(self).spec_owner() == old(self).spec_owner(),
            final(self).spec_blocking_stylesheet_inputs() == old(self).spec_blocking_stylesheet_inputs(),
            final(self).spec_page_owned_work() == queued_work(final(self).steps().subrange(0, final(self).completed() as int)),
            match refused_step_error(old(self).steps()[old(self).completed() as int].1) {
                Some(message) if !accepted => final(self).failure() == Some(message)
                    && final(self).completed() == old(self).completed(),
                _ => final(self).failure() is None && final(self).completed() == old(self).completed() + 1,
            },
    {
        let total = self.trace.len();
        let (_, step) = self.trace[self.position];
        assert(self.position < total);
        match acceptance_step_outcome(step, accepted) {
            Ok(()) => {
                let (handoff, _) = self.trace[self.position];
                if step == InitialScriptAcceptanceStep::PushPreparedScriptWork || step
                    == InitialScriptAcceptanceStep::PushPreparationFailureWork {
                    self.page_owned_work.push(handoff);
                }
                proof {
                    let done = self.trace@.subrange(0, self.position + 1);
                    assert(done.drop_last() =~= self.trace@.subrange(0, self.position as int));
                }
                self.position = self.position + 1;
            },
            Err(e) => {
                self.failure = Some(e);
            },
        }
    }

    /// How the run ended: nothing while steps remain, the refusing step's
    /// error, or success once every step is done.
    pub fn outcome(&self) -> (outcome: Option<Result<(), String>>)
        requires
            self.wf(),
        ensures
            match self.failure() {
                Some(message) => outcome matches Some(Err(e)) && e@ == message,
                None => if self.completed() == self.steps().len() {
                    outcome == Some(Ok::<(), String>(()))
                } else {
                    outcome is None
                },
            },
    {
        match &self.failure {
            Some(e) => Some(Err(e.clone())),
            None => if self.position == self.trace.len() {
                Some(Ok(()))
            } else {
                None
            },
        }
    }

    /// The owner the run accepts for.
    pub fn owner(&self) -> (owner: FrameDocumentTaskOwner)
        ensures
            owner == self.spec_owner(),
    {
        self.owner
    }

    /// The blocking stylesheet inputs, as given.
    pub fn blocking_stylesheet_inputs(&self) -> (inputs: &Vec<S>)
        ensures
            inputs@ == self.spec_blocking_stylesheet_inputs(),
    {
        &self.blocking_stylesheet_inputs
    }

    /// The handoff of each Page-owned work item queued so far, in order:
    /// the work of the completed steps.
    pub fn page_owned_work(&self) -> (work: &Vec<usize>)
        requires
            self.wf(),
        ensures
            work@ == self.spec_page_owned_work(),
            work@ == queued_work(self.steps().subrange(0, self.completed() as int)),
    {
        &self.page_owned_work
    }
}

/// The owner initial script acceptance runs for: the current main owner, or
/// the error where there is none.
pub fn initial_acceptance_owner(current_main_owner: Option<FrameDocumentTaskOwner>) -> (owner: Result<
    FrameDocumentTaskOwner,
    String,
>)
    ensures
        match current_main_owner {
            Some(o) => owner == Ok::<FrameDocumentTaskOwner, String>(o),
            None => owner matches Err(e) && e@ == "initial document script acceptance requires a main owner"@,
        },
{
    match current_main_owner {
        Some(o) => Ok(o),
        None => Err("initial document script acceptance requires a main owner".to_owned()),
    }
}

/// The Page-owned work after parsing, once deferred scripts are sealed:
/// nothing where the owner is no longer current; otherwise the work queued
/// during acceptance, then the scheduler's handoff work, then the sealing
/// marker, if any.
pub fn finalized_post_parse_work<W>(
    owner_still_current: bool,
    page_owned_work: Vec<W>,
    handoff_work: Vec<W>,
    marker: Option<W>,
) -> (work: Vec<W>)
    ensures
        !owner_still_current ==> work@ == Seq::<W>::empty(),
        owner_still_current ==> work@ == page_owned_work@ + handoff_work@ + (match marker {
            Some(m) => seq![m],
            None => Seq::<W>::empty(),
        }),
{
    if !owner_still_current {
        return Vec::new();
    }
    let mut work = page_owned_work;
    let mut handoff = handoff_work;
    work.append(&mut handoff);
    match marker {
        Some(m) => {
            work.push(m);
        },
        None => {
            assert(work@ =~= work@ + Seq::<W>::empty());
        },
    }
    work
}

/// When a child classic script runs: parser-blocking, or not.
#[derive(Clone, Copy, Debug, PartialEq, Eq, Structural)]
pub enum FrameDocumentClassicScriptScheduling {
    ParserBlocking,
    Other,
}

/// Whether running a child classic script enters the parser's script
/// nesting: only a parser-blocking one does.
pub fn enters_parser_script_nesting(scheduling: FrameDocumentClassicScriptScheduling) -> (enters: bool)
    ensures
        enters == (scheduling == FrameDocumentClassicScriptScheduling::ParserBlocking),
{
    match scheduling {
        FrameDocumentClassicScriptScheduling::ParserBlocking => true,
        FrameDocumentClassicScriptScheduling::Other => false,
    }
}

/// The follow-up facts of one child classic script execution.
#[derive(Clone, Copy, Debug, PartialEq, Eq, Structural)]
pub struct FrameDocumentClassicExecutionFollowup {
    pub script_job_attempted: bool,
    pub script_job_failed: bool,
    pub completion_produced: bool,
}

/// The follow-up of an execution: the job was attempted; it failed where its
/// body returned an error; a completion was produced where finishing gave
/// one.
pub fn classic_execution_followup(job_failed: bool, completion_produced: bool) -> (followup: FrameDocumentClassicExecutionFollowup)
    ensures
        followup.script_job_attempted,
        followup.script_job_failed == job_failed,
        followup.completion_produced == completion_produced,
{
    FrameDocumentClassicExecutionFollowup { script_job_attempted: true, script_job_failed: job_failed, completion_produced }
}

} // verus!
