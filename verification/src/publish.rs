//! Publishing: the writes, their order, and what follows from the host's
//! answer to each.
//!
//! A [`Publisher`] holds the writes of one publication and how far it has got.
//! It never touches the host. Its owner looks at [`Publisher::action`],
//! performs the write that it names, and reports the host's answer with
//! [`Publisher::step`], until the action is [`Action::Finish`]. The first
//! refused write ends the publication: no later write is asked for, and what
//! was written stays.
//!
//! The host's namespace is modelled as a map from keys to values, on the one
//! assumption that a write which the host accepts stores its value under its
//! key and changes nothing else, and that a refused write changes nothing.

use crate::error::NeviraideError;
use crate::error::NeviraideErrorView;
use crate::error::NeviraideResult;
use vstd::prelude::*;

verus! {

/// The variables of the host, by key.
pub type Namespace = Map<Seq<char>, Seq<char>>;

/// One write: the variable's dotted key and its value as text.
#[derive(Debug, Clone, PartialEq, Eq)]
pub struct Entry {
    pub key: String,
    pub value: String,
}

/// An [`Entry`] as a pair of character sequences.
pub struct EntryView {
    pub key: Seq<char>,
    pub value: Seq<char>,
}

/// The write of `value` under `key`.
pub open spec fn entry(key: Seq<char>, value: Seq<char>) -> EntryView {
    EntryView { key, value }
}

impl DeepView for Entry {
    type V = EntryView;

    open spec fn deep_view(&self) -> EntryView {
        EntryView { key: self.key@, value: self.value@ }
    }
}

impl View for Entry {
    type V = EntryView;

    open spec fn view(&self) -> EntryView {
        self.deep_view()
    }
}

/// The host's answer to one write.
#[derive(Debug, Clone, PartialEq, Eq)]
pub enum Outcome {
    /// The host stored the value.
    Written,
    /// The host refused the write. The string is the debug rendering of its
    /// failure.
    Failed(String),
}

/// An [`Outcome`] with the rendering as a sequence of characters.
pub enum OutcomeView {
    Written,
    Failed(Seq<char>),
}

impl View for Outcome {
    type V = OutcomeView;

    open spec fn view(&self) -> OutcomeView {
        match self {
            Outcome::Written => OutcomeView::Written,
            Outcome::Failed(reason) => OutcomeView::Failed(reason@),
        }
    }
}

/// What the owner of a [`Publisher`] is to do next.
#[derive(Debug, PartialEq, Eq)]
pub enum Action {
    /// Perform this write and report the host's answer.
    Write(Entry),
    /// Stop: the publication has ended with this result.
    Finish(NeviraideResult<()>),
}

/// An [`Action`] over views.
pub enum ActionView {
    Write(EntryView),
    Finish(Result<(), NeviraideErrorView>),
}

impl View for Action {
    type V = ActionView;

    open spec fn view(&self) -> ActionView {
        match self {
            Action::Write(entry) => ActionView::Write(entry@),
            Action::Finish(Ok(())) => ActionView::Finish(Ok(())),
            Action::Finish(Err(error)) => ActionView::Finish(Err(error@)),
        }
    }
}

/// The state of one publication: its writes in order, how many of them the
/// host has stored, and the reason of the refusal that ended it, if one did.
pub struct PublisherView {
    pub plan: Seq<EntryView>,
    pub written: nat,
    pub failure: Option<Seq<char>>,
}

impl PublisherView {
    /// The publication of `plan` before its first write.
    pub open spec fn start(plan: Seq<EntryView>) -> PublisherView {
        PublisherView { plan, written: 0, failure: None }
    }

    /// No more writes are counted as stored than there are.
    pub open spec fn wf(self) -> bool {
        self.written <= self.plan.len()
    }

    /// A write is due: none was refused and some are left.
    pub open spec fn pending(self) -> bool {
        self.failure is None && self.written < self.plan.len()
    }

    /// What is to be done in this state.
    pub open spec fn action(self) -> ActionView {
        match self.failure {
            Some(reason) => ActionView::Finish(Err(NeviraideErrorView::set_var_failed(reason))),
            None => if self.written < self.plan.len() {
                ActionView::Write(self.plan[self.written as int])
            } else {
                ActionView::Finish(Ok(()))
            },
        }
    }

    /// The state after the host has answered the write that was due. Where no
    /// write was due the answer is ignored.
    pub open spec fn step(self, outcome: OutcomeView) -> PublisherView {
        if !self.pending() {
            self
        } else {
            match outcome {
                OutcomeView::Written => PublisherView { written: self.written + 1, ..self },
                OutcomeView::Failed(reason) => PublisherView { failure: Some(reason), ..self },
            }
        }
    }

    /// How many answers are needed at most before the publication ends.
    pub open spec fn remaining(self) -> nat {
        if self.pending() {
            (self.plan.len() - self.written) as nat
        } else {
            0
        }
    }

    /// The state in which the publication ends when the host answers the
    /// write at position `i` of the plan with `answers(i)`.
    pub open spec fn run(self, answers: spec_fn(nat) -> OutcomeView) -> PublisherView
        decreases self.remaining(),
    {
        if self.pending() {
            self.step(answers(self.written)).run(answers)
        } else {
            self
        }
    }

    /// The host's namespace in this state, given what it was before the first
    /// write.
    pub open spec fn namespace(self, before: Namespace) -> Namespace {
        stored(before, self.plan, self.written)
    }
}

/// The namespace `before` after the first `n` writes of `plan` were stored in
/// it, one after the other.
pub open spec fn stored(before: Namespace, plan: Seq<EntryView>, n: nat) -> Namespace
    decreases n,
{
    if n == 0 || n > plan.len() {
        before
    } else {
        stored(before, plan, (n - 1) as nat).insert(plan[n - 1].key, plan[n - 1].value)
    }
}

/// No two writes of `plan` have the same key.
pub open spec fn distinct_keys(plan: Seq<EntryView>) -> bool {
    forall|i: int, j: int| 0 <= i < j < plan.len() ==> plan[i].key != plan[j].key
}

/// One publication in progress.
#[derive(Debug)]
pub struct Publisher {
    plan: Vec<Entry>,
    written: usize,
    failure: Option<String>,
}

impl View for Publisher {
    type V = PublisherView;

    closed spec fn view(&self) -> PublisherView {
        PublisherView {
            plan: self.plan.deep_view(),
            written: self.written as nat,
            failure: match self.failure {
                Some(reason) => Some(reason@),
                None => None,
            },
        }
    }
}

impl Publisher {
    #[verifier::type_invariant]
    spec fn inv(&self) -> bool {
        self.written <= self.plan.len()
    }

    /// Begins the publication of `plan`.
    pub fn new(plan: Vec<Entry>) -> (p: Publisher)
        ensures
            p@ == PublisherView::start(plan.deep_view()),
    {
        Publisher { plan, written: 0, failure: None }
    }

    /// What is to be done next.
    pub fn action(&self) -> (a: Action)
        ensures
            self@.wf(),
            a@ == self@.action(),
    {
        proof {
            use_type_invariant(self);
        }
        match &self.failure {
            Some(reason) => Action::Finish(Err(NeviraideError::set_var_failed(reason))),
            None => if self.written < self.plan.len() {
                let entry = &self.plan[self.written];
                Action::Write(Entry { key: entry.key.clone(), value: entry.value.clone() })
            } else {
                Action::Finish(Ok(()))
            },
        }
    }

    /// Takes the host's answer to the write that was due, and says what is to
    /// be done next. Where no write was due the answer is ignored.
    pub fn step(&mut self, outcome: Outcome) -> (a: Action)
        ensures
            old(self)@.wf(),
            final(self)@ == old(self)@.step(outcome@),
            a@ == final(self)@.action(),
    {
        proof {
            use_type_invariant(&*self);
        }
        if self.failure.is_none() && self.written < self.plan.len() {
            match outcome {
                Outcome::Written => {
                    self.written = self.written + 1;
                },
                Outcome::Failed(reason) => {
                    self.failure = Some(reason);
                },
            }
        }
        self.action()
    }
}

/// A publication ends after finitely many answers, with the plan it began
/// with, and in a state in which no write is due.
pub proof fn lemma_run_ends(p: PublisherView, answers: spec_fn(nat) -> OutcomeView)
    requires
        p.wf(),
    ensures
        p.run(answers).plan == p.plan,
        p.run(answers).wf(),
        !p.run(answers).pending(),
        p.written <= p.run(answers).written,
    decreases p.remaining(),
{
    if p.pending() {
        lemma_run_ends(p.step(answers(p.written)), answers);
    }
}

/// Where the host stores every write from the current one on, the publication
/// ends with all writes stored and no failure.
pub proof fn lemma_run_all_written(p: PublisherView, answers: spec_fn(nat) -> OutcomeView)
    requires
        p.wf(),
        p.failure is None,
        forall|i: nat| p.written <= i < p.plan.len() ==> #[trigger] answers(i) is Written,
    ensures
        p.run(answers) == (PublisherView { written: p.plan.len(), ..p }),
        p.run(answers).action() == ActionView::Finish(Ok(())),
    decreases p.remaining(),
{
    if p.pending() {
        lemma_run_all_written(p.step(answers(p.written)), answers);
    }
}

/// Where the host stores every write before position `n` and refuses the one
/// at `n`, the publication ends there: `n` writes are stored, and the result
/// is the error that wraps the host's reason.
pub proof fn lemma_run_first_failure(
    p: PublisherView,
    answers: spec_fn(nat) -> OutcomeView,
    n: nat,
    reason: Seq<char>,
)
    requires
        p.failure is None,
        p.written <= n < p.plan.len(),
        forall|i: nat| p.written <= i < n ==> #[trigger] answers(i) is Written,
        answers(n) == OutcomeView::Failed(reason),
    ensures
        p.run(answers) == (PublisherView { written: n, failure: Some(reason), ..p }),
        p.run(answers).action() == ActionView::Finish(
            Err(NeviraideErrorView::set_var_failed(reason)),
        ),
    decreases n - p.written,
{
    if p.written < n {
        lemma_run_first_failure(p.step(answers(p.written)), answers, n, reason);
    } else {
        let q = p.step(answers(p.written));
        assert(!q.pending());
        assert(q.run(answers) == q);
    }
}

/// A key that none of the first `n` writes names is in the namespace after
/// them exactly as it was before.
pub proof fn lemma_stored_keeps(before: Namespace, plan: Seq<EntryView>, n: nat, key: Seq<char>)
    requires
        n <= plan.len(),
        forall|i: int| 0 <= i < n ==> plan[i].key != key,
    ensures
        stored(before, plan, n).dom().contains(key) == before.dom().contains(key),
        stored(before, plan, n)[key] == before[key],
    decreases n,
{
    if n > 0 {
        lemma_stored_keeps(before, plan, (n - 1) as nat, key);
    }
}

/// After the first `n` writes of a plan with distinct keys, each of them reads
/// back as it was written.
pub proof fn lemma_stored_reads_back(before: Namespace, plan: Seq<EntryView>, n: nat, i: int)
    requires
        distinct_keys(plan),
        0 <= i < n <= plan.len(),
    ensures
        stored(before, plan, n).dom().contains(plan[i].key),
        stored(before, plan, n)[plan[i].key] == plan[i].value,
    decreases n,
{
    if i < n - 1 {
        lemma_stored_reads_back(before, plan, (n - 1) as nat, i);
    }
}

/// What the first `n` writes store does not depend on what was there before:
/// it lies over the old namespace.
pub proof fn lemma_stored_over(before: Namespace, plan: Seq<EntryView>, n: nat)
    requires
        n <= plan.len(),
    ensures
        stored(before, plan, n) == before.union_prefer_right(stored(Map::empty(), plan, n)),
    decreases n,
{
    if n > 0 {
        lemma_stored_over(before, plan, (n - 1) as nat);
        let top = stored(Map::empty(), plan, (n - 1) as nat);
        let entry = plan[n - 1];
        assert(before.union_prefer_right(top).insert(entry.key, entry.value)
            =~= before.union_prefer_right(top.insert(entry.key, entry.value)));
    } else {
        assert(before =~= before.union_prefer_right(Map::empty()));
    }
}

/// Storing all writes of a plan a second time changes nothing.
pub proof fn lemma_stored_twice(before: Namespace, plan: Seq<EntryView>)
    ensures
        stored(stored(before, plan, plan.len()), plan, plan.len()) == stored(
            before,
            plan,
            plan.len(),
        ),
{
    let top = stored(Map::empty(), plan, plan.len());
    let once = stored(before, plan, plan.len());
    lemma_stored_over(before, plan, plan.len());
    lemma_stored_over(once, plan, plan.len());
    assert(before.union_prefer_right(top).union_prefer_right(top) =~= before.union_prefer_right(
        top,
    ));
}

} // verus!
