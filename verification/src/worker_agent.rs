//! The roster: the workers in service, which add to the score, and the workers
//! on offer, which do not until they are hired.

use crate::worker::{Worker, WorkerView};
use vstd::prelude::*;

verus! {

/// Name of the worker every roster starts with.
pub const DEFAULT_WORKER: &'static str = "Default Worker";

/// Name of the worker every roster starts out offering.
pub const BASIC_WORKER: &'static str = "Basic Worker";

/// The values of a list of workers, in order.
pub open spec fn views(workers: Seq<Worker>) -> Seq<WorkerView> {
    workers.map_values(|worker: Worker| worker@)
}

/// Whether some worker in `workers` goes by `name`.
pub open spec fn has_name(workers: Seq<WorkerView>, name: Seq<char>) -> bool {
    exists|i: int| 0 <= i < workers.len() && #[trigger] workers[i].name == name
}

/// Whether `i` is the place of the first worker in `workers` that goes by `name`.
pub open spec fn is_first_named(workers: Seq<WorkerView>, name: Seq<char>, i: int) -> bool {
    &&& 0 <= i < workers.len()
    &&& workers[i].name == name
    &&& forall|j: int| 0 <= j < i ==> #[trigger] workers[j].name != name
}

/// The place of the first worker in `workers` that goes by `name`.
pub open spec fn first_named(workers: Seq<WorkerView>, name: Seq<char>) -> int {
    choose|i: int| is_first_named(workers, name, i)
}

/// What the workers in `workers` add to the score together.
pub open spec fn total_score_increase(workers: Seq<WorkerView>) -> nat
    decreases workers.len(),
{
    if workers.len() == 0 {
        0
    } else {
        total_score_increase(workers.drop_last()) + workers.last().score_increase
    }
}

/// The mathematical value of a [`WorkerAgent`].
pub struct RosterView {
    pub acquired: Seq<WorkerView>,
    pub available: Seq<WorkerView>,
}

impl RosterView {
    /// The roster every run starts with.
    pub open spec fn initial() -> Self {
        RosterView {
            acquired: seq![WorkerView { name: DEFAULT_WORKER@, score_increase: 1, cost: 0 }],
            available: seq![WorkerView { name: BASIC_WORKER@, score_increase: 2, cost: 100 }],
        }
    }

    /// Every worker, those in service first.
    pub open spec fn everyone(self) -> Seq<WorkerView> {
        self.acquired + self.available
    }

    /// No name occurs twice: neither within one of the two lists nor in both.
    pub open spec fn wf(self) -> bool {
        forall|i: int, j: int|
            0 <= i < j < self.everyone().len() ==> #[trigger] self.everyone()[i].name
                != #[trigger] self.everyone()[j].name
    }

    /// Whether a worker of that name can be hired.
    pub open spec fn offers(self, name: Seq<char>) -> bool {
        has_name(self.available, name)
    }

    /// The roster after hiring by `name`: the first worker on offer under that
    /// name moves to the end of those in service; with no such worker nothing
    /// changes.
    pub open spec fn hire(self, name: Seq<char>) -> Self {
        if self.offers(name) {
            let i = first_named(self.available, name);
            RosterView {
                acquired: self.acquired.push(self.available[i]),
                available: self.available.remove(i),
            }
        } else {
            self
        }
    }

    /// What one accrual adds to the score: the sum over the workers in service.
    pub open spec fn multiplier_sum(self) -> nat {
        total_score_increase(self.acquired)
    }
}

/// Why a worker could not be hired.
#[derive(Clone, Copy, Debug, PartialEq, Eq)]
pub enum HireError {
    /// No worker of that name is on offer.
    NotFound,
}

/// The roster of a run.
#[derive(Debug)]
pub struct WorkerAgent {
    /// The workers in service.
    pub workers: Vec<Worker>,
    /// The workers on offer.
    pub available_workers: Vec<Worker>,
}

impl View for WorkerAgent {
    type V = RosterView;

    open spec fn view(&self) -> RosterView {
        RosterView {
            acquired: views(self.workers@),
            available: views(self.available_workers@),
        }
    }
}

/// Below a place that holds a name there is a first place that holds it.
proof fn lemma_first_named_below(workers: Seq<WorkerView>, name: Seq<char>, i: int)
    requires
        0 <= i < workers.len(),
        workers[i].name == name,
    ensures
        is_first_named(workers, name, first_named(workers, name)),
    decreases i,
{
    if forall|j: int| 0 <= j < i ==> #[trigger] workers[j].name != name {
        assert(is_first_named(workers, name, i));
    } else {
        let j = choose|j: int| 0 <= j < i && #[trigger] workers[j].name == name;
        lemma_first_named_below(workers, name, j);
    }
}

/// A name that occurs has a first place.
pub proof fn lemma_first_named_exists(workers: Seq<WorkerView>, name: Seq<char>)
    requires
        has_name(workers, name),
    ensures
        is_first_named(workers, name, first_named(workers, name)),
{
    let i = choose|i: int| 0 <= i < workers.len() && #[trigger] workers[i].name == name;
    lemma_first_named_below(workers, name, i);
}

/// The first place that holds a name is the only first place.
proof fn lemma_first_named_is(workers: Seq<WorkerView>, name: Seq<char>, i: int)
    requires
        is_first_named(workers, name, i),
    ensures
        has_name(workers, name),
        first_named(workers, name) == i,
{
    // Of two first places neither can lie before the other.
    let k = first_named(workers, name);
    assert(is_first_named(workers, name, k));
    if k < i {
        assert(workers[k].name != name);
    } else if i < k {
        assert(workers[i].name != name);
    }
}

impl WorkerAgent {
    /// The roster at the start of a run: the default worker in service and the
    /// basic worker on offer.
    pub fn new() -> (agent: Self)
        ensures
            agent@ == RosterView::initial(),
            agent@.wf(),
    {
        let mut workers: Vec<Worker> = Vec::new();
        workers.push(Worker::new(DEFAULT_WORKER, 1, 0));
        let mut available_workers: Vec<Worker> = Vec::new();
        available_workers.push(Worker::new(BASIC_WORKER, 2, 100));
        let agent = WorkerAgent { workers, available_workers };
        proof {
            assert(agent@.acquired =~= RosterView::initial().acquired);
            assert(agent@.available =~= RosterView::initial().available);
            lemma_initial_wf();
        }
        agent
    }

    /// Hires the worker on offer under `name`: it leaves the offer and joins those
    /// in service. Without such a worker the roster stays as it is and the error
    /// says so.
    pub fn hire_worker(&mut self, name: &str) -> (hired: Result<(), HireError>)
        ensures
            final(self)@ == old(self)@.hire(name@),
            hired is Ok <==> old(self)@.offers(name@),
            old(self)@.wf() ==> final(self)@.wf(),
    {
        let wanted = name.to_owned();
        let mut i: usize = 0;
        while i < self.available_workers.len()
            invariant
                *self == *old(self),
                wanted@ == name@,
                0 <= i <= self.available_workers.len(),
                forall|j: int| 0 <= j < i ==> #[trigger] self@.available[j].name != name@,
            decreases self.available_workers.len() - i,
        {
            if self.available_workers[i].name == wanted {
                proof {
                    lemma_first_named_is(self@.available, name@, i as int);
                    if self@.wf() {
                        lemma_hire_keeps_wf(self@, name@);
                    }
                }
                let worker = self.available_workers.remove(i);
                self.workers.push(worker);
                proof {
                    assert(self@.acquired =~= old(self)@.acquired.push(
                        old(self)@.available[i as int],
                    ));
                    assert(self@.available =~= old(self)@.available.remove(i as int));
                }
                return Ok(());
            }
            i += 1;
        }
        Err(HireError::NotFound)
    }

    /// What the workers in service add to the score at one accrual.
    pub fn acquired_multiplier_sum(&self) -> (total: u128)
        ensures
            total == self@.multiplier_sum(),
    {
        let mut total: u128 = 0;
        let mut i: usize = 0;
        while i < self.workers.len()
            invariant
                0 <= i <= self.workers.len(),
                total == total_score_increase(self@.acquired.take(i as int)),
                total <= 255 * i,
            decreases self.workers.len() - i,
        {
            proof {
                let next = self@.acquired.take(i + 1);
                assert(next.drop_last() =~= self@.acquired.take(i as int));
            }
            total = total + self.workers[i].score_increase as u128;
            i += 1;
        }
        proof {
            assert(self@.acquired.take(i as int) =~= self@.acquired);
        }
        total
    }
}

/// The starting roster holds no name twice.
pub proof fn lemma_initial_wf()
    ensures
        RosterView::initial().wf(),
{
    reveal_strlit("Default Worker");
    reveal_strlit("Basic Worker");
    // The two names differ in length.
    let everyone = RosterView::initial().everyone();
    assert(everyone[0].name.len() == 14);
    assert(everyone[1].name.len() == 12);
}

/// Hiring moves a worker within the roster, so it brings no name in twice.
pub proof fn lemma_hire_keeps_wf(roster: RosterView, name: Seq<char>)
    requires
        roster.wf(),
    ensures
        roster.hire(name).wf(),
{
    if roster.offers(name) {
        let i = first_named(roster.available, name);
        lemma_first_named_exists(roster.available, name);
        let after = roster.hire(name);
        let before_all = roster.everyone();
        let after_all = after.everyone();
        let n = roster.acquired.len() as int;
        // Where each worker of the new roster stood in the old one.
        let origin = |k: int|
            if k < n {
                k
            } else if k == n {
                n + i
            } else if k <= n + i {
                k - 1
            } else {
                k
            };
        assert forall|a: int, b: int| 0 <= a < b < after_all.len() implies #[trigger] after_all[a].name
            != #[trigger] after_all[b].name by {
            assert(after_all[a] == before_all[origin(a)]);
            assert(after_all[b] == before_all[origin(b)]);
            assert(origin(a) != origin(b));
            if origin(a) < origin(b) {
                assert(before_all[origin(a)].name != before_all[origin(b)].name);
            } else {
                assert(before_all[origin(b)].name != before_all[origin(a)].name);
            }
        }
    }
}

/// Hiring a worker that is on offer moves it, and it alone, from the offer into
/// service: afterwards its name is in service and no longer on offer, and
/// hiring under the same name again changes nothing.
pub proof fn lemma_hire_moves_once(roster: RosterView, name: Seq<char>)
    requires
        roster.wf(),
        roster.offers(name),
    ensures
        has_name(roster.hire(name).acquired, name),
        !roster.hire(name).offers(name),
        roster.hire(name).acquired.len() == roster.acquired.len() + 1,
        roster.hire(name).available.len() + 1 == roster.available.len(),
        roster.hire(name).wf(),
        roster.hire(name).hire(name) == roster.hire(name),
{
    let i = first_named(roster.available, name);
    lemma_first_named_exists(roster.available, name);
    lemma_hire_keeps_wf(roster, name);
    let hired = roster.hire(name);
    let n = roster.acquired.len() as int;
    assert(hired.acquired[n].name == name);
    assert forall|j: int| 0 <= j < hired.available.len() implies #[trigger] hired.available[j].name
        != name by {
        let k = if j < i {
            j
        } else {
            j + 1
        };
        assert(hired.available[j] == roster.everyone()[n + k]);
        assert(roster.everyone()[n + i].name == name);
        if k < i {
            assert(roster.everyone()[n + k].name != roster.everyone()[n + i].name);
        } else {
            assert(roster.everyone()[n + i].name != roster.everyone()[n + k].name);
        }
    }
}

/// Hiring under a name that is not on offer changes nothing.
pub proof fn lemma_hire_unknown_is_noop(roster: RosterView, name: Seq<char>)
    requires
        !roster.offers(name),
    ensures
        roster.hire(name) == roster,
{
}

/// A hired worker adds its share to what one accrual earns.
pub proof fn lemma_hire_raises_multiplier_sum(roster: RosterView, name: Seq<char>)
    requires
        roster.offers(name),
    ensures
        roster.hire(name).multiplier_sum() == roster.multiplier_sum() + roster.available[first_named(
            roster.available,
            name,
        )].score_increase,
{
    let i = first_named(roster.available, name);
    assert(roster.hire(name).acquired.drop_last() =~= roster.acquired);
}

} // verus!
