//! A worker: a named entry of the catalog that adds to every score accrual while
//! it is in service.

use vstd::prelude::*;

verus! {

/// The mathematical value of a [`Worker`].
pub struct WorkerView {
    pub name: Seq<char>,
    pub score_increase: nat,
    pub cost: nat,
}

/// An entry of the catalog of workers.
#[derive(Debug, Clone)]
pub struct Worker {
    /// The name by which the worker is found.
    pub name: String,
    /// What the worker adds to the score at each accrual.
    pub score_increase: u8,
    /// The price of taking the worker into service.
    pub cost: u32,
}

impl View for Worker {
    type V = WorkerView;

    open spec fn view(&self) -> WorkerView {
        WorkerView {
            name: self.name@,
            score_increase: self.score_increase as nat,
            cost: self.cost as nat,
        }
    }
}

impl Worker {
    /// A worker with the given name, contribution and price.
    pub fn new(name: &str, score_increase: u8, cost: u32) -> (worker: Self)
        ensures
            worker@ == (WorkerView {
                name: name@,
                score_increase: score_increase as nat,
                cost: cost as nat,
            }),
    {
        Worker { name: name.to_owned(), score_increase, cost }
    }
}

} // verus!
