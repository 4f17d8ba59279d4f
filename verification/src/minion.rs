//! The capability-dispatch holder: a `Minion` pairs a task label with a
//! payload implementing the one-method `MinionType` contract, and `run`
//! delegates to that payload. The result depends on the payload alone,
//! never on the task label.

use vstd::prelude::*;

verus! {

/// The capability contract: one operation returning a description string.
/// `description` is the mathematical value of that string; `run_actual`
/// must return exactly it.
pub trait MinionType {
    spec fn description(&self) -> Seq<char>;

    fn run_actual(&self) -> (r: String)
        ensures
            r@ == self.description(),
    ;
}

/// A role-tag whose operation reports "Running harvester".
pub struct Harvester;

impl MinionType for Harvester {
    open spec fn description(&self) -> Seq<char> {
        "Running harvester"@
    }

    fn run_actual(&self) -> (r: String) {
        "Running harvester".to_owned()
    }
}

/// A role-tag whose operation reports "Running builder".
pub struct Builder;

impl MinionType for Builder {
    open spec fn description(&self) -> Seq<char> {
        "Running builder"@
    }

    fn run_actual(&self) -> (r: String) {
        "Running builder".to_owned()
    }
}

/// The holder: a task label together with a payload that satisfies the
/// `MinionType` capability. Both fields are set at construction and never
/// mutated afterwards.
pub struct Minion<Type: MinionType> {
    pub minion_type: Type,
    pub task: String,
}

impl<Type: MinionType> Minion<Type> {
    /// What `run` returns, as a function of the holder: the payload's
    /// description. The task label does not occur here.
    pub open spec fn spec_run(&self) -> Seq<char> {
        self.minion_type.description()
    }

    /// Constructs a holder from a task label and a payload. Construction
    /// cannot fail.
    pub fn new(task: String, minion_type: Type) -> (m: Self)
        ensures
            m.task == task,
            m.minion_type == minion_type,
    {
        Minion { minion_type, task }
    }

    /// Dispatches to the payload's capability operation and returns its
    /// description string. Emitting the task label to an output sink is
    /// the caller's business: this result never depends on the label.
    pub fn run(&self) -> (r: String)
        ensures
            r@ == self.spec_run(),
    {
        self.minion_type.run_actual()
    }
}

/// Two holders with the same payload run to the same result, whatever
/// their task labels: `run` is unaffected by the task.
pub proof fn lemma_run_unaffected_by_task<Type: MinionType>(m1: &Minion<Type>, m2: &Minion<Type>)
    requires
        m1.minion_type == m2.minion_type,
    ensures
        m1.spec_run() == m2.spec_run(),
{
}

/// Running the same holder twice yields identical results: any two strings
/// that `run`'s contract allows for one holder are equal.
pub proof fn lemma_run_deterministic<Type: MinionType>(
    m: &Minion<Type>,
    r1: Seq<char>,
    r2: Seq<char>,
)
    requires
        r1 == m.spec_run(),
        r2 == m.spec_run(),
    ensures
        r1 == r2,
{
}

} // verus!
