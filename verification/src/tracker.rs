//! The completion tracker: quotas of gathered resources and whether one is met.

use vstd::prelude::*;

verus! {

/// The kinds of resource the robot looks for and picks up.
#[derive(Debug, Clone, Copy, PartialEq, Eq, Structural)]
pub enum Resource {
    Rock,
    Tree,
}

/// A quantity to reach and the quantity reached so far.
#[derive(Debug, Clone, Copy, PartialEq, Eq)]
pub struct Quota {
    /// The resource that counts towards this quota; `None` when any resource does.
    pub category: Option<Resource>,
    /// The quantity to reach.
    pub target: usize,
    /// The quantity reported so far.
    pub accumulated: usize,
}

impl Quota {
    /// Whether a report of `category` counts towards this quota.
    pub open spec fn counts(self, category: Resource) -> bool {
        self.category is None || self.category == Some(category)
    }

    /// Whether the quantity reached so far is at least the target.
    pub open spec fn is_met(self) -> bool {
        self.accumulated >= self.target
    }

    /// This quota after a report of `amount` of `category`.
    ///
    /// The amount is added where the report counts, and the sum stops at
    /// `usize::MAX`; a report that does not count leaves the quota as it is.
    pub open spec fn credited(self, category: Resource, amount: usize) -> Quota {
        if self.counts(category) {
            Quota {
                category: self.category,
                target: self.target,
                accumulated: if self.accumulated + amount > usize::MAX {
                    usize::MAX
                } else {
                    (self.accumulated + amount) as usize
                },
            }
        } else {
            self
        }
    }
}

/// Every quota of `quotas` after a report of `amount` of `category`.
pub open spec fn reported(quotas: Seq<Quota>, category: Resource, amount: usize) -> Seq<Quota> {
    Seq::new(quotas.len(), |i: int| quotas[i].credited(category, amount))
}

/// Whether at least one quota of `quotas` is met.
pub open spec fn any_met(quotas: Seq<Quota>) -> bool {
    exists|i: int| 0 <= i < quotas.len() && (#[trigger] quotas[i]).is_met()
}

/// `quotas` after the reports of `calls`, taken in order.
pub open spec fn reported_all(quotas: Seq<Quota>, calls: Seq<(Resource, usize)>) -> Seq<Quota>
    decreases calls.len(),
{
    if calls.len() == 0 {
        quotas
    } else {
        reported(reported_all(quotas, calls.drop_last()), calls.last().0, calls.last().1)
    }
}

/// The quotas of one robot. Quantities only ever go up: there is no way to
/// take a report back or to remove a quota.
#[derive(Debug)]
pub struct CompletionTracker {
    quotas: Vec<Quota>,
}

impl View for CompletionTracker {
    type V = Seq<Quota>;

    closed spec fn view(&self) -> Seq<Quota> {
        self.quotas@
    }
}

fn same_resource(a: Resource, b: Resource) -> (same: bool)
    ensures
        same == (a == b),
{
    match (a, b) {
        (Resource::Rock, Resource::Rock) | (Resource::Tree, Resource::Tree) => true,
        _ => false,
    }
}

impl CompletionTracker {
    /// A tracker without quotas.
    pub fn new() -> (tracker: CompletionTracker)
        ensures
            tracker@ == Seq::<Quota>::empty(),
    {
        CompletionTracker { quotas: Vec::new() }
    }

    /// Adds a quota of `target` for `category` (for any resource when
    /// `category` is `None`), with nothing reported yet.
    pub fn add_quota(&mut self, category: Option<Resource>, target: usize)
        ensures
            final(self)@ == old(self)@.push((Quota { category, target, accumulated: 0 })),
    {
        self.quotas.push(Quota { category, target, accumulated: 0 });
    }

    /// Reports `amount` of `category`: every quota that the report counts
    /// towards grows by `amount`, the others stay.
    pub fn report(&mut self, category: Resource, amount: usize)
        ensures
            final(self)@ == reported(old(self)@, category, amount),
    {
        let n: usize = self.quotas.len();
        let mut i: usize = 0;
        while i < n
            invariant
                i <= n,
                self.quotas@.len() == n,
                old(self).quotas@.len() == n,
                forall|j: int|
                    0 <= j < i ==> self.quotas@[j] == old(self).quotas@[j].credited(
                        category,
                        amount,
                    ),
                forall|j: int| i <= j < n ==> self.quotas@[j] == old(self).quotas@[j],
            decreases n - i,
        {
            let q: Quota = self.quotas[i];
            let counts: bool = match q.category {
                None => true,
                Some(c) => same_resource(c, category),
            };
            if counts {
                let sum: usize = if amount > usize::MAX - q.accumulated {
                    usize::MAX
                } else {
                    q.accumulated + amount
                };
                self.quotas.set(
                    i,
                    Quota { category: q.category, target: q.target, accumulated: sum },
                );
            }
            i += 1;
        }
        assert(self.quotas@ =~= reported(old(self).quotas@, category, amount));
    }

    /// Whether at least one quota is met.
    pub fn is_any_met(&self) -> (met: bool)
        ensures
            met == any_met(self@),
    {
        let n: usize = self.quotas.len();
        let mut i: usize = 0;
        while i < n
            invariant
                i <= n,
                self.quotas@.len() == n,
                forall|j: int| 0 <= j < i ==> !(#[trigger] self.quotas@[j]).is_met(),
            decreases n - i,
        {
            let q: Quota = self.quotas[i];
            if q.accumulated >= q.target {
                return true;
            }
            i += 1;
        }
        false
    }

    /// The number of quotas.
    pub fn len(&self) -> (n: usize)
        ensures
            n == self@.len(),
    {
        self.quotas.len()
    }

    /// The quota at `index`, or `None` when there are not that many.
    pub fn quota(&self, index: usize) -> (found: Option<Quota>)
        ensures
            index < self@.len() ==> found == Some(self@[index as int]),
            index >= self@.len() ==> found is None,
    {
        if index < self.quotas.len() {
            Some(self.quotas[index])
        } else {
            None
        }
    }
}

/// Reports never lower a quantity: after any run of reports every quota has
/// its category and target as before and at least the quantity it had, so a
/// quota that was met stays met.
pub proof fn lemma_reports_never_lower(quotas: Seq<Quota>, calls: Seq<(Resource, usize)>)
    ensures
        reported_all(quotas, calls).len() == quotas.len(),
        forall|i: int|
            0 <= i < quotas.len() ==> {
                let after = #[trigger] reported_all(quotas, calls)[i];
                &&& after.category == quotas[i].category
                &&& after.target == quotas[i].target
                &&& after.accumulated >= quotas[i].accumulated
                &&& quotas[i].is_met() ==> after.is_met()
            },
        any_met(quotas) ==> any_met(reported_all(quotas, calls)),
    decreases calls.len(),
{
    if calls.len() > 0 {
        lemma_reports_never_lower(quotas, calls.drop_last());
    }
    if any_met(quotas) {
        let i = choose|i: int| 0 <= i < quotas.len() && (#[trigger] quotas[i]).is_met();
        assert(reported_all(quotas, calls)[i].is_met());
    }
}

} // verus!
