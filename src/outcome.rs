use vstd::prelude::*;

verus! {

/// Which deliverable, if any, a task actually rewrote in a cycle.
#[derive(Clone, Copy, Debug, PartialEq, Eq, Structural)]
pub enum Product {
    Nothing,
    Server,
    Front,
    Style,
}

/// The result of one cancellable unit of work.
#[derive(Clone, Debug)]
pub enum Outcome<T> {
    /// Completed, with a payload.
    Success(T),
    /// Cancelled by an interrupt before completion; not an error.
    Stopped,
    /// Completed, but the work failed.
    Failed,
}

/// The set of deliverables rewritten in a cycle.
#[derive(Clone, Copy, Debug, PartialEq, Eq, Structural)]
pub struct ProductSet {
    pub server: bool,
    pub front: bool,
    pub style: bool,
}

impl ProductSet {
    /// The products held, as a set; `Product::Nothing` is never a member.
    pub open spec fn contents(self) -> Set<Product> {
        Set::new(
            |p: Product|
                (p == Product::Server && self.server) || (p == Product::Front && self.front) || (p
                    == Product::Style && self.style),
        )
    }

    pub fn empty() -> (r: ProductSet)
        ensures
            r.contents() == Set::<Product>::empty(),
    {
        let r = ProductSet { server: false, front: false, style: false };
        assert(r.contents() =~= Set::<Product>::empty());
        r
    }

    /// Adds `p`; adding `Product::Nothing` leaves the set as it is.
    pub fn insert(&mut self, p: Product)
        ensures
            p == Product::Nothing ==> final(self).contents() == old(self).contents(),
            p != Product::Nothing ==> final(self).contents() == old(self).contents().insert(p),
    {
        match p {
            Product::Nothing => {},
            Product::Server => { self.server = true; },
            Product::Front => { self.front = true; },
            Product::Style => { self.style = true; },
        }
        assert(p == Product::Nothing ==> final(self).contents() =~= old(self).contents());
        assert(p != Product::Nothing ==> final(self).contents() =~= old(self).contents().insert(p));
    }

    pub fn contains(&self, p: Product) -> (r: bool)
        ensures
            r == self.contents().contains(p),
    {
        match p {
            Product::Nothing => false,
            Product::Server => self.server,
            Product::Front => self.front,
            Product::Style => self.style,
        }
    }

    pub fn is_empty(&self) -> (r: bool)
        ensures
            r == (self.contents() == Set::<Product>::empty()),
    {
        if self.server {
            assert(self.contents().contains(Product::Server));
        }
        if self.front {
            assert(self.contents().contains(Product::Front));
        }
        if self.style {
            assert(self.contents().contains(Product::Style));
        }
        let r = !self.server && !self.front && !self.style;
        if r {
            assert(self.contents() =~= Set::<Product>::empty());
        }
        r
    }
}

/// Some outcome in `s` was cancelled.
pub open spec fn any_stopped(s: Seq<Outcome<Product>>) -> bool {
    exists|i: int| 0 <= i < s.len() && s[i] is Stopped
}

/// Some outcome in `s` failed.
pub open spec fn any_failed(s: Seq<Outcome<Product>>) -> bool {
    exists|i: int| 0 <= i < s.len() && s[i] is Failed
}

/// The products other than `Product::Nothing` that the outcomes in `s` report.
pub open spec fn reported(s: Seq<Outcome<Product>>) -> Set<Product> {
    Set::new(
        |p: Product|
            p != Product::Nothing && exists|i: int|
                0 <= i < s.len() && s[i] == Outcome::<Product>::Success(p),
    )
}

/// The aggregate of a cycle's task outcomes: cancellation beats failure,
/// failure beats success, and success carries the set of reported products.
pub open spec fn aggregate(s: Seq<Outcome<Product>>) -> Outcome<Set<Product>> {
    if any_stopped(s) {
        Outcome::Stopped
    } else if any_failed(s) {
        Outcome::Failed
    } else {
        Outcome::Success(reported(s))
    }
}

/// The view of an aggregate outcome, with its product set as a set.
pub open spec fn aggregate_view(r: Outcome<ProductSet>) -> Outcome<Set<Product>> {
    match r {
        Outcome::Success(ps) => Outcome::Success(ps.contents()),
        Outcome::Stopped => Outcome::Stopped,
        Outcome::Failed => Outcome::Failed,
    }
}

/// Reduces the outcomes of all tasks of a cycle to one outcome. Every
/// outcome is looked at; none is dropped because another failed.
pub fn reduce(outcomes: &Vec<Outcome<Product>>) -> (r: Outcome<ProductSet>)
    ensures
        aggregate_view(r) == aggregate(outcomes@),
{
    let mut stopped = false;
    let mut failed = false;
    let mut products = ProductSet::empty();
    let mut i: usize = 0;
    while i < outcomes.len()
        invariant
            i <= outcomes.len(),
            stopped == any_stopped(outcomes@.take(i as int)),
            failed == any_failed(outcomes@.take(i as int)),
            products.contents() == reported(outcomes@.take(i as int)),
        decreases outcomes.len() - i,
    {
        let ghost prev = outcomes@.take(i as int);
        let ghost next = outcomes@.take(i + 1);
        assert(next =~= prev.push(outcomes@[i as int]));
        match &outcomes[i] {
            Outcome::Success(p) => {
                products.insert(*p);
            },
            Outcome::Stopped => {
                stopped = true;
            },
            Outcome::Failed => {
                failed = true;
            },
        }
        proof {
            assert(any_stopped(next) == (any_stopped(prev) || next[i as int] is Stopped)) by {
                if any_stopped(next) && !(next[i as int] is Stopped) {
                    let j = choose|j: int| 0 <= j < next.len() && next[j] is Stopped;
                    assert(prev[j] is Stopped);
                }
                if any_stopped(prev) {
                    let j = choose|j: int| 0 <= j < prev.len() && prev[j] is Stopped;
                    assert(next[j] is Stopped);
                }
            }
            assert(any_failed(next) == (any_failed(prev) || next[i as int] is Failed)) by {
                if any_failed(next) && !(next[i as int] is Failed) {
                    let j = choose|j: int| 0 <= j < next.len() && next[j] is Failed;
                    assert(prev[j] is Failed);
                }
                if any_failed(prev) {
                    let j = choose|j: int| 0 <= j < prev.len() && prev[j] is Failed;
                    assert(next[j] is Failed);
                }
            }
            assert forall|p: Product| #[trigger]
                reported(next).contains(p) == products.contents().contains(p) by {
                if reported(next).contains(p) {
                    let j = choose|j: int|
                        0 <= j < next.len() && next[j] == Outcome::<Product>::Success(p);
                    if j < i {
                        assert(prev[j] == Outcome::<Product>::Success(p));
                        assert(reported(prev).contains(p));
                    }
                }
                if reported(prev).contains(p) {
                    let j = choose|j: int|
                        0 <= j < prev.len() && prev[j] == Outcome::<Product>::Success(p);
                    assert(next[j] == Outcome::<Product>::Success(p));
                }
                if p != Product::Nothing && next[i as int] == Outcome::<Product>::Success(p) {
                    assert(reported(next).contains(p));
                }
            }
            assert(reported(next) =~= products.contents());
        }
        i = i + 1;
    }
    assert(outcomes@.take(outcomes.len() as int) =~= outcomes@);
    if stopped {
        Outcome::Stopped
    } else if failed {
        Outcome::Failed
    } else {
        Outcome::Success(products)
    }
}

} // verus!
