use vstd::prelude::*;

verus! {

/// The tab after `i` among `n` tabs, wrapping from the last to the first.
pub open spec fn next_index(i: int, n: int) -> int {
    (i + 1) % n
}

/// The tab before `i` among `n` tabs, wrapping from the first to the last.
pub open spec fn previous_index(i: int, n: int) -> int {
    (i + n - 1) % n
}

/// The active index after advancing `k` times from `i` among `n` tabs.
pub open spec fn advance(i: int, n: int, k: nat) -> int
    decreases k,
{
    if k == 0 {
        i
    } else {
        next_index(advance(i, n, (k - 1) as nat), n)
    }
}

proof fn lemma_advance_is_offset(i: int, n: int, k: nat)
    requires
        0 <= i < n,
    ensures
        advance(i, n, k) == (i + k) % n,
    decreases k,
{
    if k == 0 {
        vstd::arithmetic::div_mod::lemma_small_mod(i as nat, n as nat);
    } else {
        lemma_advance_is_offset(i, n, (k - 1) as nat);
        vstd::arithmetic::div_mod::lemma_add_mod_noop_right(1, i + k - 1, n);
    }
}

/// Tab cycling is a cyclic permutation: advancing once per tab comes back to
/// the tab one started from, visiting every tab once on the way, and going
/// back undoes advancing, and the other way round.
pub proof fn lemma_tab_cycle(i: int, n: int)
    requires
        0 <= i < n,
    ensures
        advance(i, n, n as nat) == i,
        forall|j: nat, k: nat|
            j < k < n ==> #[trigger] advance(i, n, j) != #[trigger] advance(i, n, k),
        forall|k: nat| k < n ==> 0 <= #[trigger] advance(i, n, k) < n,
        0 <= next_index(i, n) < n,
        0 <= previous_index(i, n) < n,
        previous_index(next_index(i, n), n) == i,
        next_index(previous_index(i, n), n) == i,
{
    assert forall|j: nat, k: nat| j < k < n implies #[trigger] advance(i, n, j) != #[trigger] advance(
        i,
        n,
        k,
    ) by {
        lemma_advance_is_offset(i, n, j);
        lemma_advance_is_offset(i, n, k);
        vstd::arithmetic::div_mod::lemma_mod_equivalence(i + k, i + j, n);
        vstd::arithmetic::div_mod::lemma_small_mod((k - j) as nat, n as nat);
    }
    assert forall|k: nat| k < n implies 0 <= #[trigger] advance(i, n, k) < n by {
        lemma_advance_is_offset(i, n, k);
        vstd::arithmetic::div_mod::lemma_mod_bound(i + k, n);
    }
    lemma_advance_is_offset(i, n, n as nat);
    vstd::arithmetic::div_mod::lemma_mod_add_multiples_vanish(i, n);
    vstd::arithmetic::div_mod::lemma_small_mod(i as nat, n as nat);
    if i + 1 == n {
        vstd::arithmetic::div_mod::lemma_mod_self_0(n);
        vstd::arithmetic::div_mod::lemma_small_mod((n - 1) as nat, n as nat);
    } else {
        vstd::arithmetic::div_mod::lemma_small_mod((i + 1) as nat, n as nat);
    }
    if i == 0 {
        vstd::arithmetic::div_mod::lemma_small_mod((n - 1) as nat, n as nat);
        vstd::arithmetic::div_mod::lemma_mod_self_0(n);
    } else {
        vstd::arithmetic::div_mod::lemma_mod_add_multiples_vanish(i - 1, n);
        vstd::arithmetic::div_mod::lemma_small_mod((i - 1) as nat, n as nat);
    }
}

/// An ordered, non-empty set of named tabs with one of them active.
///
/// The order of the titles is the order of insertion and the cycling order.
pub struct Tabs {
    titles: Vec<String>,
    selected: usize,
}

impl Tabs {
    /// The titles are non-empty and the active index points at one of them.
    pub open spec fn wf(&self) -> bool {
        0 <= self.active() < self.count() && self.count() == self.titles_spec().len()
    }

    pub closed spec fn titles_spec(&self) -> Seq<String> {
        self.titles@
    }

    pub closed spec fn count(&self) -> int {
        self.titles@.len() as int
    }

    pub closed spec fn active(&self) -> int {
        self.selected as int
    }

    /// Tabs with the given titles, in order, with the first one active.
    pub fn new(titles: Vec<String>) -> (r: Tabs)
        requires
            titles@.len() > 0,
        ensures
            r.wf(),
            r.titles_spec() == titles@,
            r.count() == titles@.len(),
            r.active() == 0,
    {
        Tabs { titles, selected: 0 }
    }

    /// Index of the active tab.
    pub fn selected(&self) -> (r: usize)
        ensures
            r == self.active(),
    {
        self.selected
    }

    /// Number of tabs.
    pub fn len(&self) -> (r: usize)
        ensures
            r == self.count(),
    {
        self.titles.len()
    }

    /// The tab titles, in cycling order.
    pub fn titles(&self) -> (r: &Vec<String>)
        ensures
            r@ == self.titles_spec(),
    {
        &self.titles
    }

    /// Makes the next tab active, wrapping from the last to the first.
    pub fn next(&mut self)
        requires
            old(self).wf(),
        ensures
            final(self).wf(),
            final(self).titles_spec() == old(self).titles_spec(),
            final(self).count() == old(self).count(),
            final(self).active() == next_index(old(self).active(), old(self).count()),
    {
        let n = self.titles.len();
        if self.selected + 1 == n {
            self.selected = 0;
        } else {
            self.selected = self.selected + 1;
        }
        assert(self.selected as int == next_index(old(self).selected as int, n as int)) by {
            if old(self).selected + 1 == n {
                vstd::arithmetic::div_mod::lemma_mod_self_0(n as int);
            } else {
                vstd::arithmetic::div_mod::lemma_small_mod((old(self).selected + 1) as nat, n as nat);
            }
        }
    }

    /// Makes the previous tab active, wrapping from the first to the last.
    pub fn previous(&mut self)
        requires
            old(self).wf(),
        ensures
            final(self).wf(),
            final(self).titles_spec() == old(self).titles_spec(),
            final(self).count() == old(self).count(),
            final(self).active() == previous_index(old(self).active(), old(self).count()),
    {
        let n = self.titles.len();
        if self.selected == 0 {
            self.selected = n - 1;
        } else {
            self.selected = self.selected - 1;
        }
        assert(self.selected as int == previous_index(old(self).selected as int, n as int)) by {
            let i = old(self).selected as int;
            if i == 0 {
                vstd::arithmetic::div_mod::lemma_small_mod((n - 1) as nat, n as nat);
            } else {
                vstd::arithmetic::div_mod::lemma_mod_add_multiples_vanish(i - 1, n as int);
                vstd::arithmetic::div_mod::lemma_small_mod((i - 1) as nat, n as nat);
            }
        }
    }
}

} // verus!
