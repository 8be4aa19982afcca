//! The set of sales in which an account holds a position.

use vstd::prelude::*;

verus! {

/// The sales in which an account currently holds a position.
pub struct Buyer {
    supporting_sales: Vec<u32>,
}

impl View for Buyer {
    type V = Set<u32>;

    closed spec fn view(&self) -> Set<u32> {
        Set::new(|id: u32| self.supporting_sales@.contains(id))
    }
}

impl Buyer {
    /// No sale is listed twice.
    pub closed spec fn wf(&self) -> bool {
        self.supporting_sales@.no_duplicates()
    }

    /// A buyer with no position.
    pub fn new() -> (r: Buyer)
        ensures
            r.wf(),
            r@ == Set::<u32>::empty(),
    {
        let r = Buyer { supporting_sales: Vec::new() };
        assert(r@ =~= Set::<u32>::empty());
        r
    }

    /// A buyer with no position left can be dropped from the registry.
    pub fn is_empty(&self) -> (r: bool)
        ensures
            r == (self@ == Set::<u32>::empty()),
    {
        if self.supporting_sales.len() == 0 {
            assert(self@ =~= Set::<u32>::empty());
            true
        } else {
            assert(self@.contains(self.supporting_sales@[0]));
            false
        }
    }

    /// Whether the buyer holds a position in sale `sale_id`.
    pub fn contains(&self, sale_id: u32) -> (r: bool)
        ensures
            r == self@.contains(sale_id),
    {
        let mut i: usize = 0;
        while i < self.supporting_sales.len()
            invariant
                i <= self.supporting_sales@.len(),
                forall|j: int| 0 <= j < i ==> self.supporting_sales@[j] != sale_id,
            decreases self.supporting_sales@.len() - i,
        {
            if self.supporting_sales[i] == sale_id {
                return true;
            }
            i = i + 1;
        }
        false
    }

    /// Registers a position in sale `sale_id`.
    pub fn insert(&mut self, sale_id: u32)
        requires
            old(self).wf(),
        ensures
            final(self).wf(),
            final(self)@ == old(self)@.insert(sale_id),
    {
        if !self.contains(sale_id) {
            let ghost s = self.supporting_sales@;
            self.supporting_sales.push(sale_id);
            proof {
                let t = self.supporting_sales@;
                assert(t[s.len() as int] == sale_id);
                assert forall|x: u32| t.contains(x) <==> (s.contains(x) || x == sale_id) by {
                    if s.contains(x) {
                        let k = choose|k: int| 0 <= k < s.len() && s[k] == x;
                        assert(t[k] == x);
                    }
                    if t.contains(x) && x != sale_id {
                        let k = choose|k: int| 0 <= k < t.len() && t[k] == x;
                        assert(s[k] == x);
                    }
                }
            }
        }
        assert(self@ =~= old(self)@.insert(sale_id));
    }

    /// Drops the position in sale `sale_id`, if any.
    pub fn remove(&mut self, sale_id: u32)
        requires
            old(self).wf(),
        ensures
            final(self).wf(),
            final(self)@ == old(self)@.remove(sale_id),
    {
        let mut i: usize = 0;
        while i < self.supporting_sales.len()
            invariant
                self.supporting_sales@ == old(self).supporting_sales@,
                self.wf(),
                i <= self.supporting_sales@.len(),
                forall|j: int| 0 <= j < i ==> self.supporting_sales@[j] != sale_id,
            decreases self.supporting_sales@.len() - i,
        {
            if self.supporting_sales[i] == sale_id {
                let ghost s = self.supporting_sales@;
                self.supporting_sales.remove(i);
                proof {
                    assert forall|x: u32| self@.contains(x) <==> old(self)@.remove(sale_id).contains(x) by {
                        if s.contains(x) && x != sale_id {
                            let k = choose|k: int| 0 <= k < s.len() && s[k] == x;
                            if k < i {
                                assert(self.supporting_sales@[k] == x);
                            } else {
                                assert(self.supporting_sales@[k - 1] == x);
                            }
                        }
                    }
                    assert(self@ =~= old(self)@.remove(sale_id));
                }
                return;
            }
            i = i + 1;
        }
        assert(self@ =~= old(self)@.remove(sale_id));
    }

    /// The sales of the buyer in the order in which they were joined.
    pub closed spec fn list(&self) -> Seq<u32> {
        self.supporting_sales@
    }

    /// Every listed sale is one of the buyer's sales.
    pub proof fn lemma_list(&self)
        ensures
            forall|i: int| 0 <= i < self.list().len() ==> self@.contains(#[trigger] self.list()[i]),
    {
        assert forall|i: int| 0 <= i < self.list().len() implies self@.contains(#[trigger] self.list()[i]) by {
            assert(self.supporting_sales@.contains(self.supporting_sales@[i]));
        }
    }

    /// The sales in which the buyer holds a position, each once.
    pub fn sales(&self) -> (r: Vec<u32>)
        requires
            self.wf(),
        ensures
            r@ == self.list(),
            r@.no_duplicates(),
            forall|id: u32| r@.contains(id) <==> self@.contains(id),
    {
        self.supporting_sales.clone()
    }
}

} // verus!
