use vstd::prelude::*;

verus! {

/// Whether a registry holding `admitted` grants supervision of `id`.
pub open spec fn admits(admitted: Set<Seq<char>>, id: Seq<char>) -> bool {
    !admitted.contains(id)
}

/// Whether the identifier at `i` is granted supervision by a batch admission
/// over `ids` into a registry holding `admitted`: it was not admitted before,
/// and no earlier entry of the batch names it.
pub open spec fn batch_admits(admitted: Set<Seq<char>>, ids: Seq<Seq<char>>, i: int) -> bool {
    &&& admits(admitted, ids[i])
    &&& forall|j: int| 0 <= j < i ==> ids[j] != ids[i]
}

/// The set of tool identifiers under active supervision. Admission is an
/// atomic check-and-insert: it succeeds for exactly one caller per identifier
/// until that identifier is released.
pub struct InstanceRegistry {
    ids: Vec<String>,
}

impl View for InstanceRegistry {
    type V = Set<Seq<char>>;

    closed spec fn view(&self) -> Set<Seq<char>> {
        Set::new(|x: Seq<char>| exists|i: int| 0 <= i < self.ids.len() && self.ids@[i]@ == x)
    }
}

impl InstanceRegistry {
    /// An empty registry.
    pub fn new() -> (r: InstanceRegistry)
        ensures
            r@ == Set::<Seq<char>>::empty(),
    {
        let r = InstanceRegistry { ids: Vec::new() };
        assert(r@ =~= Set::<Seq<char>>::empty());
        r
    }

    /// Whether `id` is under supervision.
    pub fn is_admitted(&self, id: &str) -> (r: bool)
        ensures
            r == self@.contains(id@),
    {
        let key = String::from_str(id);
        let mut i: usize = 0;
        while i < self.ids.len()
            invariant
                i <= self.ids.len(),
                key@ == id@,
                forall|k: int| 0 <= k < i ==> self.ids@[k]@ != id@,
            decreases self.ids.len() - i,
        {
            if self.ids[i] == key {
                assert(self@.contains(id@));
                return true;
            }
            i = i + 1;
        }
        false
    }

    /// Grants supervision of `id` when it is not yet granted; returns whether
    /// this call granted it.
    pub fn try_admit(&mut self, id: &str) -> (r: bool)
        ensures
            r == admits(old(self)@, id@),
            final(self)@ == old(self)@.insert(id@),
    {
        if self.is_admitted(id) {
            assert(self@ =~= self@.insert(id@));
            false
        } else {
            let ghost before = self.ids@;
            self.ids.push(String::from_str(id));
            assert(self@ =~= old(self)@.insert(id@)) by {
                assert forall|x: Seq<char>| #[trigger] self@.contains(x) implies old(self)@.insert(
                    id@,
                ).contains(x) by {
                    let i = choose|i: int| 0 <= i < self.ids.len() && self.ids@[i]@ == x;
                    if i < before.len() {
                        assert(before[i] == self.ids@[i]);
                    }
                }
                assert forall|x: Seq<char>| #[trigger] old(self)@.insert(id@).contains(x) implies self@.contains(x) by {
                    if x == id@ {
                        assert(self.ids@[before.len() as int]@ == x);
                    } else {
                        let i = choose|i: int| 0 <= i < before.len() && before[i]@ == x;
                        assert(self.ids@[i] == before[i]);
                    }
                }
            }
            true
        }
    }

    fn position(&self, id: &str) -> (r: Option<usize>)
        ensures
            match r {
                Some(k) => k < self.ids.len() && self.ids@[k as int]@ == id@,
                None => !self@.contains(id@),
            },
    {
        let key = String::from_str(id);
        let mut i: usize = 0;
        while i < self.ids.len()
            invariant
                i <= self.ids.len(),
                key@ == id@,
                forall|k: int| 0 <= k < i ==> self.ids@[k]@ != id@,
            decreases self.ids.len() - i,
        {
            if self.ids[i] == key {
                return Some(i);
            }
            i = i + 1;
        }
        None
    }

    /// Withdraws supervision of `id`; returns whether it was granted.
    pub fn release(&mut self, id: &str) -> (r: bool)
        ensures
            r == old(self)@.contains(id@),
            final(self)@ == old(self)@.remove(id@),
    {
        let mut found = false;
        loop
            invariant
                self@.remove(id@) == old(self)@.remove(id@),
                found ==> old(self)@.contains(id@),
                self@.subset_of(old(self)@),
                old(self)@.contains(id@) ==> (found || self@.contains(id@)),
            decreases self.ids.len(),
        {
            match self.position(id) {
                Some(k) => {
                    let ghost before = *self;
                    self.ids.remove(k);
                    assert(before@.contains(id@));
                    assert forall|x: Seq<char>| #[trigger] self@.contains(x) implies before@.contains(x) by {
                        let m = choose|m: int| 0 <= m < self.ids.len() && self.ids@[m]@ == x;
                        if m < k {
                            assert(self.ids@[m] == before.ids@[m]);
                        } else {
                            assert(self.ids@[m] == before.ids@[m + 1]);
                        }
                    }
                    assert(self@.remove(id@) =~= before@.remove(id@)) by {
                        assert forall|x: Seq<char>| #[trigger] before@.contains(x) && x != id@
                            implies self@.contains(x) by {
                            let m = choose|m: int| 0 <= m < before.ids.len() && before.ids@[m]@ == x;
                            if m < k {
                                assert(self.ids@[m] == before.ids@[m]);
                            } else {
                                assert(m != k);
                                assert(self.ids@[m - 1] == before.ids@[m]);
                            }
                        }
                    }
                    found = true;
                },
                None => {
                    assert(self@ =~= self@.remove(id@));
                    return found;
                },
            }
        }
    }

    /// Admits each identifier of `ids` in order; entry `i` of the result says
    /// whether `ids[i]` was granted supervision by this call.
    pub fn admit_batch(&mut self, ids: &Vec<String>) -> (r: Vec<bool>)
        ensures
            r.len() == ids.len(),
            forall|i: int|
                0 <= i < ids.len() ==> r@[i] == batch_admits(
                    old(self)@,
                    ids@.map_values(|s: String| s@),
                    i,
                ),
            final(self)@ == old(self)@ + ids@.map_values(|s: String| s@).to_set(),
    {
        let ghost start = self@;
        let ghost views = ids@.map_values(|s: String| s@);
        let mut r: Vec<bool> = Vec::new();
        let mut i: usize = 0;
        while i < ids.len()
            invariant
                i <= ids.len(),
                r.len() == i,
                views == ids@.map_values(|s: String| s@),
                forall|k: int| 0 <= k < i ==> r@[k] == batch_admits(start, views, k),
                self@ == start + views.subrange(0, i as int).to_set(),
            decreases ids.len() - i,
        {
            let ghost prev = self@;
            let granted = self.try_admit(ids[i].as_str());
            proof {
                let sub = views.subrange(0, i as int);
                let x = views[i as int];
                assert(x == ids@[i as int]@);
                assert(prev.contains(x) <==> (start.contains(x) || sub.contains(x)));
                if sub.contains(x) {
                    let j = choose|j: int| 0 <= j < sub.len() && sub[j] == x;
                    assert(views[j] == x);
                }
                if !(forall|j: int| 0 <= j < i ==> views[j] != x) {
                    let j = choose|j: int| !(0 <= j < i ==> views[j] != x);
                    assert(sub[j] == x);
                }
                assert(views.subrange(0, i + 1).to_set() =~= sub.to_set().insert(x)) by {
                    assert(views.subrange(0, i + 1) =~= sub.push(x));
                    sub.lemma_push_to_set_commute(x);
                }
                assert(self@ =~= start + views.subrange(0, i + 1).to_set());
            }
            r.push(granted);
            i = i + 1;
        }
        assert(views.subrange(0, ids.len() as int) =~= views);
        r
    }
}

/// Admitting one identifier never blocks the admission of another, and an
/// identifier admitted once is refused thereafter, with the registry unchanged
/// by the refusal.
pub proof fn lemma_admission_exclusive(admitted: Set<Seq<char>>, t1: Seq<char>, t2: Seq<char>)
    requires
        t1 != t2,
        !admitted.contains(t1),
        !admitted.contains(t2),
    ensures
        admits(admitted, t1),
        admits(admitted.insert(t1), t2),
        admits(admitted.insert(t2), t1),
        !admits(admitted.insert(t1), t1),
        admitted.insert(t1).insert(t1) == admitted.insert(t1),
        !admits(admitted.insert(t1).insert(t2), t1),
{
    assert(admitted.insert(t1).insert(t1) =~= admitted.insert(t1));
}

} // verus!
