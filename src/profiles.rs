//! The set of profiles enabled for the next upload.
use vstd::prelude::*;
use crate::model::Profile;

verus! {

/// The machine names of `profiles`, in order.
pub open spec fn machine_names(profiles: Seq<Profile>) -> Seq<Seq<char>> {
    profiles.map_values(|p: Profile| p.machine_name@)
}

/// `s` with the membership of `name` flipped.
pub open spec fn toggled(s: Set<Seq<char>>, name: Seq<char>) -> Set<Seq<char>> {
    if s.contains(name) {
        s.remove(name)
    } else {
        s.insert(name)
    }
}

/// `s` after toggling each of `names` in turn.
pub open spec fn toggled_all(s: Set<Seq<char>>, names: Seq<Seq<char>>) -> Set<Seq<char>>
    decreases names.len(),
{
    if names.len() == 0 {
        s
    } else {
        toggled(toggled_all(s, names.drop_last()), names.last())
    }
}

/// After any sequence of toggles, a name is enabled exactly when it was
/// enabled at the start or was toggled an odd number of times, but not both.
pub proof fn lemma_toggles_are_parity(start: Set<Seq<char>>, names: Seq<Seq<char>>, x: Seq<char>)
    ensures
        toggled_all(start, names).contains(x) == (start.contains(x) != (names.to_multiset().count(x)
            % 2 == 1)),
    decreases names.len(),
{
    broadcast use vstd::seq_lib::group_to_multiset_ensures;
    broadcast use vstd::multiset::group_multiset_axioms;

    if names.len() == 0 {
        assert(!names.contains(x));
    } else {
        lemma_toggles_are_parity(start, names.drop_last(), x);
        assert(names.drop_last().push(names.last()) =~= names);
    }
}

/// The items joined by commas: `a,b,c`; nothing for no items.
pub open spec fn comma_joined(items: Seq<Seq<char>>) -> Seq<char>
    decreases items.len(),
{
    if items.len() == 0 {
        Seq::empty()
    } else if items.len() == 1 {
        items[0]
    } else {
        comma_joined(items.drop_last()) + ","@ + items.last()
    }
}

/// Enabled profile machine names, each held once, in the order they were
/// enabled.
pub struct ProfileSelection {
    names: Vec<String>,
}

impl View for ProfileSelection {
    type V = Set<Seq<char>>;

    closed spec fn view(&self) -> Set<Seq<char>> {
        self.names().to_set()
    }
}

impl ProfileSelection {
    /// The enabled names in the order that `to_csv` lists them.
    pub closed spec fn names(&self) -> Seq<Seq<char>> {
        self.names@.map_values(|s: String| s@)
    }

    pub closed spec fn wf(&self) -> bool {
        self.names().no_duplicates()
    }

    /// Nothing enabled.
    pub fn new() -> (r: ProfileSelection)
        ensures
            r.wf(),
            r@ == Set::<Seq<char>>::empty(),
    {
        let r = ProfileSelection { names: Vec::new() };
        assert(r.names() =~= Seq::<Seq<char>>::empty());
        r
    }

    /// The index of `name` among the enabled names, if it is enabled.
    fn position(&self, name: &String) -> (r: Option<usize>)
        ensures
            match r {
                Some(i) => i < self.names().len() && self.names()[i as int] == name@,
                None => !self.names().contains(name@),
            },
    {
        let mut i: usize = 0;
        while i < self.names.len()
            invariant
                0 <= i <= self.names@.len(),
                forall|j: int| 0 <= j < i ==> self.names()[j] != name@,
            decreases self.names@.len() - i,
        {
            if self.names[i] == *name {
                return Some(i);
            }
            i = i + 1;
        }
        None
    }

    /// Whether `name` is enabled.
    pub fn contains(&self, name: &String) -> (r: bool)
        ensures
            r == self@.contains(name@),
    {
        self.position(name).is_some()
    }

    /// How many names are enabled.
    pub fn len(&self) -> (r: usize)
        requires
            self.wf(),
        ensures
            r == self@.len(),
    {
        proof {
            self.names().unique_seq_to_set();
        }
        self.names.len()
    }

    /// Every profile of `profiles` enabled, and nothing else.
    pub fn all_of(profiles: &Vec<Profile>) -> (r: ProfileSelection)
        ensures
            r.wf(),
            r@ == machine_names(profiles@).to_set(),
    {
        let mut r = ProfileSelection::new();
        let mut i: usize = 0;
        while i < profiles.len()
            invariant
                0 <= i <= profiles@.len(),
                r.wf(),
                r@ == machine_names(profiles@.take(i as int)).to_set(),
            decreases profiles@.len() - i,
        {
            let name = &profiles[i].machine_name;
            assert(machine_names(profiles@.take(i + 1)) =~= machine_names(profiles@.take(i as int)).push(name@));
            proof {
                machine_names(profiles@.take(i as int)).lemma_push_to_set_commute(name@);
            }
            if !r.contains(name) {
                r.toggle(name);
            }
            i = i + 1;
        }
        assert(profiles@.take(profiles@.len() as int) =~= profiles@);
        r
    }

    /// The enabled names joined by commas, in the order of `names`, which
    /// lists each enabled name once.
    pub fn to_csv(&self) -> (r: String)
        requires
            self.wf(),
        ensures
            r@ == comma_joined(self.names()),
            self.names().no_duplicates(),
            self.names().to_set() == self@,
    {
        let mut r = String::new();
        let mut i: usize = 0;
        while i < self.names.len()
            invariant
                0 <= i <= self.names@.len(),
                r@ == comma_joined(self.names().take(i as int)),
            decreases self.names@.len() - i,
        {
            assert(self.names().take(i + 1).drop_last() =~= self.names().take(i as int));
            if i > 0 {
                r.append(",");
            }
            r.append(self.names[i].as_str());
            proof {
                if i == 0 {
                    assert(Seq::<char>::empty() + self.names()[0] =~= self.names()[0]);
                }
            }
            i = i + 1;
        }
        assert(self.names().take(self.names@.len() as int) =~= self.names());
        r
    }

    /// Enables `name`, or disables it if it was enabled.
    pub fn toggle(&mut self, name: &String)
        requires
            old(self).wf(),
        ensures
            final(self).wf(),
            final(self)@ == toggled(old(self)@, name@),
    {
        match self.position(name) {
            Some(i) => {
                let ghost before = self.names();
                self.names.remove(i);
                assert(self.names() =~= before.remove(i as int));
                assert(self@ =~= old(self)@.remove(name@)) by {
                    assert forall|x: Seq<char>| #[trigger] self@.contains(x)
                        <==> old(self)@.contains(x) && x != name@ by {
                        if old(self)@.contains(x) && x != name@ {
                            let k = choose|k: int| 0 <= k < before.len() && before[k] == x;
                            if k < i {
                                assert(self.names()[k] == x);
                            } else {
                                assert(self.names()[k - 1] == x);
                            }
                        }
                        if self@.contains(x) {
                            let k = choose|k: int| 0 <= k < self.names().len() && self.names()[k] == x;
                            if k < i {
                                assert(before[k] == x);
                            } else {
                                assert(before[k + 1] == x);
                            }
                        }
                    }
                }
            },
            None => {
                let ghost before = self.names();
                self.names.push(name.clone());
                assert(self.names() =~= before.push(name@));
                assert(self@ =~= old(self)@.insert(name@)) by {
                    assert(self.names()[before.len() as int] == name@);
                    assert forall|x: Seq<char>| #[trigger] self@.contains(x)
                        <==> old(self)@.contains(x) || x == name@ by {
                        if old(self)@.contains(x) {
                            let k = choose|k: int| 0 <= k < before.len() && before[k] == x;
                            assert(self.names()[k] == x);
                        }
                        if self@.contains(x) && x != name@ {
                            let k = choose|k: int| 0 <= k < self.names().len() && self.names()[k] == x;
                            assert(before[k] == x);
                        }
                    }
                }
            },
        }
    }
}

} // verus!
