use vstd::prelude::*;

verus! {

/// The in-memory registry of usernames.
///
/// Names are held in registration order; well-formedness says no name
/// occurs twice, so the registry is a set presented as a sequence. The
/// server owns one registry behind a lock for the whole process life;
/// every access borrows it exclusively, which keeps the membership check
/// and the insertion of one request in a single critical section.
pub struct Registry {
    users: Vec<String>,
}

impl View for Registry {
    type V = Seq<Seq<char>>;

    closed spec fn view(&self) -> Seq<Seq<char>> {
        self.users@.map_values(|u: String| u@)
    }
}

impl Registry {
    /// Well-formed: no username occurs twice.
    pub open spec fn wf(self) -> bool {
        self@.no_duplicates()
    }

    /// An empty registry, as the server starts with.
    pub fn new() -> (r: Registry)
        ensures
            r@ == Seq::<Seq<char>>::empty(),
            r.wf(),
    {
        let r = Registry { users: Vec::new() };
        proof {
            assert(r@ =~= Seq::<Seq<char>>::empty());
        }
        r
    }

    /// Is this name already registered?
    pub fn contains(&self, name: &String) -> (r: bool)
        ensures
            r == self@.contains(name@),
    {
        let n = self.users.len();
        let mut i: usize = 0;
        while i < n
            invariant
                n == self.users@.len(),
                0 <= i <= n,
                forall|j: int| 0 <= j < i ==> self@[j] != name@,
            decreases n - i,
        {
            if self.users[i] == *name {
                proof {
                    assert(self@[i as int] == name@);
                }
                return true;
            }
            i += 1;
        }
        false
    }

    /// Register a name that is not yet present.
    pub fn insert(&mut self, name: String)
        requires
            old(self).wf(),
            !old(self)@.contains(name@),
        ensures
            final(self).wf(),
            final(self)@ == old(self)@.push(name@),
    {
        self.users.push(name);
        proof {
            assert(self@ =~= old(self)@.push(name@));
            assert forall|i: int, j: int| 0 <= i < j < self@.len() implies self@[i] != self@[j] by {
                if j == self@.len() - 1 {
                    assert(!old(self)@.contains(self@[j]));
                    assert(old(self)@[i] == self@[i]);
                }
            }
        }
    }

    /// How many names are registered.
    pub fn len(&self) -> (r: usize)
        ensures
            r == self@.len(),
    {
        self.users.len()
    }
}

} // verus!
