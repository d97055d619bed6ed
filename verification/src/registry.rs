use vstd::prelude::*;

verus! {

/// A table mapping human-readable program names to opaque linked-program
/// handles. Names are unique: a second registration under a name that is
/// already present fails and leaves the table untouched.
pub struct ProgramRegistry {
    programs: Vec<(String, u32)>,
}

impl ProgramRegistry {
    /// The registered (name, handle) pairs, in registration order.
    pub closed spec fn entries(self) -> Seq<(Seq<char>, u32)> {
        self.programs@.map_values(|e: (String, u32)| (e.0@, e.1))
    }

    /// Whether some entry is registered under `name`.
    pub open spec fn contains_name(self, name: Seq<char>) -> bool {
        exists|k: int| 0 <= k < self.entries().len() && (#[trigger] self.entries()[k]).0 == name
    }

    /// No two entries share a name.
    pub open spec fn names_unique(self) -> bool {
        forall|k1: int, k2: int|
            0 <= k1 < k2 < self.entries().len() ==> (#[trigger] self.entries()[k1]).0 != (
            #[trigger] self.entries()[k2]).0
    }

    pub fn new() -> (r: ProgramRegistry)
        ensures
            r.entries() == Seq::<(Seq<char>, u32)>::empty(),
            r.names_unique(),
    {
        ProgramRegistry { programs: Vec::new() }
    }

    /// Registers `handle` under `name`. Fails, without mutating the table,
    /// exactly when the name is already registered.
    pub fn insert(&mut self, name: &String, handle: u32) -> (r: Result<(), &'static str>)
        requires
            old(self).names_unique(),
        ensures
            final(self).names_unique(),
            r is Ok <==> !old(self).contains_name(name@),
            r is Ok ==> final(self).entries() == old(self).entries().push((name@, handle)),
            r is Ok ==> final(self).contains_name(name@),
            r is Err ==> final(self).entries() == old(self).entries(),
    {
        let n = self.programs.len();
        let mut k: usize = 0;
        while k < n
            invariant
                old(self).names_unique(),
                self.entries() == old(self).entries(),
                n == self.programs.len(),
                k <= n,
                forall|j: int| 0 <= j < k ==> (#[trigger] self.entries()[j]).0 != name@,
            decreases n - k,
        {
            if self.programs[k].0 == *name {
                assert((self.entries()[k as int]).0 == name@);
                return Err("A program with that name already exists");
            }
            k += 1;
        }
        let ghost pre = self.entries();
        self.programs.push((name.clone(), handle));
        proof {
            assert(self.entries() =~= pre.push((name@, handle)));
            assert((self.entries()[pre.len() as int]).0 == name@);
        }
        Ok(())
    }

    /// Looks the handle up by exact name; no side effects.
    pub fn lookup(&self, name: &String) -> (r: Option<u32>)
        ensures
            r is Some <==> self.contains_name(name@),
            match r {
                Some(h) => exists|k: int|
                    0 <= k < self.entries().len() && (#[trigger] self.entries()[k]) == (name@, h),
                None => !self.contains_name(name@),
            },
    {
        let n = self.programs.len();
        let mut k: usize = 0;
        while k < n
            invariant
                n == self.programs.len(),
                k <= n,
                forall|j: int| 0 <= j < k ==> (#[trigger] self.entries()[j]).0 != name@,
            decreases n - k,
        {
            if self.programs[k].0 == *name {
                assert(self.entries()[k as int] == (name@, self.programs@[k as int].1));
                return Some(self.programs[k].1);
            }
            k += 1;
        }
        None
    }
}

/// Law: registered names are pairwise distinct — any two distinct entries of a
/// well-formed registry carry different names.
pub proof fn lemma_registry_names_unique(r: ProgramRegistry, k1: int, k2: int)
    requires
        r.names_unique(),
        0 <= k1 < r.entries().len(),
        0 <= k2 < r.entries().len(),
        k1 != k2,
    ensures
        r.entries()[k1].0 != r.entries()[k2].0,
{
}

} // verus!
