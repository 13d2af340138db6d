//! The module instance: what a plugin hands over at setup.

use vstd::prelude::*;

verus! {

/// One entry of the dispatch table: a builtin's name and its handler.
pub struct Binary<H> {
    /// The name under which the host invokes the builtin.
    pub name: String,
    /// The function that runs the builtin.
    pub handler: H,
}

/// Where the host-visible function pointer of a builtin leads.
#[derive(Clone, Copy, Debug, PartialEq, Eq, Structural)]
pub enum Target {
    /// Nowhere yet: the builtin cannot be invoked.
    Unset,
    /// To the dispatch trampoline that all builtins share.
    Trampoline,
}

/// A builtin as it is offered to the host.
#[derive(Debug)]
pub struct Builtin {
    /// The name that the host is told.
    pub name: String,
    /// Where an invocation by the host goes.
    pub target: Target,
}

/// The features that a module offers to the host.
#[derive(Debug)]
pub struct Features {
    /// The builtins, in the order in which they are offered.
    pub binaries: Vec<Builtin>,
}

/// The live state of a plugin. `U` is the plugin's own data, which every
/// handler receives; `H` is the type of its handlers.
pub struct Module<U, H> {
    /// The dispatch table. Where a name occurs more than once, its first
    /// entry is the one that counts.
    pub bintable: Vec<Binary<H>>,
    /// The plugin's own data.
    pub user_data: U,
    /// What the host is told about the module.
    pub features: Features,
}

impl Features {
    /// Every builtin leads to the trampoline.
    pub open spec fn routed(self) -> bool {
        forall|i: int|
            0 <= i < self.binaries@.len() ==> (#[trigger] self.binaries@[i]).target
                == Target::Trampoline
    }

    /// `self` offers the builtins of `before` under the same names, each led
    /// to the trampoline.
    pub open spec fn routes(self, before: Features) -> bool {
        &&& self.binaries@.len() == before.binaries@.len()
        &&& self.routed()
        &&& forall|i: int|
            0 <= i < self.binaries@.len() ==> (#[trigger] self.binaries@[i]).name
                == before.binaries@[i].name
    }

    /// Leads every builtin to the trampoline and leaves its name alone.
    pub fn route_binaries(&mut self)
        ensures
            final(self).routes(*old(self)),
    {
        let n: usize = self.binaries.len();
        let mut i: usize = 0;
        while i < n
            invariant
                0 <= i <= n,
                self.binaries@.len() == n,
                old(self).binaries@.len() == n,
                forall|j: int|
                    0 <= j < n ==> (#[trigger] self.binaries@[j]).name == old(
                        self,
                    ).binaries@[j].name,
                forall|j: int|
                    0 <= j < i ==> (#[trigger] self.binaries@[j]).target == Target::Trampoline,
            decreases n - i,
        {
            self.binaries[i].target = Target::Trampoline;
            i = i + 1;
        }
    }
}

/// Entry `i` of `table` is its first entry under `name`.
pub open spec fn names_at<H>(table: Seq<Binary<H>>, i: int, name: Seq<char>) -> bool {
    &&& 0 <= i < table.len()
    &&& table[i].name@ == name
    &&& forall|j: int| 0 <= j < i ==> (#[trigger] table[j]).name@ != name
}

/// The index of the first entry of `table` under `name`.
pub open spec fn first_named<H>(table: Seq<Binary<H>>, name: Seq<char>) -> Option<int> {
    if exists|i: int| names_at(table, i, name) {
        Some(choose|i: int| names_at(table, i, name))
    } else {
        None
    }
}

/// At most one entry of a table is the first under a name.
pub proof fn lemma_names_at_unique<H>(table: Seq<Binary<H>>, i: int, k: int, name: Seq<char>)
    requires
        names_at(table, i, name),
        names_at(table, k, name),
    ensures
        i == k,
{
    if k < i {
        assert(table[k].name@ != name);
    } else if i < k {
        assert(table[i].name@ != name);
    }
}

impl<U, H> Module<U, H> {
    /// The index of the entry of the dispatch table that answers to `name`.
    pub open spec fn position(self, name: Seq<char>) -> Option<int> {
        first_named(self.bintable@, name)
    }

    /// Looks `name` up in the dispatch table.
    pub fn find(&self, name: &str) -> (found: Option<usize>)
        ensures
            match found {
                Some(i) => self.position(name@) == Some(i as int),
                None => self.position(name@) is None,
            },
    {
        let key = String::from_str(name);
        let mut i: usize = 0;
        while i < self.bintable.len()
            invariant
                0 <= i <= self.bintable@.len(),
                key@ == name@,
                forall|j: int| 0 <= j < i ==> (#[trigger] self.bintable@[j]).name@ != name@,
            decreases self.bintable@.len() - i,
        {
            if self.bintable[i].name == key {
                proof {
                    assert(names_at(self.bintable@, i as int, name@));
                    let k = choose|k: int| names_at(self.bintable@, k, name@);
                    lemma_names_at_unique(self.bintable@, i as int, k, name@);
                }
                return Some(i);
            }
            i = i + 1;
        }
        proof {
            if exists|k: int| names_at(self.bintable@, k, name@) {
                let k = choose|k: int| names_at(self.bintable@, k, name@);
                assert(self.bintable@[k].name@ != name@);
            }
        }
        None
    }
}

} // verus!
