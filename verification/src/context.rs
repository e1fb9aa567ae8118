//! The typing context: the variables in scope, each with its type.
//!
//! A context is a stack of bindings. Entering the body of an abstraction
//! pushes the parameter's binding and leaving it pops that binding again, so
//! that a binding is visible in its own scope only. Read as a map, a context
//! sends each name to the type of its most recent binding.

use vstd::prelude::*;
use crate::types::Type;

verus! {

/// The map that a stack of bindings stands for: every bound name, with the
/// type of the binding nearest to the top of the stack.
pub open spec fn environment(bindings: Seq<(Seq<char>, Type)>) -> Map<Seq<char>, Type>
    decreases bindings.len(),
{
    if bindings.len() == 0 {
        Map::empty()
    } else {
        environment(bindings.drop_last()).insert(bindings.last().0, bindings.last().1)
    }
}

/// A name whose topmost binding is at `index` is mapped to that binding's type.
pub proof fn lemma_environment_topmost(bindings: Seq<(Seq<char>, Type)>, index: int)
    requires
        0 <= index < bindings.len(),
        forall|j: int| index < j < bindings.len() ==> bindings[j].0 != bindings[index].0,
    ensures
        environment(bindings).contains_key(bindings[index].0),
        environment(bindings)[bindings[index].0] == bindings[index].1,
    decreases bindings.len(),
{
    if index < bindings.len() - 1 {
        lemma_environment_topmost(bindings.drop_last(), index);
    }
}

/// A name that no binding carries is not in the map.
pub proof fn lemma_environment_unbound(bindings: Seq<(Seq<char>, Type)>, name: Seq<char>)
    requires
        forall|j: int| 0 <= j < bindings.len() ==> bindings[j].0 != name,
    ensures
        !environment(bindings).contains_key(name),
    decreases bindings.len(),
{
    if bindings.len() > 0 {
        lemma_environment_unbound(bindings.drop_last(), name);
    }
}

/// A typing context.
#[derive(Debug)]
pub struct Context {
    entries: Vec<(String, Type)>,
}

impl View for Context {
    type V = Map<Seq<char>, Type>;

    /// The context as a map from names to types.
    open spec fn view(&self) -> Map<Seq<char>, Type> {
        environment(self.bindings())
    }
}

impl Context {
    /// The bindings in the order in which they were made, the oldest first.
    pub closed spec fn bindings(&self) -> Seq<(Seq<char>, Type)> {
        self.entries@.map_values(|entry: (String, Type)| (entry.0@, entry.1))
    }

    /// The empty context, which binds no name.
    pub fn new() -> (result: Context)
        ensures
            result.bindings() == Seq::<(Seq<char>, Type)>::empty(),
            result@ == Map::<Seq<char>, Type>::empty(),
    {
        let result = Context { entries: Vec::new() };
        assert(result.bindings() =~= Seq::empty());
        result
    }

    /// Binds `name` to `declared`. An earlier binding of the same name is
    /// shadowed until this one is popped.
    pub fn push(&mut self, name: String, declared: Type)
        ensures
            final(self).bindings() == old(self).bindings().push((name@, declared)),
            final(self)@ == old(self)@.insert(name@, declared),
    {
        self.entries.push((name, declared));
        proof {
            let before = old(self).bindings();
            let after = self.bindings();
            assert(after =~= before.push((name@, declared)));
            assert(after.drop_last() =~= before);
        }
    }

    /// Removes the most recent binding and returns it; `None` when the
    /// context is empty, which then stays so.
    pub fn pop(&mut self) -> (result: Option<(String, Type)>)
        ensures
            match result {
                Some(binding) => {
                    &&& old(self).bindings().len() > 0
                    &&& (binding.0@, binding.1) == old(self).bindings().last()
                    &&& final(self).bindings() == old(self).bindings().drop_last()
                },
                None => {
                    &&& old(self).bindings().len() == 0
                    &&& final(self).bindings() == old(self).bindings()
                },
            },
    {
        let result = self.entries.pop();
        proof {
            if old(self).bindings().len() > 0 {
                assert(self.bindings() =~= old(self).bindings().drop_last());
            }
        }
        result
    }

    /// The type that `name` is bound to, if it is bound.
    pub fn get(&self, name: &String) -> (result: Option<&Type>)
        ensures
            self@.contains_key(name@) ==> result == Some(&self@[name@]),
            !self@.contains_key(name@) ==> result is None,
    {
        let mut i: usize = self.entries.len();
        while i > 0
            invariant
                i <= self.entries.len(),
                forall|j: int| i <= j < self.bindings().len() ==> self.bindings()[j].0 != name@,
            decreases i,
        {
            i -= 1;
            if self.entries[i].0 == *name {
                proof {
                    lemma_environment_topmost(self.bindings(), i as int);
                }
                return Some(&self.entries[i].1);
            }
        }
        proof {
            lemma_environment_unbound(self.bindings(), name@);
        }
        None
    }
}

} // verus!
