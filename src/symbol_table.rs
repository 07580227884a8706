use std::rc::Rc;

use vstd::prelude::*;

use crate::datatypes::Variable;

verus! {

/// The mapping that a sequence of (name, variable) entries stands for; a later entry for a name
/// overrides an earlier one.
pub open spec fn entries_map(s: Seq<(String, Variable)>) -> Map<Seq<char>, Variable>
    decreases s.len(),
{
    if s.len() == 0 {
        Map::empty()
    } else {
        entries_map(s.drop_last()).insert(s.last().0@, s.last().1)
    }
}

/// No two entries share a name.
pub open spec fn unique_names(s: Seq<(String, Variable)>) -> bool {
    forall|i: int, j: int| 0 <= i < s.len() && 0 <= j < s.len() && i != j ==> s[i].0@ != s[j].0@
}

proof fn lemma_absent(s: Seq<(String, Variable)>, k: Seq<char>)
    requires
        forall|i: int| 0 <= i < s.len() ==> s[i].0@ != k,
    ensures
        !entries_map(s).contains_key(k),
    decreases s.len(),
{
    if s.len() > 0 {
        lemma_absent(s.drop_last(), k);
    }
}

proof fn lemma_present(s: Seq<(String, Variable)>, i: int)
    requires
        unique_names(s),
        0 <= i < s.len(),
    ensures
        entries_map(s).contains_key(s[i].0@),
        entries_map(s)[s[i].0@] == s[i].1,
    decreases s.len(),
{
    if i < s.len() - 1 {
        lemma_present(s.drop_last(), i);
    }
}

proof fn lemma_update(s: Seq<(String, Variable)>, i: int, e: (String, Variable))
    requires
        unique_names(s),
        0 <= i < s.len(),
        s[i].0@ == e.0@,
    ensures
        entries_map(s.update(i, e)) == entries_map(s).insert(e.0@, e.1),
    decreases s.len(),
{
    let t = s.update(i, e);
    if i == s.len() - 1 {
        assert(t.drop_last() =~= s.drop_last());
        assert(entries_map(t) =~= entries_map(s).insert(e.0@, e.1));
    } else {
        assert(t.drop_last() =~= s.drop_last().update(i, e));
        lemma_update(s.drop_last(), i, e);
        assert(s.last().0@ != e.0@);
        assert(entries_map(t) =~= entries_map(s).insert(e.0@, e.1));
    }
}

/// The bindings of one lexical block, from name to variable.
pub struct SymbolTable {
    variables: Vec<(String, Variable)>,
}

impl View for SymbolTable {
    type V = Map<Seq<char>, Variable>;

    closed spec fn view(&self) -> Map<Seq<char>, Variable> {
        entries_map(self.variables@)
    }
}

impl SymbolTable {
    pub closed spec fn wf(&self) -> bool {
        unique_names(self.variables@)
    }

    pub fn new() -> (r: SymbolTable)
        ensures
            r.wf(),
            r@ == Map::<Seq<char>, Variable>::empty(),
    {
        SymbolTable { variables: Vec::new() }
    }

    /// An empty table behind a shared pointer.
    pub fn sharable() -> (r: Rc<SymbolTable>)
        ensures
            r.wf(),
            r@ == Map::<Seq<char>, Variable>::empty(),
    {
        Rc::new(SymbolTable::new())
    }

    /// The bindings as (name, variable) entries, each name once.
    pub fn iter(&self) -> (r: &[(String, Variable)])
        requires
            self.wf(),
        ensures
            unique_names(r@),
            entries_map(r@) == self@,
    {
        self.variables.as_slice()
    }

    /// Where the entry for `name` stands, if there is one.
    fn position_of(&self, name: &String) -> (r: Option<usize>)
        ensures
            match r {
                Some(i) => i < self.variables@.len() && self.variables@[i as int].0@ == name@,
                None => forall|i: int|
                    0 <= i < self.variables@.len() ==> self.variables@[i].0@ != name@,
            },
    {
        let mut i: usize = 0;
        while i < self.variables.len()
            invariant
                i <= self.variables@.len(),
                forall|j: int| 0 <= j < i ==> self.variables@[j].0@ != name@,
            decreases self.variables@.len() - i,
        {
            if self.variables[i].0 == *name {
                return Some(i);
            }
            i = i + 1;
        }
        None
    }

    pub fn contains(&self, name: &String) -> (r: bool)
        requires
            self.wf(),
        ensures
            r == self@.contains_key(name@),
    {
        match self.position_of(name) {
            Some(i) => {
                proof {
                    lemma_present(self.variables@, i as int);
                }
                true
            },
            None => {
                proof {
                    lemma_absent(self.variables@, name@);
                }
                false
            },
        }
    }

    pub fn get(&self, name: &String) -> (r: Option<Variable>)
        requires
            self.wf(),
        ensures
            r == (if self@.contains_key(name@) {
                Some(self@[name@])
            } else {
                None
            }),
    {
        match self.position_of(name) {
            Some(i) => {
                proof {
                    lemma_present(self.variables@, i as int);
                }
                Some(self.variables[i].1.duplicate())
            },
            None => {
                proof {
                    lemma_absent(self.variables@, name@);
                }
                None
            },
        }
    }

    /// Binds `name` to `variable`, replacing an earlier binding of the name.
    pub fn insert(&mut self, name: String, variable: Variable)
        requires
            old(self).wf(),
        ensures
            final(self).wf(),
            final(self)@ == old(self)@.insert(name@, variable),
    {
        match self.position_of(&name) {
            Some(i) => {
                proof {
                    lemma_update(self.variables@, i as int, (name, variable));
                }
                self.variables.set(i, (name, variable));
            },
            None => {
                let ghost s = self.variables@;
                self.variables.push((name, variable));
                proof {
                    assert(self.variables@.drop_last() =~= s);
                }
            },
        }
    }
}

} // verus!
