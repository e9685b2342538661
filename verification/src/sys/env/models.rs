//! The process environment as a value: the variables that were set when it was read.

use crate::text::same_text;
use vstd::prelude::*;
use vstd::string::*;

verus! {

/// One environment variable.
#[derive(Debug)]
pub struct EnvVar {
    pub key: String,
    pub value: String,
}

/// The variables of an environment, in the order in which they were read.
/// Where a key stands twice, the first entry counts.
#[derive(Debug)]
pub struct Environment {
    pub vars: Vec<EnvVar>,
}

/// The value of the first of `vars` whose key is `key`.
pub open spec fn lookup(vars: Seq<(Seq<char>, Seq<char>)>, key: Seq<char>) -> Option<Seq<char>>
    decreases vars.len(),
{
    if vars.len() == 0 {
        None
    } else if vars[0].0 == key {
        Some(vars[0].1)
    } else {
        lookup(vars.skip(1), key)
    }
}

/// The characters of an optional string.
pub open spec fn opt_view(s: Option<String>) -> Option<Seq<char>> {
    match s {
        Some(text) => Some(text@),
        None => None,
    }
}

impl View for Environment {
    type V = Seq<(Seq<char>, Seq<char>)>;

    open spec fn view(&self) -> Seq<(Seq<char>, Seq<char>)> {
        Seq::new(self.vars@.len(), |i: int| (self.vars@[i].key@, self.vars@[i].value@))
    }
}

impl Environment {
    /// An environment in which no variable is set.
    pub fn new() -> (env: Environment)
        ensures
            env@ == Seq::<(Seq<char>, Seq<char>)>::empty(),
    {
        Environment { vars: Vec::new() }
    }

    /// Adds a variable behind those that are there: it counts only if its key is new.
    pub fn push(&mut self, key: &str, value: &str)
        ensures
            final(self)@ == old(self)@.push((key@, value@)),
    {
        self.vars.push(EnvVar { key: String::from_str(key), value: String::from_str(value) });
    }

    /// The value of the variable `key`, if it is set.
    pub fn get(&self, key: &str) -> (value: Option<String>)
        ensures
            opt_view(value) == lookup(self@, key@),
    {
        let mut i: usize = 0;
        assert(self@.skip(0) =~= self@);
        while i < self.vars.len()
            invariant
                i <= self.vars.len(),
                lookup(self@, key@) == lookup(self@.skip(i as int), key@),
            decreases self.vars.len() - i,
        {
            if same_text(self.vars[i].key.as_str(), key) {
                return Some(self.vars[i].value.clone());
            }
            assert(self@.skip(i as int).skip(1) =~= self@.skip(i + 1));
            i += 1;
        }
        None
    }
}

} // verus!
