//! A snapshot of the process environment, taken once by the caller.

use crate::text::same_text;
use vstd::prelude::*;

verus! {

/// The value of the first variable of `vars` that is named `name`.
pub open spec fn lookup(vars: Seq<(Seq<char>, Seq<char>)>, name: Seq<char>) -> Option<Seq<char>>
    decreases vars.len(),
{
    if vars.len() == 0 {
        None
    } else if vars[0].0 == name {
        Some(vars[0].1)
    } else {
        lookup(vars.drop_first(), name)
    }
}

/// Environment variables as pairs of name and value. Only variables whose
/// name and value are both valid Unicode can be held.
#[derive(Debug)]
pub struct Environment {
    vars: Vec<(String, String)>,
}

impl View for Environment {
    type V = Seq<(Seq<char>, Seq<char>)>;

    closed spec fn view(&self) -> Seq<(Seq<char>, Seq<char>)> {
        self.vars.deep_view()
    }
}

impl Environment {
    /// The snapshot that holds `vars`, in the order given.
    pub fn from_vars(vars: Vec<(String, String)>) -> (env: Environment)
        ensures
            env@ == vars.deep_view(),
    {
        Environment { vars }
    }

    /// The value of the variable `name`, if the snapshot holds one.
    pub fn get(&self, name: &str) -> (value: Option<String>)
        ensures
            value.deep_view() == lookup(self@, name@),
    {
        let mut i: usize = 0;
        assert(self@.skip(0) =~= self@);
        while i < self.vars.len()
            invariant
                i <= self.vars.len(),
                self@.len() == self.vars.len(),
                lookup(self@, name@) == lookup(self@.skip(i as int), name@),
            decreases self.vars.len() - i,
        {
            let ghost rest = self@.skip(i as int);
            assert(rest.drop_first() =~= self@.skip(i + 1));
            if same_text(self.vars[i].0.as_str(), name) {
                return Some(self.vars[i].1.clone());
            }
            i += 1;
        }
        None
    }
}

} // verus!
