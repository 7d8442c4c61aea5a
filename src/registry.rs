use vstd::prelude::*;

verus! {

/// One publication in the table of operations offered to host code.
/// Namespaces are written as full paths, segments joined by `::`.
#[derive(Clone, Copy, Debug)]
pub enum Entry {
    /// A module inside a namespace; the empty namespace is the top level.
    Module { namespace: &'static str, name: &'static str },
    /// A class defined inside a namespace.
    Class { namespace: &'static str, name: &'static str },
    /// An exception class defined inside a namespace, derived from the host's standard error.
    ErrorClass { namespace: &'static str, name: &'static str },
    /// A function called on the class itself; an arity of -1 takes a variable argument list.
    SingletonMethod { class: &'static str, name: &'static str, arity: i32 },
    /// A method called on instances of the class.
    Method { class: &'static str, name: &'static str, arity: i32 },
    /// A function of a module.
    ModuleFunction { module: &'static str, name: &'static str, arity: i32 },
}

/// The ordered method table that a binding publishes.
#[derive(Debug)]
pub struct Registry {
    pub entries: Vec<Entry>,
}

impl Registry {
    pub fn new() -> (r: Registry)
        ensures
            r.entries@ == Seq::<Entry>::empty(),
    {
        Registry { entries: Vec::new() }
    }

    pub fn add(&mut self, e: Entry)
        ensures
            final(self).entries@ == old(self).entries@.push(e),
    {
        self.entries.push(e);
    }

    pub fn len(&self) -> (r: usize)
        ensures
            r == self.entries@.len(),
    {
        self.entries.len()
    }
}

} // verus!
