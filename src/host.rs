//! The host environment that instantiates the module, and the module's
//! record of the calls it makes into it.
use vstd::prelude::*;

verus! {

/// A host environment: it supplies the function that the module imports.
/// What the import answers is the host's own business.
pub trait Host {
    /// The imported function.
    fn import_function(&mut self, i: isize) -> isize;
}

/// The module, instantiated by a host. It remembers, as ghost state, the
/// argument of every call it has made to the host's import.
pub struct Instance<H: Host> {
    host: H,
    imports: Ghost<Seq<isize>>,
}

impl<H: Host> Instance<H> {
    /// The arguments of every call made so far to the import, oldest first.
    pub closed spec fn imports(&self) -> Seq<isize> {
        self.imports@
    }

    /// The host the module was instantiated by.
    pub closed spec fn spec_host(&self) -> H {
        self.host
    }

    /// The module instantiated by `host`, before any call.
    pub fn new(host: H) -> (m: Self)
        ensures
            m.imports() == Seq::<isize>::empty(),
            m.spec_host() == host,
    {
        Instance { host, imports: Ghost(Seq::empty()) }
    }

    /// The host the module was instantiated by.
    pub fn host(&self) -> (r: &H)
        ensures
            *r == self.spec_host(),
    {
        &self.host
    }

    /// Gives the host back.
    pub fn into_host(self) -> (r: H)
        ensures
            r == self.spec_host(),
    {
        self.host
    }

    /// Calls the host's import with `i` and records the call.
    pub(crate) fn call_import(&mut self, i: isize) -> (r: isize)
        ensures
            final(self).imports() == old(self).imports().push(i),
    {
        let r = self.host.import_function(i);
        self.imports = Ghost(self.imports@.push(i));
        r
    }
}

} // verus!
