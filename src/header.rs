use vstd::prelude::*;

verus! {

/// A build plugin that puts a comment naming each module before its code;
/// `verbose` adds the module's export usage.
#[derive(Clone, Copy, Debug, Default)]
pub struct ModuleInfoHeaderPlugin {
    verbose: bool,
}

impl ModuleInfoHeaderPlugin {
    pub fn new(verbose: bool) -> (r: ModuleInfoHeaderPlugin)
        ensures
            r.is_verbose_spec() == verbose,
    {
        ModuleInfoHeaderPlugin { verbose }
    }

    pub closed spec fn is_verbose_spec(&self) -> bool {
        self.verbose
    }

    pub fn is_verbose(&self) -> (r: bool)
        ensures
            r == self.is_verbose_spec(),
    {
        self.verbose
    }
}

} // verus!
