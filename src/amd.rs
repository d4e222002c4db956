use vstd::prelude::*;
use vstd::string::*;

verus! {

/// Which parts an AMD `define(...)` call has, as a set of flags: a local
/// module that is used (`L`), a dependency array (`A`), an object (`O`),
/// a factory function (`F`).
#[derive(Clone, Copy, Debug, PartialEq, Eq, Structural)]
pub struct Branch {
    pub bits: u8,
}

pub const BRANCH_L: u8 = 1;

pub const BRANCH_A: u8 = 2;

pub const BRANCH_O: u8 = 4;

pub const BRANCH_F: u8 = 8;

pub open spec fn flag(b: bool, bit: u8) -> u8 {
    if b {
        bit
    } else {
        0
    }
}

/// The name of the local module's variable, or the placeholder `XXX`.
pub open spec fn var_name(local_module_var: Option<String>) -> Seq<char> {
    match local_module_var {
        Some(s) => s@,
        None => "XXX"@,
    }
}

/// The variable declarations that precede the rewritten call.
pub open spec fn definition_text(bits: u8, name: Seq<char>) -> Seq<char> {
    if bits == 8 {
        "var __WEBPACK_AMD_DEFINE_RESULT__;"@
    } else if bits == 12 {
        "var __WEBPACK_AMD_DEFINE_FACTORY__, __WEBPACK_AMD_DEFINE_RESULT__;"@
    } else if bits == 10 {
        "var __WEBPACK_AMD_DEFINE_ARRAY__, __WEBPACK_AMD_DEFINE_RESULT__;"@
    } else if bits == 14 {
        "var __WEBPACK_AMD_DEFINE_FACTORY__, __WEBPACK_AMD_DEFINE_ARRAY__, __WEBPACK_AMD_DEFINE_RESULT__;"@
    } else if bits == 9 {
        "var "@ + name + ", "@ + name + "module;"@
    } else if bits == 5 || bits == 7 {
        "var "@ + name + ";"@
    } else if bits == 13 {
        "var "@ + name + ", "@ + name + "factory, "@ + name + "module;"@
    } else if bits == 11 {
        "var __WEBPACK_AMD_DEFINE_ARRAY__, "@ + name + ", "@ + name + "exports;"@
    } else if bits == 15 {
        "var "@ + name + "array, "@ + name + "factory, "@ + name + "exports, "@ + name + ";"@
    } else {
        Seq::empty()
    }
}

/// The runtime globals that the rewritten call uses, as flags.
#[derive(Clone, Copy, Debug, PartialEq, Eq, Structural)]
pub struct RuntimeGlobals {
    pub bits: u8,
}

/// `__webpack_require__`.
pub const RUNTIME_REQUIRE: u8 = 1;

/// `exports`.
pub const RUNTIME_EXPORTS: u8 = 2;

/// `module`.
pub const RUNTIME_MODULE: u8 = 4;

/// The runtime globals each kind of call needs.
pub open spec fn requests_of(bits: u8) -> int {
    if bits == 8 || bits == 12 {
        RUNTIME_REQUIRE + RUNTIME_EXPORTS + RUNTIME_MODULE
    } else if bits == 4 || bits == 6 {
        RUNTIME_MODULE as int
    } else if bits == 10 || bits == 14 {
        RUNTIME_EXPORTS + RUNTIME_MODULE
    } else if bits == 9 || bits == 13 {
        RUNTIME_REQUIRE + RUNTIME_MODULE
    } else {
        0
    }
}

impl Branch {
    /// The runtime globals that the rewritten call needs.
    pub fn get_requests(&self) -> (r: RuntimeGlobals)
        ensures
            r.bits == requests_of(self.bits),
    {
        let b = self.bits;
        let bits = if b == 8 || b == 12 {
            RUNTIME_REQUIRE + RUNTIME_EXPORTS + RUNTIME_MODULE
        } else if b == 4 || b == 6 {
            RUNTIME_MODULE
        } else if b == 10 || b == 14 {
            RUNTIME_EXPORTS + RUNTIME_MODULE
        } else if b == 9 || b == 13 {
            RUNTIME_REQUIRE + RUNTIME_MODULE
        } else {
            0
        };
        RuntimeGlobals { bits }
    }

    pub fn empty() -> (r: Branch)
        ensures
            r.bits == 0,
    {
        Branch { bits: 0 }
    }

    /// The flags of a `define(...)` call from the parts it has.
    pub fn from_parts(local_module_used: bool, array: bool, object: bool, function: bool) -> (r: Branch)
        ensures
            r.bits == flag(local_module_used, BRANCH_L) + flag(array, BRANCH_A) + flag(object, BRANCH_O)
                + flag(function, BRANCH_F),
    {
        let mut bits: u8 = 0;
        if local_module_used {
            bits = bits + BRANCH_L;
        }
        if array {
            bits = bits + BRANCH_A;
        }
        if object {
            bits = bits + BRANCH_O;
        }
        if function {
            bits = bits + BRANCH_F;
        }
        Branch { bits }
    }

    /// The declarations to put before the rewritten call; `XXX` stands in
    /// for a missing variable name.
    pub fn get_definition(&self, local_module_var: &Option<String>) -> (r: String)
        ensures
            r@ == definition_text(self.bits, var_name(*local_module_var)),
    {
        let name: &str = match local_module_var {
            Some(n) => n.as_str(),
            None => "XXX",
        };
        let b = self.bits;
        if b == 8 {
            String::from_str("var __WEBPACK_AMD_DEFINE_RESULT__;")
        } else if b == 12 {
            String::from_str("var __WEBPACK_AMD_DEFINE_FACTORY__, __WEBPACK_AMD_DEFINE_RESULT__;")
        } else if b == 10 {
            String::from_str("var __WEBPACK_AMD_DEFINE_ARRAY__, __WEBPACK_AMD_DEFINE_RESULT__;")
        } else if b == 14 {
            String::from_str(
                "var __WEBPACK_AMD_DEFINE_FACTORY__, __WEBPACK_AMD_DEFINE_ARRAY__, __WEBPACK_AMD_DEFINE_RESULT__;",
            )
        } else if b == 9 {
            let mut s = String::from_str("var ");
            s.append(name);
            s.append(", ");
            s.append(name);
            s.append("module;");
            s
        } else if b == 5 || b == 7 {
            let mut s = String::from_str("var ");
            s.append(name);
            s.append(";");
            s
        } else if b == 13 {
            let mut s = String::from_str("var ");
            s.append(name);
            s.append(", ");
            s.append(name);
            s.append("factory, ");
            s.append(name);
            s.append("module;");
            s
        } else if b == 11 {
            let mut s = String::from_str("var __WEBPACK_AMD_DEFINE_ARRAY__, ");
            s.append(name);
            s.append(", ");
            s.append(name);
            s.append("exports;");
            s
        } else if b == 15 {
            let mut s = String::from_str("var ");
            s.append(name);
            s.append("array, ");
            s.append(name);
            s.append("factory, ");
            s.append(name);
            s.append("exports, ");
            s.append(name);
            s.append(";");
            s
        } else {
            String::new()
        }
    }
}

/// The code generator of AMD `define(...)` calls.
#[derive(Clone, Copy, Debug, Default)]
pub struct AMDDefineDependencyTemplate;

} // verus!
