use vstd::prelude::*;

use crate::json::utf8;

verus! {

/// The float primitives this service composes.
#[derive(Clone, Copy, PartialEq, Eq, Structural, Debug)]
pub enum Dependency {
    Pi,
    FloatMultiply,
    FloatDivide,
}

impl Dependency {
    /// The service name of a dependency.
    pub open spec fn spec_name(self) -> Seq<char> {
        match self {
            Dependency::Pi => "srvcs-pi"@,
            Dependency::FloatMultiply => "srvcs-floatmultiply"@,
            Dependency::FloatDivide => "srvcs-floatdivide"@,
        }
    }

    /// The UTF-8 bytes of the service name.
    pub open spec fn name_bytes(self) -> Seq<u8> {
        match self {
            Dependency::Pi => utf8("srvcs-pi"),
            Dependency::FloatMultiply => utf8("srvcs-floatmultiply"),
            Dependency::FloatDivide => utf8("srvcs-floatdivide"),
        }
    }

    /// The service name of a dependency, as it appears in replies and in `GET /`.
    pub fn name(&self) -> (s: &'static str)
        ensures
            s@ == self.spec_name(),
            utf8(s) == self.name_bytes(),
    {
        match self {
            Dependency::Pi => "srvcs-pi",
            Dependency::FloatMultiply => "srvcs-floatmultiply",
            Dependency::FloatDivide => "srvcs-floatdivide",
        }
    }
}

/// Dependency endpoints: the base URL at which each primitive is reached.
#[derive(Clone)]
pub struct Deps {
    pub pi_url: String,
    pub floatmultiply_url: String,
    pub floatdivide_url: String,
}

impl Deps {
    /// The base URL configured for `dependency`.
    pub open spec fn url_of(&self, dependency: Dependency) -> Seq<char> {
        match dependency {
            Dependency::Pi => self.pi_url@,
            Dependency::FloatMultiply => self.floatmultiply_url@,
            Dependency::FloatDivide => self.floatdivide_url@,
        }
    }

    /// The base URL configured for `dependency`.
    pub fn url(&self, dependency: Dependency) -> (url: String)
        ensures
            url@ == self.url_of(dependency),
    {
        match dependency {
            Dependency::Pi => self.pi_url.clone(),
            Dependency::FloatMultiply => self.floatmultiply_url.clone(),
            Dependency::FloatDivide => self.floatdivide_url.clone(),
        }
    }
}

} // verus!
