use vstd::prelude::*;

verus! {

/// The name under which this service identifies itself.
pub const SERVICE: &'static str = "srvcs-conevolume";

/// The single concern this service owns.
pub const CONCERN: &'static str = "geometry: volume of a cone";

/// Service identity, as reported by `GET /`.
pub struct Info {
    pub service: &'static str,
    pub concern: &'static str,
    pub depends_on: Vec<&'static str>,
}

/// The services this one calls, in the order it first calls them.
pub open spec fn depends_on_spec() -> Seq<Seq<char>> {
    seq!["srvcs-pi"@, "srvcs-floatmultiply"@, "srvcs-floatdivide"@]
}

/// The identity of this service: its name, its concern and the services it calls.
pub fn index() -> (info: Info)
    ensures
        info.service@ == SERVICE@,
        info.concern@ == CONCERN@,
        info.depends_on@.map_values(|s: &'static str| s@) == depends_on_spec(),
{
    let mut depends_on: Vec<&'static str> = Vec::new();
    depends_on.push("srvcs-pi");
    depends_on.push("srvcs-floatmultiply");
    depends_on.push("srvcs-floatdivide");
    proof {
        assert(depends_on@.map_values(|s: &'static str| s@) =~= depends_on_spec());
    }
    Info { service: SERVICE, concern: CONCERN, depends_on }
}

} // verus!
