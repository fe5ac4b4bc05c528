pub mod commands;
pub mod error;
pub mod npm;
pub mod package;
pub mod paths;
pub mod registry;
pub mod tree;

use vstd::prelude::*;

verus! {

/// The npm extension itself: its short name and the registries it answers
/// for.
#[derive(Debug)]
pub struct JsExtension {
    name_: String,
    registry_host_names_: Vec<String>,
}

impl JsExtension {
    pub closed spec fn spec_name(&self) -> Seq<char> {
        self.name_@
    }

    pub closed spec fn spec_registries(&self) -> Seq<Seq<char>> {
        self.registry_host_names_.deep_view()
    }

    pub fn new() -> (r: JsExtension)
        ensures
            r.spec_name() == "js"@,
            r.spec_registries() == seq!["npmjs.com"@],
    {
        let mut hosts: Vec<String> = Vec::new();
        hosts.push("npmjs.com".to_owned());
        let r = JsExtension { name_: "js".to_owned(), registry_host_names_: hosts };
        proof {
            assert(r.spec_registries() =~~= seq!["npmjs.com"@]);
        }
        r
    }

    /// The extension's short name.
    pub fn name(&self) -> (r: String)
        ensures
            r@ == self.spec_name(),
    {
        self.name_.clone()
    }

    /// The registry host names this extension answers for.
    pub fn registries(&self) -> (r: Vec<String>)
        ensures
            r.deep_view() == self.spec_registries(),
    {
        let r = self.registry_host_names_.clone();
        proof {
            assert forall|i: int| 0 <= i < r@.len() implies r@[i]
                == self.registry_host_names_@[i] by {
                assert(cloned::<String>(self.registry_host_names_@[i], r@[i]));
            }
            assert(r@ =~= self.registry_host_names_@);
        }
        r
    }
}

} // verus!
