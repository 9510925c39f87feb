//! Read-only snapshot of one declared resource, produced per invocation.

use vstd::prelude::*;

verus! {

use crate::resource::ResourceV;

/// Structure which holds a resource summary.
#[derive(Debug, Clone, PartialEq)]
pub struct ResourceSummary {
    pub name: String,
    pub description: Option<String>,
}

impl View for ResourceSummary {
    type V = ResourceV;

    open spec fn view(&self) -> ResourceV {
        ResourceV { name: self.name@, description: self.description.deep_view() }
    }
}

impl DeepView for ResourceSummary {
    type V = ResourceV;

    open spec fn deep_view(&self) -> ResourceV {
        self.view()
    }
}

impl ResourceSummary {
    /// Returns a new instance.
    pub fn with_name(name: &str, description: Option<String>) -> (r: Self)
        ensures
            r@.name == name@,
            r@.description == description.deep_view(),
    {
        Self { name: name.to_owned(), description }
    }
}

impl ResourceSummary {
    /// Returns name.
    pub fn name(&self) -> (r: &String)
        ensures
            r@ == self@.name,
    {
        &self.name
    }

    /// Returns description.
    pub fn description(&self) -> (r: &Option<String>)
        ensures
            r.deep_view() == self@.description,
    {
        &self.description
    }
}

} // verus!
