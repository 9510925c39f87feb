//! Read-only record of one declared resource, name and description only.

use vstd::prelude::*;

verus! {

use crate::resource::ResourceV;

/// Structure which holds resource data.
#[derive(Debug, Clone)]
pub struct ResourceData {
    pub name: String,
    pub description: Option<String>,
}

impl View for ResourceData {
    type V = ResourceV;

    open spec fn view(&self) -> ResourceV {
        ResourceV { name: self.name@, description: self.description.deep_view() }
    }
}

impl DeepView for ResourceData {
    type V = ResourceV;

    open spec fn deep_view(&self) -> ResourceV {
        self.view()
    }
}

impl ResourceData {
    /// Returns a new instance.
    pub fn with_name(name: &str, description: Option<String>) -> (r: Self)
        ensures
            r@.name == name@,
            r@.description == description.deep_view(),
    {
        Self { name: name.to_owned(), description }
    }
}

impl ResourceData {
    /// Returns name.
    pub fn name(&self) -> (r: &String)
        ensures
            r@ == self@.name,
    {
        &self.name
    }

    /// Returns description.
    pub fn description(&self) -> (r: &Option<String>)
        ensures
            r.deep_view() == self@.description,
    {
        &self.description
    }
}

} // verus!
