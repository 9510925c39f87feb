//! Declarative description of an external dependency of a command.

use vstd::prelude::*;

verus! {

/// Structure holding external resource data.
#[derive(Debug, Clone)]
pub struct Resource {
    pub name: String,
    pub description: Option<String>,
}

/// The mathematical content of a resource declaration.
pub ghost struct ResourceV {
    pub name: Seq<char>,
    pub description: Option<Seq<char>>,
}

impl View for Resource {
    type V = ResourceV;

    open spec fn view(&self) -> ResourceV {
        ResourceV { name: self.name@, description: self.description.deep_view() }
    }
}

impl DeepView for Resource {
    type V = ResourceV;

    open spec fn deep_view(&self) -> ResourceV {
        self.view()
    }
}

impl Resource {
    /// Returns name.
    pub fn name(&self) -> (r: &String)
        ensures
            r@ == self@.name,
    {
        &self.name
    }

    /// Returns description.
    pub fn description(&self) -> (r: &Option<String>)
        ensures
            r.deep_view() == self@.description,
    {
        &self.description
    }
}

impl Resource {
    /// Returns a new instance.
    pub fn with_name(name: &str) -> (r: Self)
        ensures
            r@.name == name@,
            r@.description is None,
    {
        Self { name: name.to_owned(), description: None }
    }

    /// Sets description.
    pub fn with_description(self, val: &str) -> (r: Self)
        ensures
            r@ == (ResourceV { description: Some(val@), ..self@ }),
    {
        Self { description: Some(val.to_owned()), ..self }
    }
}

} // verus!
