//! Declarative description of a positional parameter.

use vstd::prelude::*;

verus! {

/// Param structure which represents a positional command-line argument.
#[derive(Debug, Clone)]
pub struct Param {
    pub name: String,
    pub description: Option<String>,
    pub default_value: Option<String>,
}

/// The mathematical content of a param declaration.
pub ghost struct ParamV {
    pub name: Seq<char>,
    pub description: Option<Seq<char>>,
    pub default_value: Option<Seq<char>>,
}

impl View for Param {
    type V = ParamV;

    open spec fn view(&self) -> ParamV {
        ParamV {
            name: self.name@,
            description: self.description.deep_view(),
            default_value: self.default_value.deep_view(),
        }
    }
}

impl DeepView for Param {
    type V = ParamV;

    open spec fn deep_view(&self) -> ParamV {
        self.view()
    }
}

impl Param {
    /// Returns name.
    pub fn name(&self) -> (r: &String)
        ensures
            r@ == self@.name,
    {
        &self.name
    }

    /// Returns description.
    pub fn description(&self) -> (r: &Option<String>)
        ensures
            r.deep_view() == self@.description,
    {
        &self.description
    }

    /// Returns default value.
    pub fn default_value(&self) -> (r: &Option<String>)
        ensures
            r.deep_view() == self@.default_value,
    {
        &self.default_value
    }
}

impl Param {
    /// Returns a new instance.
    pub fn with_name(name: &str) -> (r: Self)
        ensures
            r@.name == name@,
            r@.description is None,
            r@.default_value is None,
    {
        Self { name: name.to_owned(), description: None, default_value: None }
    }

    /// Sets description.
    pub fn with_description(self, val: &str) -> (r: Self)
        ensures
            r@ == (ParamV { description: Some(val@), ..self@ }),
    {
        Self { description: Some(val.to_owned()), ..self }
    }

    /// Sets default value.
    pub fn with_default_value(self, val: &str) -> (r: Self)
        ensures
            r@ == (ParamV { default_value: Some(val@), ..self@ }),
    {
        Self { default_value: Some(val.to_owned()), ..self }
    }
}

} // verus!
