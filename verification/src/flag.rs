//! Declarative description of a command-line option.

use vstd::prelude::*;

verus! {

/// Flag structure which represents a command-line option.
#[derive(Debug, Clone)]
pub struct Flag {
    pub name: String,
    pub alias: Option<String>,
    pub description: Option<String>,
    pub default_value: Option<String>,
    pub accepts_value: bool,
}

/// The mathematical content of a flag declaration.
pub ghost struct FlagV {
    pub name: Seq<char>,
    pub alias: Option<Seq<char>>,
    pub description: Option<Seq<char>>,
    pub default_value: Option<Seq<char>>,
    pub accepts_value: bool,
}

impl View for Flag {
    type V = FlagV;

    open spec fn view(&self) -> FlagV {
        FlagV {
            name: self.name@,
            alias: self.alias.deep_view(),
            description: self.description.deep_view(),
            default_value: self.default_value.deep_view(),
            accepts_value: self.accepts_value,
        }
    }
}

impl DeepView for Flag {
    type V = FlagV;

    open spec fn deep_view(&self) -> FlagV {
        self.view()
    }
}

impl Flag {
    /// Returns name.
    pub fn name(&self) -> (r: &String)
        ensures
            r@ == self@.name,
    {
        &self.name
    }

    /// Returns alias.
    pub fn alias(&self) -> (r: &Option<String>)
        ensures
            r.deep_view() == self@.alias,
    {
        &self.alias
    }

    /// Returns description.
    pub fn description(&self) -> (r: &Option<String>)
        ensures
            r.deep_view() == self@.description,
    {
        &self.description
    }

    /// Returns default value.
    pub fn default_value(&self) -> (r: &Option<String>)
        ensures
            r.deep_view() == self@.default_value,
    {
        &self.default_value
    }

    /// Returns true if the flag accepts a value.
    pub fn accepts_value(&self) -> (r: bool)
        ensures
            r == self@.accepts_value,
    {
        self.accepts_value
    }
}

impl Flag {
    /// Returns a new instance.
    pub fn with_name(name: &str) -> (r: Self)
        ensures
            r@.name == name@,
            r@.alias is None,
            r@.description is None,
            r@.default_value is None,
            !r@.accepts_value,
    {
        Self {
            name: name.to_owned(),
            alias: None,
            description: None,
            default_value: None,
            accepts_value: false,
        }
    }

    /// Sets alias name.
    pub fn with_alias(self, val: &str) -> (r: Self)
        ensures
            r@ == (FlagV { alias: Some(val@), ..self@ }),
    {
        Self { alias: Some(val.to_owned()), ..self }
    }

    /// Sets description.
    pub fn with_description(self, val: &str) -> (r: Self)
        ensures
            r@ == (FlagV { description: Some(val@), ..self@ }),
    {
        Self { description: Some(val.to_owned()), ..self }
    }

    /// Sets default value.
    pub fn with_default_value(self, val: &str) -> (r: Self)
        ensures
            r@ == (FlagV { default_value: Some(val@), ..self@ }),
    {
        Self { default_value: Some(val.to_owned()), ..self }
    }

    /// Marks the flag as value-accepting.
    pub fn accept_value(self) -> (r: Self)
        ensures
            r@ == (FlagV { accepts_value: true, ..self@ }),
    {
        Self { accepts_value: true, ..self }
    }
}

} // verus!
