//! Read-only snapshot of one declared flag after classification.

use vstd::prelude::*;

verus! {

/// Structure which holds a flag summary.
#[derive(Debug, Clone, PartialEq)]
pub struct FlagSummary {
    pub name: String,
    pub alias: Option<String>,
    pub description: Option<String>,
    pub value: Option<String>,
    pub default_value: Option<String>,
    pub accepts_value: bool,
    pub provided: bool,
}

/// The mathematical content of a flag summary.
pub ghost struct FlagSummaryV {
    pub name: Seq<char>,
    pub alias: Option<Seq<char>>,
    pub description: Option<Seq<char>>,
    pub value: Option<Seq<char>>,
    pub default_value: Option<Seq<char>>,
    pub accepts_value: bool,
    pub provided: bool,
}

impl View for FlagSummary {
    type V = FlagSummaryV;

    open spec fn view(&self) -> FlagSummaryV {
        FlagSummaryV {
            name: self.name@,
            alias: self.alias.deep_view(),
            description: self.description.deep_view(),
            value: self.value.deep_view(),
            default_value: self.default_value.deep_view(),
            accepts_value: self.accepts_value,
            provided: self.provided,
        }
    }
}

impl DeepView for FlagSummary {
    type V = FlagSummaryV;

    open spec fn deep_view(&self) -> FlagSummaryV {
        self.view()
    }
}

impl FlagSummary {
    /// Returns a new instance.
    pub fn with_name(
        name: &str,
        alias: Option<String>,
        description: Option<String>,
        value: Option<String>,
        default_value: Option<String>,
        accepts_value: bool,
        provided: bool,
    ) -> (r: Self)
        ensures
            r@.name == name@,
            r@.alias == alias.deep_view(),
            r@.description == description.deep_view(),
            r@.value == value.deep_view(),
            r@.default_value == default_value.deep_view(),
            r@.accepts_value == accepts_value,
            r@.provided == provided,
    {
        Self { name: name.to_owned(), alias, description, value, default_value, accepts_value, provided }
    }
}

impl FlagSummary {
    /// Returns name.
    pub fn name(&self) -> (r: &String)
        ensures
            r@ == self@.name,
    {
        &self.name
    }

    /// Returns alias.
    pub fn alias(&self) -> (r: &Option<String>)
        ensures
            r.deep_view() == self@.alias,
    {
        &self.alias
    }

    /// Returns description.
    pub fn description(&self) -> (r: &Option<String>)
        ensures
            r.deep_view() == self@.description,
    {
        &self.description
    }

    /// Returns value.
    pub fn value(&self) -> (r: &Option<String>)
        ensures
            r.deep_view() == self@.value,
    {
        &self.value
    }

    /// Returns default value.
    pub fn default_value(&self) -> (r: &Option<String>)
        ensures
            r.deep_view() == self@.default_value,
    {
        &self.default_value
    }

    /// Returns true if the flag accepts a value.
    pub fn accepts_value(&self) -> (r: bool)
        ensures
            r == self@.accepts_value,
    {
        self.accepts_value
    }

    /// Returns true if the flag was present on the command line.
    pub fn provided(&self) -> (r: bool)
        ensures
            r == self@.provided,
    {
        self.provided
    }
}

} // verus!
