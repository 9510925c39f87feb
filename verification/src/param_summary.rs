//! Read-only snapshot of one declared positional parameter after binding.

use vstd::prelude::*;

verus! {

/// Structure which holds a param summary.
#[derive(Debug, Clone, PartialEq)]
pub struct ParamSummary {
    pub name: String,
    pub description: Option<String>,
    pub value: Option<String>,
    pub default_value: Option<String>,
    pub provided: bool,
}

/// The mathematical content of a param summary.
pub ghost struct ParamSummaryV {
    pub name: Seq<char>,
    pub description: Option<Seq<char>>,
    pub value: Option<Seq<char>>,
    pub default_value: Option<Seq<char>>,
    pub provided: bool,
}

impl View for ParamSummary {
    type V = ParamSummaryV;

    open spec fn view(&self) -> ParamSummaryV {
        ParamSummaryV {
            name: self.name@,
            description: self.description.deep_view(),
            value: self.value.deep_view(),
            default_value: self.default_value.deep_view(),
            provided: self.provided,
        }
    }
}

impl DeepView for ParamSummary {
    type V = ParamSummaryV;

    open spec fn deep_view(&self) -> ParamSummaryV {
        self.view()
    }
}

impl ParamSummary {
    /// Returns a new instance.
    pub fn with_name(
        name: &str,
        description: Option<String>,
        value: Option<String>,
        default_value: Option<String>,
        provided: bool,
    ) -> (r: Self)
        ensures
            r@.name == name@,
            r@.description == description.deep_view(),
            r@.value == value.deep_view(),
            r@.default_value == default_value.deep_view(),
            r@.provided == provided,
    {
        Self { name: name.to_owned(), description, value, default_value, provided }
    }
}

impl ParamSummary {
    /// Returns name.
    pub fn name(&self) -> (r: &String)
        ensures
            r@ == self@.name,
    {
        &self.name
    }

    /// Returns description.
    pub fn description(&self) -> (r: &Option<String>)
        ensures
            r.deep_view() == self@.description,
    {
        &self.description
    }

    /// Returns value.
    pub fn value(&self) -> (r: &Option<String>)
        ensures
            r.deep_view() == self@.value,
    {
        &self.value
    }

    /// Returns the stored value parsed into another type.
    ///
    /// Relies on str::parse, whose outcome depends on the target type's
    /// FromStr implementation; only the absence of a stored value is stated.
    #[verifier::external_body]
    pub fn to_value<T: std::str::FromStr>(&self) -> (r: Option<T>)
        ensures
            self@.value is None ==> r is None,
    {
        match &self.value {
            Some(v) => match v.parse::<T>() {
                Ok(t) => Some(t),
                Err(_) => None,
            },
            None => None,
        }
    }

    /// Returns default value.
    pub fn default_value(&self) -> (r: &Option<String>)
        ensures
            r.deep_view() == self@.default_value,
    {
        &self.default_value
    }

    /// Returns true if the param was bound to a free token.
    pub fn provided(&self) -> (r: bool)
        ensures
            r == self@.provided,
    {
        self.provided
    }
}

} // verus!
