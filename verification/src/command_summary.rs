//! Read-only snapshot of one command node's metadata.

use vstd::prelude::*;

verus! {

/// Structure with command summary.
#[derive(Debug, Clone, PartialEq)]
pub struct CommandSummary {
    pub name: String,
    pub about: Option<String>,
    pub description: Option<String>,
    pub author: Option<String>,
    pub version: Option<String>,
}

/// The mathematical content of a command summary.
pub ghost struct CommandSummaryV {
    pub name: Seq<char>,
    pub about: Option<Seq<char>>,
    pub description: Option<Seq<char>>,
    pub author: Option<Seq<char>>,
    pub version: Option<Seq<char>>,
}

impl View for CommandSummary {
    type V = CommandSummaryV;

    open spec fn view(&self) -> CommandSummaryV {
        CommandSummaryV {
            name: self.name@,
            about: self.about.deep_view(),
            description: self.description.deep_view(),
            author: self.author.deep_view(),
            version: self.version.deep_view(),
        }
    }
}

impl DeepView for CommandSummary {
    type V = CommandSummaryV;

    open spec fn deep_view(&self) -> CommandSummaryV {
        self.view()
    }
}

impl CommandSummary {
    /// Returns a new instance.
    pub fn with_name(
        name: &str,
        about: Option<String>,
        description: Option<String>,
        author: Option<String>,
        version: Option<String>,
    ) -> (r: Self)
        ensures
            r@.name == name@,
            r@.about == about.deep_view(),
            r@.description == description.deep_view(),
            r@.author == author.deep_view(),
            r@.version == version.deep_view(),
    {
        Self { name: name.to_owned(), about, description, author, version }
    }
}

impl CommandSummary {
    /// Returns name.
    pub fn name(&self) -> (r: &String)
        ensures
            r@ == self@.name,
    {
        &self.name
    }

    /// Returns about.
    pub fn about(&self) -> (r: &Option<String>)
        ensures
            r.deep_view() == self@.about,
    {
        &self.about
    }

    /// Returns description.
    pub fn description(&self) -> (r: &Option<String>)
        ensures
            r.deep_view() == self@.description,
    {
        &self.description
    }

    /// Returns author.
    pub fn author(&self) -> (r: &Option<String>)
        ensures
            r.deep_view() == self@.author,
    {
        &self.author
    }

    /// Returns version.
    pub fn version(&self) -> (r: &Option<String>)
        ensures
            r.deep_view() == self@.version,
    {
        &self.version
    }
}

} // verus!
