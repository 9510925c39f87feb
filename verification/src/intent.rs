//! The immutable aggregate of one resolved invocation: the resolved command,
//! its ancestors and children, and the classified flags, params and
//! resources, together with the raw argument list.

use vstd::prelude::*;

verus! {

use crate::command_summary::CommandSummary;
use crate::flag_summary::FlagSummary;
use crate::param_summary::ParamSummary;
use crate::resource_summary::ResourceSummary;
use crate::text::str_eq;

/// Index of the first flag summary with the given name, searching from `i`.
pub open spec fn first_flag_named(flags: Seq<FlagSummary>, name: Seq<char>, i: int) -> Option<int>
    decreases flags.len() - i,
{
    if i < 0 || i >= flags.len() {
        None
    } else if flags[i]@.name == name {
        Some(i)
    } else {
        first_flag_named(flags, name, i + 1)
    }
}

/// Index of the first resource summary with the given name, searching from `i`.
pub open spec fn first_resource_named(
    resources: Seq<ResourceSummary>,
    name: Seq<char>,
    i: int,
) -> Option<int>
    decreases resources.len() - i,
{
    if i < 0 || i >= resources.len() {
        None
    } else if resources[i]@.name == name {
        Some(i)
    } else {
        first_resource_named(resources, name, i + 1)
    }
}

/// What `first_flag_named` returns: the first match, or nothing when no
/// summary carries the name.
pub proof fn lemma_first_flag_named(flags: Seq<FlagSummary>, name: Seq<char>, i: int)
    requires
        0 <= i <= flags.len(),
    ensures
        match first_flag_named(flags, name, i) {
            Some(j) => i <= j < flags.len() && flags[j]@.name == name && forall|k: int|
                i <= k < j ==> flags[k]@.name != name,
            None => forall|k: int| i <= k < flags.len() ==> flags[k]@.name != name,
        },
    decreases flags.len() - i,
{
    if i < flags.len() && flags[i]@.name != name {
        lemma_first_flag_named(flags, name, i + 1);
    }
}

/// Intent structure which represents the user's invocation.
#[derive(Debug, Clone, PartialEq)]
pub struct Intent {
    pub args: Vec<String>,
    pub command: CommandSummary,
    pub supcommands: Vec<CommandSummary>,
    pub subcommands: Vec<CommandSummary>,
    pub flags: Vec<FlagSummary>,
    pub params: Vec<ParamSummary>,
    pub resources: Vec<ResourceSummary>,
}

impl Intent {
    /// Returns a new instance.
    pub fn new(
        args: Vec<String>,
        command: CommandSummary,
        supcommands: Vec<CommandSummary>,
        subcommands: Vec<CommandSummary>,
        flags: Vec<FlagSummary>,
        params: Vec<ParamSummary>,
        resources: Vec<ResourceSummary>,
    ) -> (r: Self)
        ensures
            r.args == args,
            r.command == command,
            r.supcommands == supcommands,
            r.subcommands == subcommands,
            r.flags == flags,
            r.params == params,
            r.resources == resources,
    {
        Self { args, command, supcommands, subcommands, flags, params, resources }
    }

    /// Returns raw command-line arguments.
    pub fn args(&self) -> (r: &Vec<String>)
        ensures
            *r == self.args,
    {
        &self.args
    }

    /// Returns the summary of the executed command.
    pub fn command(&self) -> (r: &CommandSummary)
        ensures
            *r == self.command,
    {
        &self.command
    }

    /// Returns summaries of parent commands, root first.
    pub fn supcommands(&self) -> (r: &Vec<CommandSummary>)
        ensures
            *r == self.supcommands,
    {
        &self.supcommands
    }

    /// Returns summaries of child commands.
    pub fn subcommands(&self) -> (r: &Vec<CommandSummary>)
        ensures
            *r == self.subcommands,
    {
        &self.subcommands
    }

    /// Returns summaries of all declared flags.
    pub fn flags(&self) -> (r: &Vec<FlagSummary>)
        ensures
            *r == self.flags,
    {
        &self.flags
    }

    /// Returns summaries of all declared params, in declaration order.
    pub fn params(&self) -> (r: &Vec<ParamSummary>)
        ensures
            *r == self.params,
    {
        &self.params
    }

    /// Returns the summary of the first flag with the given name.
    pub fn flag(&self, name: &str) -> (r: Option<&FlagSummary>)
        ensures
            match first_flag_named(self.flags@, name@, 0) {
                Some(j) => r matches Some(f) && *f == self.flags@[j],
                None => r is None,
            },
    {
        let mut i: usize = 0;
        while i < self.flags.len()
            invariant
                0 <= i <= self.flags@.len(),
                first_flag_named(self.flags@, name@, 0) == first_flag_named(
                    self.flags@,
                    name@,
                    i as int,
                ),
            decreases self.flags@.len() - i,
        {
            if str_eq(self.flags[i].name.as_str(), name) {
                return Some(&self.flags[i]);
            }
            i += 1;
        }
        None
    }

    /// Returns summaries of all declared resources.
    pub fn resources(&self) -> (r: &Vec<ResourceSummary>)
        ensures
            *r == self.resources,
    {
        &self.resources
    }

    /// Returns the summary of the first resource with the given name.
    pub fn resource(&self, name: &str) -> (r: Option<&ResourceSummary>)
        ensures
            match first_resource_named(self.resources@, name@, 0) {
                Some(j) => r matches Some(s) && *s == self.resources@[j],
                None => r is None,
            },
    {
        let mut i: usize = 0;
        while i < self.resources.len()
            invariant
                0 <= i <= self.resources@.len(),
                first_resource_named(self.resources@, name@, 0) == first_resource_named(
                    self.resources@,
                    name@,
                    i as int,
                ),
            decreases self.resources@.len() - i,
        {
            if str_eq(self.resources[i].name.as_str(), name) {
                return Some(&self.resources[i]);
            }
            i += 1;
        }
        None
    }

    /// Returns true if command-line arguments are present.
    pub fn has_args(&self) -> (r: bool)
        ensures
            r == (self.args@.len() > 0),
    {
        !self.args.is_empty()
    }

    /// Returns true if the given raw argument is present.
    pub fn has_arg(&self, name: &str) -> (r: bool)
        ensures
            r == exists|i: int| 0 <= i < self.args@.len() && #[trigger] self.args@[i]@ == name@,
    {
        let mut i: usize = 0;
        while i < self.args.len()
            invariant
                0 <= i <= self.args@.len(),
                forall|j: int| 0 <= j < i ==> #[trigger] self.args@[j]@ != name@,
            decreases self.args@.len() - i,
        {
            if str_eq(self.args[i].as_str(), name) {
                return true;
            }
            i += 1;
        }
        false
    }

    /// Returns true if the executed command has parent commands.
    pub fn has_supcommands(&self) -> (r: bool)
        ensures
            r == (self.supcommands@.len() > 0),
    {
        !self.supcommands.is_empty()
    }

    /// Returns true if the executed command has child commands.
    pub fn has_subcommands(&self) -> (r: bool)
        ensures
            r == (self.subcommands@.len() > 0),
    {
        !self.subcommands.is_empty()
    }

    /// Returns true if the executed command has flags.
    pub fn has_flags(&self) -> (r: bool)
        ensures
            r == (self.flags@.len() > 0),
    {
        !self.flags.is_empty()
    }

    /// Returns true if a flag with the given name is declared.
    pub fn has_flag(&self, name: &str) -> (r: bool)
        ensures
            r == (first_flag_named(self.flags@, name@, 0) is Some),
    {
        match self.flag(name) {
            Some(_) => true,
            None => false,
        }
    }

    /// Returns true if the named flag was present on the command line.
    pub fn has_provided_flag(&self, name: &str) -> (r: bool)
        ensures
            r == match first_flag_named(self.flags@, name@, 0) {
                Some(j) => self.flags@[j]@.provided,
                None => false,
            },
    {
        match self.flag(name) {
            Some(f) => f.provided(),
            None => false,
        }
    }

    /// Returns true if the executed command has resources.
    pub fn has_resources(&self) -> (r: bool)
        ensures
            r == (self.resources@.len() > 0),
    {
        !self.resources.is_empty()
    }

    /// Returns true if a resource with the given name is declared.
    pub fn has_resource(&self, name: &str) -> (r: bool)
        ensures
            r == (first_resource_named(self.resources@, name@, 0) is Some),
    {
        match self.resource(name) {
            Some(_) => true,
            None => false,
        }
    }
}

} // verus!
