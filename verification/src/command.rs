//! The command tree node: declarative schema plus the per-command resolver
//! capability, and the entry point that resolves a raw argument list.

use vstd::prelude::*;

verus! {

use crate::command_handler::CommandHandler;
use crate::error::spec_error_wf;
use crate::error::Error;
use crate::error_kind::ErrorKind;
use crate::error_kind::ErrorKindV;
use crate::flag::Flag;
use crate::intent::Intent;
use crate::model::cmd_at;
use crate::model::lemma_positions_ok;
use crate::model::lemma_tree_wf_at;
use crate::model::path_view;
use crate::model::spec_positions;
use crate::model::spec_resolution_error;
use crate::model::split_all;
use crate::model::tree_wf;
use crate::param::Param;
use crate::resolver::Resolver;
use crate::resource::Resource;
use crate::utils::build_command_summary;
use crate::utils::build_flag_summaries;
use crate::utils::build_param_summaries;
use crate::utils::build_resource_summaries;
use crate::utils::build_subcommand_positions;
use crate::utils::build_subcommand_summaries;
use crate::utils::build_supcommand_summaries;
use crate::utils::split_equal_args;
use crate::utils::subcommand_at_position;

/// Command structure which represents one command-line task. Child commands,
/// flags, params and resources are owned exclusively by their parent node.
#[verifier::reject_recursive_types(C)]
pub struct Command<C = crate::context::Context> {
    pub name: String,
    pub about: Option<String>,
    pub description: Option<String>,
    pub author: Option<String>,
    pub version: Option<String>,
    pub flags: Vec<Flag>,
    pub params: Vec<Param>,
    pub resources: Vec<Resource>,
    pub commands: Vec<Command<C>>,
    pub handler: Option<Box<dyn CommandHandler<C>>>,
    pub resolver: Option<Box<dyn Resolver<C>>>,
}

impl<C> Command<C> {
    /// Returns name.
    pub fn name(&self) -> (r: &String)
        ensures
            *r == self.name,
    {
        &self.name
    }

    /// Returns about.
    pub fn about(&self) -> (r: &Option<String>)
        ensures
            *r == self.about,
    {
        &self.about
    }

    /// Returns description.
    pub fn description(&self) -> (r: &Option<String>)
        ensures
            *r == self.description,
    {
        &self.description
    }

    /// Returns author.
    pub fn author(&self) -> (r: &Option<String>)
        ensures
            *r == self.author,
    {
        &self.author
    }

    /// Returns version.
    pub fn version(&self) -> (r: &Option<String>)
        ensures
            *r == self.version,
    {
        &self.version
    }

    /// Returns flags.
    pub fn flags(&self) -> (r: &Vec<Flag>)
        ensures
            *r == self.flags,
    {
        &self.flags
    }

    /// Returns params.
    pub fn params(&self) -> (r: &Vec<Param>)
        ensures
            *r == self.params,
    {
        &self.params
    }

    /// Returns resources.
    pub fn resources(&self) -> (r: &Vec<Resource>)
        ensures
            *r == self.resources,
    {
        &self.resources
    }

    /// Returns child commands.
    pub fn commands(&self) -> (r: &Vec<Command<C>>)
        ensures
            *r == self.commands,
    {
        &self.commands
    }
}

impl<C> Command<C> {
    /// Returns a new instance.
    pub fn with_name(name: &str) -> (r: Self)
        ensures
            r.name@ == name@,
            r.about is None,
            r.description is None,
            r.author is None,
            r.version is None,
            r.flags@ =~= Seq::<Flag>::empty(),
            r.params@ =~= Seq::<Param>::empty(),
            r.resources@ =~= Seq::<Resource>::empty(),
            r.commands@ =~= Seq::<Command<C>>::empty(),
            r.handler is None,
            r.resolver is None,
    {
        Self {
            name: name.to_owned(),
            about: None,
            description: None,
            author: None,
            version: None,
            flags: Vec::new(),
            params: Vec::new(),
            resources: Vec::new(),
            commands: Vec::new(),
            handler: None,
            resolver: None,
        }
    }

    /// Sets about.
    pub fn with_about(self, val: &str) -> (r: Self)
        ensures
            r.about matches Some(a) && a@ == val@,
            r.name == self.name,
            r.description == self.description,
            r.author == self.author,
            r.version == self.version,
            r.flags == self.flags,
            r.params == self.params,
            r.resources == self.resources,
            r.commands == self.commands,
            r.handler == self.handler,
            r.resolver == self.resolver,
    {
        Self { about: Some(val.to_owned()), ..self }
    }

    /// Sets description.
    pub fn with_description(self, val: &str) -> (r: Self)
        ensures
            r.description matches Some(a) && a@ == val@,
            r.name == self.name,
            r.about == self.about,
            r.author == self.author,
            r.version == self.version,
            r.flags == self.flags,
            r.params == self.params,
            r.resources == self.resources,
            r.commands == self.commands,
            r.handler == self.handler,
            r.resolver == self.resolver,
    {
        Self { description: Some(val.to_owned()), ..self }
    }

    /// Sets author.
    pub fn with_author(self, val: &str) -> (r: Self)
        ensures
            r.author matches Some(a) && a@ == val@,
            r.name == self.name,
            r.about == self.about,
            r.description == self.description,
            r.version == self.version,
            r.flags == self.flags,
            r.params == self.params,
            r.resources == self.resources,
            r.commands == self.commands,
            r.handler == self.handler,
            r.resolver == self.resolver,
    {
        Self { author: Some(val.to_owned()), ..self }
    }

    /// Sets version.
    pub fn with_version(self, val: &str) -> (r: Self)
        ensures
            r.version matches Some(a) && a@ == val@,
            r.name == self.name,
            r.about == self.about,
            r.description == self.description,
            r.author == self.author,
            r.flags == self.flags,
            r.params == self.params,
            r.resources == self.resources,
            r.commands == self.commands,
            r.handler == self.handler,
            r.resolver == self.resolver,
    {
        Self { version: Some(val.to_owned()), ..self }
    }

    /// Sets the fallback error handler.
    pub fn with_handler(self, handler: Box<dyn CommandHandler<C>>) -> (r: Self)
        ensures
            r.handler is Some,
            r.name == self.name,
            r.about == self.about,
            r.description == self.description,
            r.author == self.author,
            r.version == self.version,
            r.flags == self.flags,
            r.params == self.params,
            r.resources == self.resources,
            r.commands == self.commands,
            r.resolver == self.resolver,
    {
        Self { handler: Some(handler), ..self }
    }

    /// Sets the resolver.
    pub fn with_resolver(self, resolver: Box<dyn Resolver<C>>) -> (r: Self)
        ensures
            r.resolver is Some,
            r.name == self.name,
            r.about == self.about,
            r.description == self.description,
            r.author == self.author,
            r.version == self.version,
            r.flags == self.flags,
            r.params == self.params,
            r.resources == self.resources,
            r.commands == self.commands,
            r.handler == self.handler,
    {
        Self { resolver: Some(resolver), ..self }
    }

    /// Adds a flag.
    pub fn with_flag(self, flag: Flag) -> (r: Self)
        ensures
            r.flags@ == self.flags@.push(flag),
            r.name == self.name,
            r.about == self.about,
            r.description == self.description,
            r.author == self.author,
            r.version == self.version,
            r.params == self.params,
            r.resources == self.resources,
            r.commands == self.commands,
            r.handler == self.handler,
            r.resolver == self.resolver,
    {
        let mut flags = self.flags;
        flags.push(flag);
        Self { flags, ..self }
    }

    /// Adds a param.
    pub fn with_param(self, param: Param) -> (r: Self)
        ensures
            r.params@ == self.params@.push(param),
            r.name == self.name,
            r.about == self.about,
            r.description == self.description,
            r.author == self.author,
            r.version == self.version,
            r.flags == self.flags,
            r.resources == self.resources,
            r.commands == self.commands,
            r.handler == self.handler,
            r.resolver == self.resolver,
    {
        let mut params = self.params;
        params.push(param);
        Self { params, ..self }
    }

    /// Adds a resource.
    pub fn with_resource(self, resource: Resource) -> (r: Self)
        ensures
            r.resources@ == self.resources@.push(resource),
            r.name == self.name,
            r.about == self.about,
            r.description == self.description,
            r.author == self.author,
            r.version == self.version,
            r.flags == self.flags,
            r.params == self.params,
            r.commands == self.commands,
            r.handler == self.handler,
            r.resolver == self.resolver,
    {
        let mut resources = self.resources;
        resources.push(resource);
        Self { resources, ..self }
    }

    /// Returns true if every node of the tree declares uniquely named
    /// flags, which resolution requires.
    pub fn is_well_formed(&self) -> (r: bool)
        ensures
            r == tree_wf(*self),
        decreases *self,
    {
        let mut i: usize = 0;
        while i < self.flags.len()
            invariant
                0 <= i <= self.flags@.len(),
                forall|x: int, y: int|
                    0 <= x < y < i ==> self.flags@[x]@.name != self.flags@[y]@.name,
            decreases self.flags@.len() - i,
        {
            let mut j: usize = 0;
            while j < i
                invariant
                    0 <= j <= i < self.flags@.len(),
                    forall|x: int| 0 <= x < j ==> self.flags@[x]@.name != self.flags@[i as int]@.name,
                decreases i - j,
            {
                if crate::text::str_eq(
                    self.flags[j].name.as_str(),
                    self.flags[i].name.as_str(),
                ) {
                    return false;
                }
                j += 1;
            }
            i += 1;
        }
        let mut k: usize = 0;
        while k < self.commands.len()
            invariant
                0 <= k <= self.commands@.len(),
                forall|x: int, y: int|
                    0 <= x < y < self.flags@.len() ==> self.flags@[x]@.name
                        != self.flags@[y]@.name,
                forall|x: int| 0 <= x < k ==> tree_wf(#[trigger] self.commands@[x]),
            decreases self.commands@.len() - k,
        {
            if !self.commands[k].is_well_formed() {
                return false;
            }
            k += 1;
        }
        true
    }

    /// Routes a failure through the fallback handler when one is declared;
    /// without one the failure is the result.
    fn dispatch_failure(
        handler: &Option<Box<dyn CommandHandler<C>>>,
        err: Error,
        ctx: &mut C,
    ) -> (r: Result<usize, Error>)
        ensures
            handler is None ==> (r matches Err(e) && e == err),
    {
        match handler {
            Some(h) => h.handle(err, ctx),
            None => Err(err),
        }
    }

    /// Resolves an explicitly supplied token list against this command tree
    /// and dispatches to the resolved command's resolver. Tokens are first
    /// split on `=`; the builder stages run in order and the first failure
    /// aborts resolution; any failure is offered to the root's fallback
    /// handler when one is declared.
    pub fn run_args(self, args: Vec<String>, ctx: &mut C) -> (r: Result<usize, Error>)
        requires
            tree_wf(self),
        ensures
            ({
                let toks = split_all(args.deep_view());
                match spec_resolution_error(self, toks) {
                    Some(k) => self.handler is None ==> (r matches Err(e) && e.kind@ == k
                        && spec_error_wf(e)),
                    None => {
                        let resolved = cmd_at(self, spec_positions(self, toks, 0)->Ok_0, 0);
                        resolved.resolver is None && self.handler is None ==> (r matches Err(e)
                            && e.kind@ == ErrorKindV::MissingCommandResolver(resolved.name@)
                            && spec_error_wf(e))
                    },
                }
            }),
    {
        let ghost toks = split_all(args.deep_view());
        let split = split_equal_args(&args);
        let positions = match build_subcommand_positions(&self, &split) {
            Ok(p) => p,
            Err(e) => {
                return Self::dispatch_failure(&self.handler, e, ctx);
            },
        };
        proof {
            lemma_positions_ok(self, toks, 0);
        }
        let command = subcommand_at_position(&self, &positions);
        proof {
            lemma_tree_wf_at(self, path_view(positions@), 0);
        }
        let command_summary = build_command_summary(command);
        let supcommand_summaries = build_supcommand_summaries(&self, &positions);
        let subcommand_summaries = build_subcommand_summaries(command);
        let flag_summaries = match build_flag_summaries(command, &split) {
            Ok(f) => f,
            Err(e) => {
                return Self::dispatch_failure(&self.handler, e, ctx);
            },
        };
        let param_summaries = match build_param_summaries(&self, &split) {
            Ok(p) => p,
            Err(e) => {
                return Self::dispatch_failure(&self.handler, e, ctx);
            },
        };
        let resource_summaries = build_resource_summaries(command);
        let intent = Intent::new(
            args,
            command_summary,
            supcommand_summaries,
            subcommand_summaries,
            flag_summaries,
            param_summaries,
            resource_summaries,
        );
        let err = match &command.resolver {
            Some(resolver) => match resolver.resolve(&intent, ctx) {
                Ok(code) => {
                    return Ok(code);
                },
                Err(err) => err,
            },
            None => Error::new(ErrorKind::MissingCommandResolver(command.name.clone())),
        };
        match &self.handler {
            Some(handler) => handler.handle(err, ctx),
            None => Err(err),
        }
    }

    /// Adds a subcommand.
    pub fn with_subcommand(self, command: Command<C>) -> (r: Self)
        ensures
            r.commands@ == self.commands@.push(command),
            r.name == self.name,
            r.about == self.about,
            r.description == self.description,
            r.author == self.author,
            r.version == self.version,
            r.flags == self.flags,
            r.params == self.params,
            r.resources == self.resources,
            r.handler == self.handler,
            r.resolver == self.resolver,
    {
        let mut commands = self.commands;
        commands.push(command);
        Self { commands, ..self }
    }
}

} // verus!
