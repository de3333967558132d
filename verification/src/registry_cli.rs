//! Command-line parsing and help for an invoke registry: the registry names
//! each command, its description and its arguments; the parser turns a
//! command line into the registered command id and its textual inputs.

use vstd::prelude::*;
use crate::inputs::InvokeInputs;
use vstd::string::StrSliceExecFns;
use crate::clap_model::{
    clap_command, clap_command_view, clap_help_text, clap_matches_view, clap_matched_subcommand, clap_matched_switch, clap_matched_value,
    clap_parse, clap_render_help, clap_try_matches, clap_with_option, clap_with_settings, clap_with_subcommand,
    clap_with_switch, clap_args_well_formed, clap_command_well_formed, global_args, has_subcommand,
    string_views, ClapArgView, ClapCommandView, ClapFailure, ClapMatchesView,
};
use crate::text::{contains_seq, has_prefix, owned, text_eq};

verus! {

/// One `--flag VALUE` argument of a registered command.
#[derive(Clone, Copy, Debug, PartialEq, Eq)]
pub struct ArgSpec {
    pub flag: &'static str,
    pub value_name: &'static str,
    pub required: bool,
    pub help: &'static str,
}

/// One registered command: its id, what it does, and its arguments.
#[derive(Clone, Debug, PartialEq, Eq)]
pub struct RegisteredCommand {
    pub id: &'static str,
    pub description: &'static str,
    pub args: Vec<ArgSpec>,
}

/// The commands an invoke frontend offers, in the order it lists them.
#[derive(Clone, Debug, PartialEq, Eq)]
pub struct InvokeRegistry {
    pub commands: Vec<RegisteredCommand>,
}

/// The argument name of a flag: the flag without its leading `--`.
pub open spec fn argument_name_spec(flag: Seq<char>) -> Seq<char> {
    flag.subrange(2, flag.len() as int)
}

/// A flag is a long option with a non-empty name.
pub open spec fn is_long_flag(flag: Seq<char>) -> bool {
    has_prefix(flag, "--"@) && flag.len() > 2
}

/// An argument's flag is a long option whose name clap can take: not
/// starting with `-`, and none of `help` (clap's own help flag), `dry-run`
/// and `dry_run` (the global dry-run switch).
pub open spec fn flag_is_usable(flag: Seq<char>) -> bool {
    &&& is_long_flag(flag)
    &&& !has_prefix(argument_name_spec(flag), "-"@)
    &&& argument_name_spec(flag) != "help"@
    &&& argument_name_spec(flag) != "dry-run"@
    &&& argument_name_spec(flag) != "dry_run"@
}

/// A registry clap can turn into a command: usable flags, argument names
/// distinct within each command, and command ids distinct.
pub open spec fn registry_is_well_formed(registry: InvokeRegistry) -> bool {
    &&& forall|c: int, a: int|
        0 <= c < registry.commands@.len() && 0 <= a < registry.commands@[c].args@.len() ==> flag_is_usable(
            #[trigger] registry.commands@[c].args@[a].flag@,
        )
    &&& forall|c: int, a: int, b: int|
        0 <= c < registry.commands@.len() && 0 <= a < b < registry.commands@[c].args@.len() ==> argument_name_spec(
            #[trigger] registry.commands@[c].args@[a].flag@,
        ) != argument_name_spec(#[trigger] registry.commands@[c].args@[b].flag@)
    &&& forall|c: int, d: int|
        0 <= c < d < registry.commands@.len() ==> (#[trigger] registry.commands@[c]).id@ != (
        #[trigger] registry.commands@[d]).id@
}

/// The first registered command with this id.
pub open spec fn resolve_spec(commands: Seq<RegisteredCommand>, id: Seq<char>) -> Option<RegisteredCommand>
    decreases commands.len(),
{
    if commands.len() == 0 {
        None
    } else if commands[0].id@ == id {
        Some(commands[0])
    } else {
        resolve_spec(commands.drop_first(), id)
    }
}

impl InvokeRegistry {
    /// The registered command with this id.
    pub fn resolve(&self, id: &str) -> (r: Option<&RegisteredCommand>)
        ensures
            match resolve_spec(self.commands@, id@) {
                Some(c) => r == Some(&c),
                None => r is None,
            },
    {
        let mut i: usize = 0;
        assert(self.commands@.subrange(0, self.commands@.len() as int) =~= self.commands@);
        while i < self.commands.len()
            invariant
                i <= self.commands@.len(),
                resolve_spec(self.commands@, id@) == resolve_spec(
                    self.commands@.subrange(i as int, self.commands@.len() as int),
                    id@,
                ),
            decreases self.commands@.len() - i,
        {
            let ghost rest = self.commands@.subrange(i as int, self.commands@.len() as int);
            assert(rest.drop_first() =~= self.commands@.subrange(i + 1, self.commands@.len() as int));
            if text_eq(self.commands[i].id, id) {
                return Some(&self.commands[i]);
            }
            i = i + 1;
        }
        None
    }
}

/// The argument name of a long flag.
pub fn argument_name(flag: &'static str) -> (name: &'static str)
    requires
        is_long_flag(flag@),
    ensures
        name@ == argument_name_spec(flag@),
{
    flag.substring_char(2, flag.unicode_len())
}

/// The command `resolve_spec` finds is one of the registered commands.
proof fn lemma_resolved_is_registered(commands: Seq<RegisteredCommand>, id: Seq<char>)
    ensures
        resolve_spec(commands, id) matches Some(c) ==> exists|k: int| 0 <= k < commands.len() && commands[k] == c,
    decreases commands.len(),
{
    if commands.len() > 0 && commands[0].id@ != id {
        lemma_resolved_is_registered(commands.drop_first(), id);
        if resolve_spec(commands, id) is Some {
            let k = choose|k: int| 0 <= k < commands.drop_first().len() && commands.drop_first()[k] == resolve_spec(commands, id)->0;
            assert(commands[k + 1] == resolve_spec(commands, id)->0);
        }
    }
}

/// A command id that `resolve_spec` does not find is the id of no
/// registered command.
proof fn lemma_unresolved_is_unregistered(commands: Seq<RegisteredCommand>, id: Seq<char>)
    requires
        resolve_spec(commands, id) is None,
    ensures
        forall|k: int| 0 <= k < commands.len() ==> (#[trigger] commands[k]).id@ != id,
    decreases commands.len(),
{
    if commands.len() > 0 {
        lemma_unresolved_is_unregistered(commands.drop_first(), id);
        assert forall|k: int| 0 <= k < commands.len() implies (#[trigger] commands[k]).id@ != id by {
            if k > 0 {
                assert(commands[k] == commands.drop_first()[k - 1]);
            }
        }
    }
}

/// The command `resolve_spec` finds carries the id it was asked for.
proof fn lemma_resolved_has_id(commands: Seq<RegisteredCommand>, id: Seq<char>)
    ensures
        resolve_spec(commands, id) matches Some(c) ==> c.id@ == id,
    decreases commands.len(),
{
    if commands.len() > 0 && commands[0].id@ != id {
        lemma_resolved_has_id(commands.drop_first(), id);
    }
}

/// A parsed registry-backed invoke request.
pub struct RegistryInvokeRequest {
    pub command_id: String,
    pub inputs: InvokeInputs,
    pub dry_run: bool,
}

/// The outcome of parsing one registry-backed invoke command line.
pub enum InvokeCliAction {
    Help(String),
    Invoke(RegistryInvokeRequest),
}

/// An invoke action by its text views.
pub enum InvokeActionView {
    Help(Seq<char>),
    Invoke { command_id: Seq<char>, inputs: Map<Seq<char>, Seq<char>>, dry_run: bool },
}

/// A parse result by its views.
pub open spec fn action_view(r: Result<InvokeCliAction, String>) -> Result<InvokeActionView, Seq<char>> {
    match r {
        Ok(InvokeCliAction::Help(help)) => Ok(InvokeActionView::Help(help@)),
        Ok(InvokeCliAction::Invoke(request)) => Ok(
            InvokeActionView::Invoke {
                command_id: request.command_id@,
                inputs: request.inputs@,
                dry_run: request.dry_run,
            },
        ),
        Err(error) => Err(error@),
    }
}

/// The text views of optional strings.
pub open spec fn option_views(values: Seq<Option<String>>) -> Seq<Option<Seq<char>>> {
    values.map_values(
        |v: Option<String>|
            match v {
                Some(s) => Some(s@),
                None => None,
            },
    )
}

/// The inputs of a matched command: each declared argument that was given
/// a value, by its argument name (`values` holds what was given for each
/// argument, in declaration order).
pub open spec fn matched_inputs(args: Seq<ArgSpec>, values: Seq<Option<Seq<char>>>) -> Map<Seq<char>, Seq<char>>
    decreases args.len(),
{
    if args.len() == 0 {
        Map::empty()
    } else {
        let before = matched_inputs(args.drop_last(), values.drop_last());
        match values.last() {
            Some(v) => before.insert(argument_name_spec(args.last().flag@), v),
            None => before,
        }
    }
}

/// What a command's matches give for each of its declared arguments, in
/// declaration order.
pub open spec fn given_values(args: Seq<ArgSpec>, given: Map<Seq<char>, Seq<char>>) -> Seq<Option<Seq<char>>> {
    args.map_values(
        |spec: ArgSpec|
            if given.contains_key(argument_name_spec(spec.flag@)) {
                Some(given[argument_name_spec(spec.flag@)])
            } else {
                None
            },
    )
}

pub open spec fn help_failure_text(command_id: Seq<char>) -> Seq<char> {
    "failed to render help for command "@ + command_id
}

/// The clap option of one registered argument: named after its flag,
/// taking one value that may start with a hyphen.
pub open spec fn option_view(spec: ArgSpec) -> ClapArgView {
    ClapArgView {
        id: argument_name_spec(spec.flag@),
        long: argument_name_spec(spec.flag@),
        takes_value: true,
        value_name: spec.value_name@,
        required: spec.required,
        allow_hyphen_values: true,
        global: false,
        help: spec.help@,
    }
}

/// The clap subcommand of a registered command with the given arguments.
pub open spec fn subcommand_view_with(command: RegisteredCommand, args: Seq<ArgSpec>) -> ClapCommandView {
    ClapCommandView {
        name: command.id@,
        bin_name: None,
        about: command.description@,
        disable_help_subcommand: false,
        subcommand_required: false,
        arg_required_else_help: false,
        args: args.map_values(|spec: ArgSpec| option_view(spec)),
        subcommands: Seq::empty(),
    }
}

/// The clap subcommand of a registered command.
pub open spec fn subcommand_view(command: RegisteredCommand) -> ClapCommandView {
    subcommand_view_with(command, command.args@)
}

/// The global `--dry-run` switch (argument id `dry_run`).
pub open spec fn dry_run_switch_view() -> ClapArgView {
    ClapArgView {
        id: "dry_run"@,
        long: "dry-run"@,
        takes_value: false,
        value_name: Seq::empty(),
        required: false,
        allow_hyphen_values: false,
        global: true,
        help: "Validate inputs without publishing operation evidence"@,
    }
}

/// The `invoke` command over the given registered commands: shown under
/// `bin_name`, with a required subcommand, no `help` subcommand, help when
/// called bare, the global dry-run switch, and one subcommand per command.
pub open spec fn invoke_view_of(commands: Seq<RegisteredCommand>, bin_name: Seq<char>) -> ClapCommandView {
    ClapCommandView {
        name: "invoke"@,
        bin_name: Some(bin_name),
        about: "Invoke a registered application operation"@,
        disable_help_subcommand: true,
        subcommand_required: true,
        arg_required_else_help: true,
        args: seq![dry_run_switch_view()],
        subcommands: commands.map_values(|command: RegisteredCommand| subcommand_view(command)),
    }
}

/// The `invoke` command of a registry.
pub open spec fn invoke_command_view(registry: InvokeRegistry, bin_name: Seq<char>) -> ClapCommandView {
    invoke_view_of(registry.commands@, bin_name)
}

/// The command line clap is handed: the binary name, then the arguments.
pub open spec fn invoke_argv(bin_name: Seq<char>, arguments: Seq<String>) -> Seq<Seq<char>> {
    seq![bin_name] + string_views(arguments)
}

/// What a registry-backed parse makes of clap's outcome: help or an error
/// as clap rendered it, or the request for the matched registered command
/// with the values given to its declared arguments and the dry-run switch.
pub open spec fn invoke_action_spec(registry: InvokeRegistry, outcome: Result<ClapMatchesView, (bool, Seq<char>)>) -> Result<
    InvokeActionView,
    Seq<char>,
> {
    match outcome {
        Err((is_help, text)) => if is_help {
            Ok(InvokeActionView::Help(text))
        } else {
            Err(text)
        },
        Ok(matched) => match matched.subcommand {
            None => Err("missing invoke command id"@),
            Some((id, sub)) => match resolve_spec(registry.commands@, id) {
                None => Err("invoke registry did not resolve parsed command "@ + id),
                Some(command) => Ok(
                    InvokeActionView::Invoke {
                        command_id: id,
                        inputs: matched_inputs(command.args@, given_values(command.args@, sub.values)),
                        dry_run: matched.switches.contains_key("dry_run"@) && matched.switches["dry_run"@],
                    },
                ),
            },
        },
    }
}

proof fn lemma_matched_inputs_are_declared(args: Seq<ArgSpec>, values: Seq<Option<Seq<char>>>)
    requires
        values.len() == args.len(),
    ensures
        forall|name: Seq<char>| #[trigger] matched_inputs(args, values).contains_key(name) ==> exists|a: int|
            0 <= a < args.len() && name == argument_name_spec(#[trigger] args[a].flag@),
    decreases args.len(),
{
    if args.len() > 0 {
        lemma_matched_inputs_are_declared(args.drop_last(), values.drop_last());
        assert forall|name: Seq<char>| #[trigger] matched_inputs(args, values).contains_key(name) implies exists|a: int|
            0 <= a < args.len() && name == argument_name_spec(#[trigger] args[a].flag@) by {
            if name == argument_name_spec(args.last().flag@) {
                assert(args[args.len() - 1] == args.last());
            } else {
                assert(matched_inputs(args.drop_last(), values.drop_last()).contains_key(name));
                let a = choose|a: int| 0 <= a < args.drop_last().len() && name == argument_name_spec(#[trigger] args.drop_last()[a].flag@);
                assert(args[a] == args.drop_last()[a]);
            }
        }
    }
}

/// The request for a matched command: its id, the inputs given for its
/// declared arguments (`values` holds what was given for each, in
/// declaration order), and the dry-run switch.
pub fn registry_request(command: &RegisteredCommand, command_id: String, values: Vec<Option<String>>, dry_run: bool) -> (request: RegistryInvokeRequest)
    requires
        values@.len() == command.args@.len(),
        forall|k: int| 0 <= k < command.args@.len() ==> is_long_flag(#[trigger] command.args@[k].flag@),
    ensures
        request.command_id == command_id,
        request.inputs@ == matched_inputs(command.args@, option_views(values@)),
        forall|name: Seq<char>| #[trigger] request.inputs@.contains_key(name) ==> exists|a: int|
            0 <= a < command.args@.len() && name == argument_name_spec(#[trigger] command.args@[a].flag@),
        request.dry_run == dry_run,
{
    let mut inputs = InvokeInputs::new();
    let mut values = values;
    let ghost all = values@;
    let mut a: usize = 0;
    while a < command.args.len()
        invariant
            a <= command.args@.len(),
            values@.len() == all.len(),
            all.len() == command.args@.len(),
            forall|k: int| a <= k < all.len() ==> values@[k] == all[k],
            forall|k: int| 0 <= k < command.args@.len() ==> is_long_flag(#[trigger] command.args@[k].flag@),
            inputs@ == matched_inputs(command.args@.take(a as int), option_views(all).take(a as int)),
        decreases command.args@.len() - a,
    {
        proof {
            assert(command.args@.take(a + 1).drop_last() =~= command.args@.take(a as int));
            assert(option_views(all).take(a + 1).drop_last() =~= option_views(all).take(a as int));
        }
        let mut value: Option<String> = None;
        std::mem::swap(&mut value, &mut values[a]);
        match value {
            Some(v) => {
                let name = argument_name(command.args[a].flag);
                inputs.insert(owned(name), v);
            },
            None => {},
        }
        a = a + 1;
    }
    proof {
        assert(command.args@.take(command.args@.len() as int) =~= command.args@);
        assert(option_views(all).take(all.len() as int) =~= option_views(all));
        lemma_matched_inputs_are_declared(command.args@, option_views(all));
    }
    RegistryInvokeRequest { command_id, inputs, dry_run }
}

/// What a command line clap refused amounts to: a request for help is
/// answered with the help text clap rendered, anything else is an error
/// with clap's message.
pub fn failure_action(failure: ClapFailure) -> (r: Result<InvokeCliAction, String>)
    ensures
        failure.is_help ==> (r matches Ok(InvokeCliAction::Help(h)) && h == failure.text),
        !failure.is_help ==> r == Err::<InvokeCliAction, String>(failure.text),
{
    if failure.is_help {
        Ok(InvokeCliAction::Help(failure.text))
    } else {
        Err(failure.text)
    }
}

/// The help of one command from the parse of `<command> --help`: the help
/// text, or an error when the parse named no help.
pub fn command_help(parsed: Result<InvokeCliAction, String>, command_id: &str) -> (r: Result<String, String>)
    ensures
        match parsed {
            Ok(InvokeCliAction::Help(help)) => r == Ok::<String, String>(help),
            Ok(InvokeCliAction::Invoke(_)) => r matches Err(e) && e@ == help_failure_text(command_id@),
            Err(error) => r == Err::<String, String>(error),
        },
{
    match parsed {
        Ok(InvokeCliAction::Help(help)) => Ok(help),
        Ok(InvokeCliAction::Invoke(_)) => {
            let mut m = owned("failed to render help for command ");
            m.append(command_id);
            Err(m)
        },
        Err(error) => Err(error),
    }
}

/// The subcommand of each registered command takes clap-valid arguments,
/// next to the global dry-run switch.
proof fn lemma_subcommand_args_well_formed(registry: InvokeRegistry, c: int)
    requires
        registry_is_well_formed(registry),
        0 <= c < registry.commands@.len(),
    ensures
        clap_args_well_formed(seq![dry_run_switch_view()] + subcommand_view(registry.commands@[c]).args),
{
    let specs = registry.commands@[c].args@;
    let args = seq![dry_run_switch_view()] + subcommand_view(registry.commands@[c]).args;
    reveal_strlit("help");
    reveal_strlit("dry_run");
    reveal_strlit("dry-run");
    reveal_strlit("-");
    assert(args.len() == specs.len() + 1);
    assert forall|i: int| 0 <= i < args.len() implies {
        &&& (#[trigger] args[i]).id != "help"@
        &&& args[i].long != "help"@
        &&& !has_prefix(args[i].long, "-"@)
        &&& !(args[i].required && args[i].global)
    } by {
        if i == 0 {
            assert("dry_run"@.len() != "help"@.len());
            assert("dry-run"@.len() != "help"@.len());
            assert("dry-run"@.subrange(0, 1) != "-"@) by {
                assert("dry-run"@.subrange(0, 1)[0] == 'd');
            }
        } else {
            assert(args[i] == option_view(specs[i - 1]));
            assert(flag_is_usable(registry.commands@[c].args@[i - 1].flag@));
        }
    }
    assert forall|i: int, j: int| 0 <= i < j < args.len() implies (#[trigger] args[i]).id != (#[trigger] args[j]).id
        && args[i].long != args[j].long by {
        assert(args[j] == option_view(specs[j - 1]));
        assert(flag_is_usable(registry.commands@[c].args@[j - 1].flag@));
        if i > 0 {
            assert(args[i] == option_view(specs[i - 1]));
            assert(argument_name_spec(registry.commands@[c].args@[i - 1].flag@) != argument_name_spec(
                registry.commands@[c].args@[j - 1].flag@,
            ));
        }
    }
}

/// The `invoke` command of a well-formed registry is one clap builds.
proof fn lemma_invoke_view_well_formed(registry: InvokeRegistry, bin_name: Seq<char>)
    requires
        registry_is_well_formed(registry),
    ensures
        clap_command_well_formed(invoke_command_view(registry, bin_name)),
{
    let view = invoke_command_view(registry, bin_name);
    let root = seq![dry_run_switch_view()];
    reveal_strlit("help");
    reveal_strlit("dry_run");
    reveal_strlit("dry-run");
    reveal_strlit("-");
    assert("dry_run"@.len() != "help"@.len());
    assert("dry-run"@.len() != "help"@.len());
    assert("dry-run"@.subrange(0, 1) != "-"@) by {
        assert("dry-run"@.subrange(0, 1)[0] == 'd');
    }
    assert(clap_args_well_formed(root));
    assert(root.drop_last() =~= Seq::<ClapArgView>::empty());
    assert(global_args(Seq::<ClapArgView>::empty()) == Seq::<ClapArgView>::empty());
    assert(root.last() == dry_run_switch_view());
    assert(global_args(root) =~= root);
    assert forall|i: int, j: int| 0 <= i < j < view.subcommands.len() implies (#[trigger] view.subcommands[i]).name != (
    #[trigger] view.subcommands[j]).name by {
        assert(view.subcommands[i] == subcommand_view(registry.commands@[i]));
        assert(view.subcommands[j] == subcommand_view(registry.commands@[j]));
    }
    assert forall|i: int| 0 <= i < view.subcommands.len() implies {
        &&& clap_args_well_formed(global_args(view.args) + (#[trigger] view.subcommands[i]).args)
        &&& view.subcommands[i].subcommands.len() == 0
    } by {
        assert(view.subcommands[i] == subcommand_view(registry.commands@[i]));
        lemma_subcommand_args_well_formed(registry, i);
    }
}

/// Clap-backed parsing and help for one invoke registry.
pub struct InvokeCli<'a> {
    registry: &'a InvokeRegistry,
    bin_name: &'static str,
}

impl<'a> InvokeCli<'a> {
    pub closed spec fn registry_spec(&self) -> InvokeRegistry {
        *self.registry
    }

    pub closed spec fn bin_name_spec(&self) -> Seq<char> {
        self.bin_name@
    }

    pub fn new(registry: &'a InvokeRegistry, bin_name: &'static str) -> (cli: Self)
        ensures
            cli.registry_spec() == *registry,
            cli.bin_name_spec() == bin_name@,
    {
        InvokeCli { registry, bin_name }
    }

    /// The clap command of the registry: the `invoke` root and one
    /// subcommand per registered command.
    fn command(&self) -> (command: clap::Command)
        requires
            registry_is_well_formed(self.registry_spec()),
        ensures
            clap_command_view(command) == invoke_command_view(self.registry_spec(), self.bin_name_spec()),
    {
        let root = clap_command("invoke", "Invoke a registered application operation");
        let root = clap_with_settings(root, self.bin_name, true, true, true);
        let mut command = clap_with_switch(
            root,
            "dry_run",
            "dry-run",
            true,
            "Validate inputs without publishing operation evidence",
        );
        let commands = &self.registry.commands;
        assert(clap_command_view(command).args =~= seq![dry_run_switch_view()]);
        assert(commands@.take(0).map_values(|c: RegisteredCommand| subcommand_view(c)) =~= Seq::<ClapCommandView>::empty());
        let mut c: usize = 0;
        while c < commands.len()
            invariant
                c <= commands@.len(),
                commands@ == self.registry_spec().commands@,
                registry_is_well_formed(self.registry_spec()),
                clap_command_view(command) == invoke_view_of(commands@.take(c as int), self.bin_name_spec()),
            decreases commands@.len() - c,
        {
            let registered = &commands[c];
            let mut subcommand = clap_command(registered.id, registered.description);
            assert(registered.args@.take(0).map_values(|spec: ArgSpec| option_view(spec)) =~= Seq::<ClapArgView>::empty());
            let mut a: usize = 0;
            while a < registered.args.len()
                invariant
                    a <= registered.args@.len(),
                    c < commands@.len(),
                    *registered == commands@[c as int],
                    commands@ == self.registry_spec().commands@,
                    registry_is_well_formed(self.registry_spec()),
                    clap_command_view(subcommand) == subcommand_view_with(*registered, registered.args@.take(a as int)),
                decreases registered.args@.len() - a,
            {
                let spec = registered.args[a];
                assert(flag_is_usable(self.registry_spec().commands@[c as int].args@[a as int].flag@));
                let name = argument_name(spec.flag);
                subcommand = clap_with_option(subcommand, name, spec.value_name, spec.required, true, spec.help);
                assert(registered.args@.take(a + 1).map_values(|spec: ArgSpec| option_view(spec)) =~= registered.args@.take(
                    a as int,
                ).map_values(|spec: ArgSpec| option_view(spec)).push(option_view(spec)));
                a = a + 1;
            }
            assert(registered.args@.take(a as int) =~= registered.args@);
            command = clap_with_subcommand(command, subcommand);
            assert(commands@.take(c + 1).map_values(|c: RegisteredCommand| subcommand_view(c)) =~= commands@.take(
                c as int,
            ).map_values(|c: RegisteredCommand| subcommand_view(c)).push(subcommand_view(*registered)));
            c = c + 1;
        }
        assert(commands@.take(c as int) =~= commands@);
        command
    }

    /// Parses an invoke command line (without the binary name): a request
    /// for help, or the registered command it names with the values given
    /// to its declared arguments and the dry-run switch.
    pub fn parse(&self, arguments: &Vec<String>) -> (r: Result<InvokeCliAction, String>)
        requires
            registry_is_well_formed(self.registry_spec()),
        ensures
            action_view(r) == invoke_action_spec(
                self.registry_spec(),
                clap_parse(
                    invoke_command_view(self.registry_spec(), self.bin_name_spec()),
                    invoke_argv(self.bin_name_spec(), arguments@),
                ),
            ),
            arguments@.len() == 0 ==> r matches Ok(InvokeCliAction::Help(_)),
            (arguments@.len() == 1 && arguments@[0]@ == "--help"@) ==> r matches Ok(InvokeCliAction::Help(_)),
            (arguments@.len() >= 1 && !has_prefix(arguments@[0]@, "-"@) && resolve_spec(
                self.registry_spec().commands@,
                arguments@[0]@,
            ) is None) ==> r is Err,
            (arguments@.len() == 2 && !has_prefix(arguments@[0]@, "-"@) && arguments@[1]@ == "--help"@ && resolve_spec(
                self.registry_spec().commands@,
                arguments@[0]@,
            ) is Some) ==> r matches Ok(InvokeCliAction::Help(_)),
            r matches Ok(InvokeCliAction::Invoke(request)) ==> resolve_spec(
                self.registry_spec().commands@,
                request.command_id@,
            ) is Some,
    {
        let ghost view = invoke_command_view(self.registry_spec(), self.bin_name_spec());
        let mut argv: Vec<String> = Vec::new();
        argv.push(owned(self.bin_name));
        let mut i: usize = 0;
        while i < arguments.len()
            invariant
                i <= arguments@.len(),
                string_views(argv@) == invoke_argv(self.bin_name_spec(), arguments@.take(i as int)),
            decreases arguments@.len() - i,
        {
            let ghost before = argv@;
            let item = arguments[i].clone();
            argv.push(item);
            proof {
                assert(string_views(argv@) =~= string_views(before).push(arguments@[i as int]@));
                assert(arguments@.take(i + 1) =~= arguments@.take(i as int).push(arguments@[i as int]));
                assert(string_views(arguments@.take(i + 1)) =~= string_views(arguments@.take(i as int)).push(
                    arguments@[i as int]@,
                ));
                assert(string_views(argv@) =~= invoke_argv(self.bin_name_spec(), arguments@.take(i + 1)));
            }
            i = i + 1;
        }
        assert(arguments@.take(i as int) =~= arguments@);
        assert(argv@.len() == string_views(argv@).len());
        proof {
            lemma_invoke_view_well_formed(self.registry_spec(), self.bin_name_spec());
            if arguments@.len() >= 1 {
                assert(argv@[1]@ == string_views(argv@)[1]);
                assert(string_views(argv@)[1] == arguments@[0]@);
                if resolve_spec(self.registry_spec().commands@, arguments@[0]@) is None {
                    lemma_unresolved_is_unregistered(self.registry_spec().commands@, arguments@[0]@);
                    if has_subcommand(view, arguments@[0]@) {
                        let k = choose|k: int| 0 <= k < view.subcommands.len() && (#[trigger] view.subcommands[k]).name
                            == arguments@[0]@;
                        assert(view.subcommands[k] == subcommand_view(self.registry_spec().commands@[k]));
                    }
                } else {
                    lemma_resolved_is_registered(self.registry_spec().commands@, arguments@[0]@);
                    let k = choose|k: int| 0 <= k < self.registry_spec().commands@.len() && self.registry_spec().commands@[k]
                        == resolve_spec(self.registry_spec().commands@, arguments@[0]@)->0;
                    lemma_resolved_has_id(self.registry_spec().commands@, arguments@[0]@);
                    assert(view.subcommands[k] == subcommand_view(self.registry_spec().commands@[k]));
                    assert(has_subcommand(view, arguments@[0]@));
                }
                if arguments@.len() == 2 {
                    assert(argv@[2]@ == string_views(argv@)[2]);
                    assert(string_views(argv@)[2] == arguments@[1]@);
                }
            }
        }
        let matches = match clap_try_matches(self.command(), argv) {
            Ok(matches) => matches,
            Err(failure) => return failure_action(failure),
        };
        let (command_id, command_matches) = match clap_matched_subcommand(&matches) {
            Some(found) => found,
            None => return Err(owned("missing invoke command id")),
        };
        let command = match self.registry.resolve(command_id.as_str()) {
            Some(command) => command,
            None => {
                let mut m = owned("invoke registry did not resolve parsed command ");
                m.append(command_id.as_str());
                return Err(m);
            },
        };
        let ghost resolved = *command;
        let ghost given = clap_matches_view(command_matches).values;
        proof {
            lemma_resolved_is_registered(self.registry_spec().commands@, command_id@);
            let k = choose|k: int| 0 <= k < self.registry_spec().commands@.len() && self.registry_spec().commands@[k] == resolved;
            assert forall|j: int| 0 <= j < resolved.args@.len() implies is_long_flag(#[trigger] resolved.args@[j].flag@) by {
                assert(flag_is_usable(self.registry_spec().commands@[k].args@[j].flag@));
            }
        }
        let mut values: Vec<Option<String>> = Vec::new();
        let mut a: usize = 0;
        while a < command.args.len()
            invariant
                a <= command.args@.len(),
                values@.len() == a,
                *command == resolved,
                given == clap_matches_view(command_matches).values,
                forall|k: int| 0 <= k < resolved.args@.len() ==> is_long_flag(#[trigger] resolved.args@[k].flag@),
                option_views(values@) == given_values(resolved.args@, given).take(a as int),
            decreases command.args@.len() - a,
        {
            let name = argument_name(command.args[a].flag);
            let value = clap_matched_value(&command_matches, name);
            values.push(value);
            assert(option_views(values@) =~= given_values(resolved.args@, given).take(a + 1));
            a = a + 1;
        }
        assert(given_values(resolved.args@, given).take(a as int) =~= given_values(resolved.args@, given));
        let dry_run = match clap_matched_switch(&matches, "dry_run") {
            Some(set) => set,
            None => false,
        };
        Ok(InvokeCliAction::Invoke(registry_request(command, command_id, values, dry_run)))
    }

    /// The help of the whole registry: clap's help of the `invoke` command,
    /// which lists every registered command id and the `--dry-run` switch.
    pub fn render_help(&self) -> (help: String)
        requires
            registry_is_well_formed(self.registry_spec()),
        ensures
            help@ == clap_help_text(invoke_command_view(self.registry_spec(), self.bin_name_spec())),
            forall|k: int|
                0 <= k < self.registry_spec().commands@.len() ==> contains_seq(
                    help@,
                    (#[trigger] self.registry_spec().commands@[k]).id@,
                ),
            contains_seq(help@, "--dry-run"@),
    {
        proof {
            lemma_invoke_view_well_formed(self.registry_spec(), self.bin_name_spec());
        }
        let help = clap_render_help(self.command());
        proof {
            let view = invoke_command_view(self.registry_spec(), self.bin_name_spec());
            assert forall|k: int| 0 <= k < self.registry_spec().commands@.len() implies contains_seq(
                help@,
                (#[trigger] self.registry_spec().commands@[k]).id@,
            ) by {
                assert(view.subcommands[k] == subcommand_view(self.registry_spec().commands@[k]));
            }
            assert(view.args[0] == dry_run_switch_view());
            reveal_strlit("--");
            reveal_strlit("dry-run");
            reveal_strlit("--dry-run");
            assert("--"@ + "dry-run"@ =~= "--dry-run"@);
        }
        help
    }

    /// The help of one registered command, as `<command> --help` prints it:
    /// there is one exactly when the id names a registered command (for an
    /// id that does not start with `-`).
    pub fn render_command_help(&self, command_id: &str) -> (r: Result<String, String>)
        requires
            registry_is_well_formed(self.registry_spec()),
        ensures
            match invoke_action_spec(
                self.registry_spec(),
                clap_parse(
                    invoke_command_view(self.registry_spec(), self.bin_name_spec()),
                    seq![self.bin_name_spec(), command_id@, "--help"@],
                ),
            ) {
                Ok(InvokeActionView::Help(help)) => r matches Ok(h) && h@ == help,
                Ok(InvokeActionView::Invoke { .. }) => r matches Err(e) && e@ == help_failure_text(command_id@),
                Err(error) => r matches Err(e) && e@ == error,
            },
            !has_prefix(command_id@, "-"@) ==> (r is Ok <==> resolve_spec(self.registry_spec().commands@, command_id@) is Some),
    {
        let mut arguments: Vec<String> = Vec::new();
        arguments.push(owned(command_id));
        arguments.push(owned("--help"));
        proof {
            assert(invoke_argv(self.bin_name_spec(), arguments@) =~= seq![self.bin_name_spec(), command_id@, "--help"@]);
        }
        proof {
            reveal_strlit("--help");
        }
        let parsed = self.parse(&arguments);
        command_help(parsed, command_id)
    }
}

} // verus!
