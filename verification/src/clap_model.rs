//! The part of clap this crate builds on, as plain values: the commands its
//! builders make, what clap's parser makes of a command line for such a
//! command, what the resulting matches hold, and the help clap renders.
//!
//! The crate builds clap commands only through the builders below, and
//! every setting they make is recorded in the command's view, so that a
//! command is described by its view. With clap's default features (no
//! `wrap_help`, no `debug`) neither parsing nor help depends on the terminal
//! or the environment: both are functions of the command and the command
//! line, and are named as such.

use vstd::prelude::*;
use crate::text::{contains_seq, has_prefix};

verus! {

/// One argument of a clap command, always with a long name: a switch
/// (`ArgAction::SetTrue`, no value) or an option that takes one value.
pub struct ClapArgView {
    pub id: Seq<char>,
    pub long: Seq<char>,
    pub takes_value: bool,
    pub value_name: Seq<char>,
    pub required: bool,
    pub allow_hyphen_values: bool,
    pub global: bool,
    pub help: Seq<char>,
}

/// A clap command as this crate's builders make it.
pub struct ClapCommandView {
    pub name: Seq<char>,
    pub bin_name: Option<Seq<char>>,
    pub about: Seq<char>,
    pub disable_help_subcommand: bool,
    pub subcommand_required: bool,
    pub arg_required_else_help: bool,
    pub args: Seq<ClapArgView>,
    pub subcommands: Seq<ClapCommandView>,
}

/// What clap's matches for one command level hold, as far as this crate
/// reads them: the first value of each argument whose values are strings,
/// the value of each argument whose value is a `bool`, and the subcommand
/// matched at this level with its own matches.
pub struct ClapMatchesView {
    pub values: Map<Seq<char>, Seq<char>>,
    pub switches: Map<Seq<char>, bool>,
    pub subcommand: Option<(Seq<char>, Box<ClapMatchesView>)>,
}

/// The view of a command built by this crate's builders.
pub uninterp spec fn clap_command_view(command: clap::Command) -> ClapCommandView;

/// The view of clap's matches.
pub uninterp spec fn clap_matches_view(matches: clap::ArgMatches) -> ClapMatchesView;

/// What `Command::try_get_matches_from` gives for a command and a command
/// line (binary name first): the matches, or whether the error is a request
/// for help and the error's text.
pub uninterp spec fn clap_parse(command: ClapCommandView, argv: Seq<Seq<char>>) -> Result<ClapMatchesView, (bool, Seq<char>)>;

/// What `Command::render_help` renders for a command.
pub uninterp spec fn clap_help_text(command: ClapCommandView) -> Seq<char>;

/// The text views of a list of strings.
pub open spec fn string_views(strings: Seq<String>) -> Seq<Seq<char>> {
    strings.map_values(|s: String| s@)
}

/// The arguments of one command level have distinct ids and distinct long
/// names, none of them `help` (clap's own help flag), no long name starts
/// with `-`, and no global argument is required.
pub open spec fn clap_args_well_formed(args: Seq<ClapArgView>) -> bool {
    &&& forall|i: int|
        0 <= i < args.len() ==> {
            &&& (#[trigger] args[i]).id != "help"@
            &&& args[i].long != "help"@
            &&& !has_prefix(args[i].long, "-"@)
            &&& !(args[i].required && args[i].global)
        }
    &&& forall|i: int, j: int|
        0 <= i < j < args.len() ==> (#[trigger] args[i]).id != (#[trigger] args[j]).id && args[i].long != args[j].long
}

/// The global arguments of a command, which clap copies into its
/// subcommands.
pub open spec fn global_args(args: Seq<ClapArgView>) -> Seq<ClapArgView>
    decreases args.len(),
{
    if args.len() == 0 {
        Seq::empty()
    } else if args.last().global {
        global_args(args.drop_last()).push(args.last())
    } else {
        global_args(args.drop_last())
    }
}

/// A command clap builds without a debug assertion: well-formed arguments
/// at the root and, together with the root's global arguments, in each
/// subcommand; distinct subcommand names; no deeper subcommands.
pub open spec fn clap_command_well_formed(command: ClapCommandView) -> bool {
    &&& clap_args_well_formed(command.args)
    &&& forall|i: int, j: int|
        0 <= i < j < command.subcommands.len() ==> (#[trigger] command.subcommands[i]).name != (
        #[trigger] command.subcommands[j]).name
    &&& forall|i: int|
        0 <= i < command.subcommands.len() ==> {
            &&& clap_args_well_formed(global_args(command.args) + (#[trigger] command.subcommands[i]).args)
            &&& command.subcommands[i].subcommands.len() == 0
        }
}

/// `name` is the name of one of the command's subcommands.
pub open spec fn has_subcommand(command: ClapCommandView, name: Seq<char>) -> bool {
    exists|i: int| 0 <= i < command.subcommands.len() && (#[trigger] command.subcommands[i]).name == name
}

/// A help text lists every subcommand by name and every argument by its
/// `--long` name.
pub open spec fn help_lists_everything(help: Seq<char>, command: ClapCommandView) -> bool {
    &&& forall|i: int| 0 <= i < command.subcommands.len() ==> contains_seq(help, (#[trigger] command.subcommands[i]).name)
    &&& forall|i: int| 0 <= i < command.args.len() ==> contains_seq(help, "--"@ + (#[trigger] command.args[i]).long)
}

/// A parse outcome that matched with these matches.
pub open spec fn parsed_as(outcome: Result<ClapMatchesView, (bool, Seq<char>)>, matches: ClapMatchesView) -> bool {
    outcome == Ok::<ClapMatchesView, (bool, Seq<char>)>(matches)
}

/// A parse outcome that was refused: with help or not, and with this text.
pub open spec fn refused_as(outcome: Result<ClapMatchesView, (bool, Seq<char>)>, is_help: bool, text: Seq<char>) -> bool {
    outcome == Err::<ClapMatchesView, (bool, Seq<char>)>((is_help, text))
}

/// Clap refused the command line with help.
pub open spec fn refused_with_help<T>(r: Result<T, ClapFailure>) -> bool {
    r matches Err(f) && f.is_help
}

/// Clap refused the command line with an error that is not help.
pub open spec fn refused_without_help<T>(r: Result<T, ClapFailure>) -> bool {
    r matches Err(f) && !f.is_help
}

#[verifier::external_type_specification]
#[verifier::external_body]
pub struct ExClapCommand(clap::Command);

#[verifier::external_type_specification]
#[verifier::external_body]
pub struct ExClapArgMatches(clap::ArgMatches);

/// A command line clap did not match: whether it asked for help, and the
/// text clap renders for it.
pub struct ClapFailure {
    pub is_help: bool,
    pub text: String,
}

/// `Command::new(name).about(about)`: a command with no arguments,
/// subcommands or settings.
#[verifier::external_body]
pub(crate) fn clap_command(name: &'static str, about: &'static str) -> (r: clap::Command)
    ensures
        clap_command_view(r) == (ClapCommandView {
            name: name@,
            bin_name: None,
            about: about@,
            disable_help_subcommand: false,
            subcommand_required: false,
            arg_required_else_help: false,
            args: Seq::empty(),
            subcommands: Seq::empty(),
        }),
{
    clap::Command::new(name).about(about)
}

/// `Command::bin_name`, `disable_help_subcommand`, `subcommand_required` and
/// `arg_required_else_help`: the command's displayed binary name and its
/// three settings.
#[verifier::external_body]
pub(crate) fn clap_with_settings(
    command: clap::Command,
    bin_name: &'static str,
    disable_help_subcommand: bool,
    subcommand_required: bool,
    arg_required_else_help: bool,
) -> (r: clap::Command)
    ensures
        clap_command_view(r) == (ClapCommandView {
            bin_name: Some(bin_name@),
            disable_help_subcommand,
            subcommand_required,
            arg_required_else_help,
            ..clap_command_view(command)
        }),
{
    command.bin_name(bin_name).disable_help_subcommand(disable_help_subcommand).subcommand_required(
        subcommand_required,
    ).arg_required_else_help(arg_required_else_help)
}

/// `Command::arg` with `Arg::new(id).long(long).global(global)
/// .action(ArgAction::SetTrue).help(help)`: one switch.
#[verifier::external_body]
pub(crate) fn clap_with_switch(
    command: clap::Command,
    id: &'static str,
    long: &'static str,
    global: bool,
    help: &'static str,
) -> (r: clap::Command)
    ensures
        clap_command_view(r) == (ClapCommandView {
            args: clap_command_view(command).args.push(
                ClapArgView {
                    id: id@,
                    long: long@,
                    takes_value: false,
                    value_name: Seq::empty(),
                    required: false,
                    allow_hyphen_values: false,
                    global,
                    help: help@,
                },
            ),
            ..clap_command_view(command)
        }),
{
    command.arg(clap::Arg::new(id).long(long).global(global).action(clap::ArgAction::SetTrue).help(help))
}

/// `Command::arg` with `Arg::new(name).long(name).value_name(value_name)
/// .required(required).allow_hyphen_values(allow_hyphen_values).help(help)`:
/// one option that takes a value.
#[verifier::external_body]
pub(crate) fn clap_with_option(
    command: clap::Command,
    name: &'static str,
    value_name: &'static str,
    required: bool,
    allow_hyphen_values: bool,
    help: &'static str,
) -> (r: clap::Command)
    ensures
        clap_command_view(r) == (ClapCommandView {
            args: clap_command_view(command).args.push(
                ClapArgView {
                    id: name@,
                    long: name@,
                    takes_value: true,
                    value_name: value_name@,
                    required,
                    allow_hyphen_values,
                    global: false,
                    help: help@,
                },
            ),
            ..clap_command_view(command)
        }),
{
    command.arg(
        clap::Arg::new(name).long(name).value_name(value_name).required(required).allow_hyphen_values(
            allow_hyphen_values,
        ).help(help),
    )
}

/// `Command::subcommand`.
#[verifier::external_body]
pub(crate) fn clap_with_subcommand(command: clap::Command, subcommand: clap::Command) -> (r: clap::Command)
    ensures
        clap_command_view(r) == (ClapCommandView {
            subcommands: clap_command_view(command).subcommands.push(clap_command_view(subcommand)),
            ..clap_command_view(command)
        }),
{
    command.subcommand(subcommand)
}

/// `Command::try_get_matches_from`. Its result is named by `clap_parse`; its
/// error, whose type Verus cannot declare, is handed back as whether it is
/// a request for help (`DisplayHelp`, or help shown for a missing argument or
/// subcommand) and its rendered text. Clap's source shows further: a bare
/// command line of a command with `arg_required_else_help` is answered with
/// help; `--help` is answered with help; a first argument that does not
/// start with `-` and names no subcommand (`help` included, when the help
/// subcommand is disabled) is refused with an error that is not help, as
/// the command has no positional arguments; `<subcommand> --help` is
/// answered with help; and a command with `subcommand_required` matches only
/// with one of its subcommands. In debug builds clap panics on a command
/// that is not well-formed, which `requires` keeps out.
#[verifier::external_body]
pub(crate) fn clap_try_matches(command: clap::Command, argv: Vec<String>) -> (r: Result<clap::ArgMatches, ClapFailure>)
    requires
        clap_command_well_formed(clap_command_view(command)),
    ensures
        r matches Ok(m) ==> parsed_as(clap_parse(clap_command_view(command), string_views(argv@)), clap_matches_view(m)),
        r matches Err(f) ==> refused_as(clap_parse(clap_command_view(command), string_views(argv@)), f.is_help, f.text@),
        refused_with_help(r) || !(argv@.len() == 1 && clap_command_view(command).arg_required_else_help),
        refused_with_help(r) || !(argv@.len() == 2 && argv@[1]@ == "--help"@),
        refused_without_help(r) || !(argv@.len() >= 2 && !has_prefix(argv@[1]@, "-"@) && !has_subcommand(
            clap_command_view(command),
            argv@[1]@,
        ) && (clap_command_view(command).disable_help_subcommand || argv@[1]@ != "help"@)),
        refused_with_help(r) || !(argv@.len() == 3 && !has_prefix(argv@[1]@, "-"@) && has_subcommand(
            clap_command_view(command),
            argv@[1]@,
        ) && argv@[2]@ == "--help"@),
        r matches Ok(m) ==> (!clap_command_view(command).subcommand_required || (clap_matches_view(m).subcommand matches Some(
            s,
        ) && has_subcommand(clap_command_view(command), s.0))),
{
    command.try_get_matches_from(argv).map_err(|error| ClapFailure {
        is_help: matches!(
            error.kind(),
            clap::error::ErrorKind::DisplayHelp | clap::error::ErrorKind::DisplayHelpOnMissingArgumentOrSubcommand
        ),
        text: error.to_string(),
    })
}

/// `ArgMatches::subcommand`: the matched subcommand's name and matches.
#[verifier::external_body]
pub(crate) fn clap_matched_subcommand(matches: &clap::ArgMatches) -> (r: Option<(String, clap::ArgMatches)>)
    ensures
        r is None <==> clap_matches_view(*matches).subcommand is None,
        r matches Some(found) ==> (clap_matches_view(*matches).subcommand matches Some(s) && found.0@ == s.0
            && clap_matches_view(found.1) == *s.1),
{
    matches.subcommand().map(|(name, sub)| (name.to_string(), sub.clone()))
}

/// `ArgMatches::try_get_one::<String>`, cloned: the first value of an
/// argument whose values are strings. Its error (an id the command does not
/// declare, or values of another type) is taken as no value.
#[verifier::external_body]
pub(crate) fn clap_matched_value(matches: &clap::ArgMatches, id: &str) -> (r: Option<String>)
    ensures
        r is Some <==> clap_matches_view(*matches).values.contains_key(id@),
        r matches Some(v) ==> v@ == clap_matches_view(*matches).values[id@],
{
    matches.try_get_one::<String>(id).ok().flatten().cloned()
}

/// `ArgMatches::try_get_one::<bool>`, copied: the value of a switch. Its
/// error is taken as no value.
#[verifier::external_body]
pub(crate) fn clap_matched_switch(matches: &clap::ArgMatches, id: &str) -> (r: Option<bool>)
    ensures
        r is Some <==> clap_matches_view(*matches).switches.contains_key(id@),
        r matches Some(v) ==> v == clap_matches_view(*matches).switches[id@],
{
    matches.try_get_one::<bool>(id).ok().flatten().copied()
}

/// `Command::render_help`, as text without styling. Clap's default help
/// template lists every (visible) subcommand by name and every (visible)
/// argument by its `--long` name, and this crate hides none. In debug
/// builds rendering first builds the command, which panics on a command that
/// is not well-formed.
#[verifier::external_body]
pub(crate) fn clap_render_help(command: clap::Command) -> (r: String)
    requires
        clap_command_well_formed(clap_command_view(command)),
    ensures
        r@ == clap_help_text(clap_command_view(command)),
        help_lists_everything(r@, clap_command_view(command)),
{
    let mut command = command;
    command.render_help().to_string()
}

} // verus!
