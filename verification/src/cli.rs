//! How the picker is started: its arguments, and what they ask for.

use clap::builder::{NonEmptyStringValueParser, ValueParserFactory};
use clap::ArgAction::{HelpShort, SetTrue};
use clap::{Arg, ArgGroup, Command};
use crate::protocol;
use crate::VERSION;
use vstd::prelude::*;

verus! {

pub const PROGRAM: &'static str = "d2b-clip-picker";

pub const ABOUT: &'static str = "UI-only d2b clipboard picker";

/// The group of the options of which exactly one is given.
pub const MODE: &'static str = "mode";

pub const IPC_FD_ID: &'static str = "IPC_FD";

pub const IPC_FD: &'static str = "ipc-fd";

pub const IPC_FD_HELP: &'static str = "Inherited socketpair file descriptor from d2b-clipd";

pub const SELECT_FIRST_ID: &'static str = "test_select_first";

pub const SELECT_FIRST: &'static str = "test-select-first";

pub const SELECT_FIRST_HELP: &'static str =
    "Test harness only: activate the first rendered row after the UI maps";

pub const THEME_ID: &'static str = "PATH";

pub const THEME: &'static str = "theme-json";

pub const THEME_HELP: &'static str = "Optional generic JSON palette for UI shell colors";

pub const RENDER_ID: &'static str = "PNG";

pub const RENDER: &'static str = "render-sample";

pub const RENDER_HELP: &'static str =
    "Render deterministic synthetic picker data to an explicit PNG path";

pub const HELP: &'static str = "help";

pub const HELP_HELP: &'static str = "Print help";

#[verifier::external_type_specification]
#[verifier::external_body]
pub struct ExArgMatches(clap::ArgMatches);

/// What the arguments give: the descriptor, whether the first entry is selected, the file of the
/// palette and the file of the sample.
pub type Given = (Option<i32>, bool, Option<String>, Option<String>);

/// The values in what arguments give.
pub open spec fn given_values(given: Given) -> (
    Option<i32>,
    bool,
    Option<Seq<char>>,
    Option<Seq<char>>,
) {
    (
        given.0,
        given.1,
        protocol::optional_text(given.2),
        protocol::optional_text(given.3),
    )
}

/// The texts of arguments.
pub open spec fn texts_of(args: Seq<String>) -> Seq<Seq<char>> {
    args.map_values(|arg: String| arg@)
}

/// What clap finds in arguments, the name of the program with them, if it accepts them.
pub uninterp spec fn found_by_clap(args: Seq<Seq<char>>) -> Option<
    (Option<i32>, bool, Option<Seq<char>>, Option<Seq<char>>),
>;

/// What clap's error says of arguments that clap does not accept.
pub uninterp spec fn clap_error_text(args: Seq<Seq<char>>) -> Seq<char>;

/// The code with which clap ends a program whose arguments it does not accept.
pub uninterp spec fn clap_exit_code(args: Seq<Seq<char>>) -> i32;

/// The values that clap's matches hold of the options of the picker.
pub uninterp spec fn held_values(found: clap::ArgMatches) -> (
    Option<i32>,
    bool,
    Option<Seq<char>>,
    Option<Seq<char>>,
);

/// Whether clap's matches are those of the options of the picker.
pub uninterp spec fn has_picker_options(found: clap::ArgMatches) -> bool;

/// Calls clap's `Command::try_get_matches_from` on the options of the picker. Whether clap
/// accepts the arguments, and what it finds in them, depends on the arguments alone and is
/// named. Of the two options of a group that is required, as this one is, clap lets exactly one
/// pass. The option for test harnesses is left out of the help, but clap's usage line names it in
/// an error where it was given.
///
/// Where clap does not accept them, what comes back is the text of its error, by the error's
/// `to_string`, and the code with which the program is to end, by `Error::exit_code`. Both depend
/// on the arguments alone and are named. The code is 0 where clap was asked for its help or the
/// version, and else 2.
#[verifier::external_body]
fn match_arguments(args: Vec<String>) -> (r: Result<clap::ArgMatches, (String, i32)>)
    ensures
        r is Ok <==> found_by_clap(texts_of(args@)) is Some,
        r matches Ok(found) ==> has_picker_options(found) && found_by_clap(texts_of(args@)) == Some(
            held_values(found),
        ) && (held_values(found).0 is Some) != (held_values(found).3 is Some),
        r matches Err(error) ==> error.0@ == clap_error_text(texts_of(args@)) && error.1
            == clap_exit_code(texts_of(args@)) && (error.1 == 0 || error.1 == 2),
{
    let of = |id, name, help| Arg::new(id).long(name).help(help);
    Command::new(PROGRAM).version(VERSION).about(ABOUT).disable_help_flag(true)
        .args([
            of(IPC_FD_ID, IPC_FD, IPC_FD_HELP).value_parser(i32::value_parser()),
            of(SELECT_FIRST_ID, SELECT_FIRST, SELECT_FIRST_HELP)
                .requires(IPC_FD_ID).action(SetTrue).hide_short_help(true),
            of(THEME_ID, THEME, THEME_HELP).value_parser(NonEmptyStringValueParser::new()),
            of(RENDER_ID, RENDER, RENDER_HELP).value_parser(NonEmptyStringValueParser::new()),
            of(HELP, HELP, HELP_HELP).short('h').action(HelpShort)
        ])
        .group(ArgGroup::new(MODE).required(true).args([IPC_FD_ID, RENDER_ID]))
        .try_get_matches_from(args)
        .map_err(|e| (e.to_string(), e.exit_code()))
}

/// Calls clap's `ArgMatches::remove_one` for the options with a value and `ArgMatches::get_flag`
/// for the one without: what comes back are the values that the matches hold.
#[verifier::external_body]
fn take_values(found: clap::ArgMatches) -> (r: Given)
    requires
        has_picker_options(found),
    ensures
        given_values(r) == held_values(found),
{
    let mut found = found;
    let flag = found.get_flag(SELECT_FIRST_ID);
    let number = found.remove_one(IPC_FD_ID);
    (number, flag, found.remove_one(THEME_ID), found.remove_one(RENDER_ID))
}

/// The arguments of the picker.
#[derive(Debug)]
pub struct Args {
    /// The socket on which the daemon waits.
    pub ipc_fd: Option<i32>,
    /// Whether the first entry is selected as soon as it is shown.
    pub test_select_first: bool,
    /// The file with the palette.
    pub theme_json: Option<String>,
    /// The file into which a sample is rendered.
    pub render_sample: Option<String>,
}

/// Why arguments were not accepted, or what was asked for in place of a picker.
#[derive(Debug)]
pub struct CliError {
    /// What the user is told.
    pub text: String,
    /// The code with which the program ends.
    pub exit_code: i32,
}

/// What the picker is started for.
pub enum Mode {
    /// To render a sample into this file.
    Render(String),
    /// To answer the daemon at this socket.
    Connect(i32),
}

/// Why the picker does not start.
#[derive(Debug, Clone, Copy, PartialEq, Eq, Structural)]
pub enum LaunchError {
    /// The descriptor is one of the three that every program has.
    DescriptorTooLow,
}

impl LaunchError {
    pub fn message(&self) -> (r: &'static str)
        ensures
            r@ == "--ipc-fd must be greater than 2"@,
    {
        "--ipc-fd must be greater than 2"
    }
}

impl Args {
    /// Whether the arguments ask for one thing and not for two.
    pub open spec fn has_one_mode(&self) -> bool {
        (self.ipc_fd is Some) != (self.render_sample is Some)
    }

    pub open spec fn values(&self) -> (Option<i32>, bool, Option<Seq<char>>, Option<Seq<char>>) {
        (
            self.ipc_fd,
            self.test_select_first,
            protocol::optional_text(self.theme_json),
            protocol::optional_text(self.render_sample),
        )
    }

    /// The arguments that give this.
    pub fn from_given(given: Given) -> (r: Args)
        ensures
            r.values() == given_values(given),
    {
        let (ipc_fd, test_select_first, theme_json, render_sample) = given;
        Args { ipc_fd, test_select_first, theme_json, render_sample }
    }

    /// Reads the arguments, the first of which is the name of the program.
    pub fn try_parse_from(args: Vec<String>) -> (r: Result<Args, CliError>)
        ensures
            r is Ok <==> found_by_clap(texts_of(args@)) is Some,
            r matches Ok(parsed) ==> found_by_clap(texts_of(args@)) == Some(parsed.values())
                && parsed.has_one_mode(),
            r matches Err(error) ==> error.text@ == clap_error_text(texts_of(args@))
                && error.exit_code == clap_exit_code(texts_of(args@)) && (error.exit_code == 0
                || error.exit_code == 2),
    {
        match match_arguments(args) {
            Ok(found) => Ok(Args::from_given(take_values(found))),
            Err((text, exit_code)) => Err(CliError { text, exit_code }),
        }
    }

    /// What the arguments ask for.
    pub fn mode(self) -> (r: Result<Mode, LaunchError>)
        requires
            self.render_sample is Some || self.ipc_fd is Some,
        ensures
            r == (match self.render_sample {
                Some(path) => Ok::<Mode, LaunchError>(Mode::Render(path)),
                None => if self.ipc_fd->0 <= 2 {
                    Err(LaunchError::DescriptorTooLow)
                } else {
                    Ok(Mode::Connect(self.ipc_fd->0))
                },
            }),
    {
        match self.render_sample {
            Some(path) => Ok(Mode::Render(path)),
            None => match self.ipc_fd {
                Some(fd) => {
                    if fd <= 2 {
                        Err(LaunchError::DescriptorTooLow)
                    } else {
                        Ok(Mode::Connect(fd))
                    }
                },
                None => Err(LaunchError::DescriptorTooLow),
            },
        }
    }
}

/// An environment variable and its value.
pub struct Setting {
    pub name: &'static str,
    pub value: &'static str,
}

/// What is set in the environment before anything is shown, unless the user has set it: the
/// picker is shown by Wayland and drawn without a graphics card.
pub fn headless_safe_gtk_defaults(backend_is_set: bool, renderer_is_set: bool) -> (r: Vec<Setting>)
    ensures
        r@.len() == (if backend_is_set {
            0int
        } else {
            1
        }) + (if renderer_is_set {
            0int
        } else {
            1
        }),
        !backend_is_set ==> r@[0].name@ == "GDK_BACKEND"@ && r@[0].value@ == "wayland"@,
        !renderer_is_set ==> r@.last().name@ == "GSK_RENDERER"@ && r@.last().value@ == "cairo"@,
{
    let mut r: Vec<Setting> = Vec::new();
    if !backend_is_set {
        r.push(Setting { name: "GDK_BACKEND", value: "wayland" });
    }
    if !renderer_is_set {
        r.push(Setting { name: "GSK_RENDERER", value: "cairo" });
    }
    r
}

/// A sample is rendered where one is asked for. Otherwise the daemon is answered at the socket
/// that is given, unless that is one of the three that every program has.
pub proof fn arguments_decide_the_mode(args: Args, r: Result<Mode, LaunchError>)
    requires
        args.render_sample is Some || args.ipc_fd is Some,
        call_ensures(Args::mode, (args,), r),
    ensures
        args.render_sample matches Some(path) ==> r == Ok::<Mode, LaunchError>(Mode::Render(path)),
        args.render_sample is None ==> {
            let descriptor = args.ipc_fd->0;
            &&& descriptor >= 3 ==> r == Ok::<Mode, LaunchError>(Mode::Connect(descriptor))
            &&& descriptor < 3 ==> r is Err
        },
{
}

/// Each option is taken over from what was given for it.
pub proof fn given_values_are_taken_over(given: Given, r: Args)
    requires
        call_ensures(Args::from_given, (given,), r),
    ensures
        r.ipc_fd == given.0,
        r.test_select_first == given.1,
        r.theme_json is Some <==> given.2 is Some,
        r.render_sample is Some <==> given.3 is Some,
        given.2 matches Some(path) ==> r.theme_json->0@ == path@,
        given.3 matches Some(path) ==> r.render_sample->0@ == path@,
{
}

/// What the user has set in the environment is left alone, and what is not set is given its
/// value, each whatever the other is.
pub proof fn unset_variables_are_given_values(
    backend_is_set: bool,
    renderer_is_set: bool,
    r: Vec<Setting>,
)
    requires
        call_ensures(headless_safe_gtk_defaults, (backend_is_set, renderer_is_set), r),
    ensures
        backend_is_set && renderer_is_set ==> r@.len() == 0,
        !backend_is_set && renderer_is_set ==> r@.len() == 1 && r@[0].name@ == "GDK_BACKEND"@
            && r@[0].value@ == "wayland"@,
        backend_is_set && !renderer_is_set ==> r@.len() == 1 && r@[0].name@ == "GSK_RENDERER"@
            && r@[0].value@ == "cairo"@,
        !backend_is_set && !renderer_is_set ==> r@.len() == 2 && r@[0].name@ == "GDK_BACKEND"@
            && r@[0].value@ == "wayland"@ && r@[1].name@ == "GSK_RENDERER"@ && r@[1].value@
            == "cairo"@,
{
}

} // verus!
