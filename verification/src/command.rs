//! The launch command and how it is built from the settings.

use vstd::prelude::*;
use crate::settings::{PineconeSettings, SettingsView};

verus! {

/// The program that runs the server where the settings name none.
pub const DEFAULT_TOOL: &'static str = "uv";

/// The subcommand of the tool that runs a package's entry point.
pub const RUN_SUBCOMMAND: &'static str = "run";

/// The entry point of the server's package.
pub const SERVER_PACKAGE: &'static str = "mcp-pinecone";

/// The environment variable in which the server finds the credential.
pub const API_KEY_VAR: &'static str = "PINECONE_API_KEY";

/// The environment variable in which the server finds the index's name.
pub const INDEX_NAME_VAR: &'static str = "PINECONE_INDEX_NAME";

/// The environment variable that carries the program named in the settings.
pub const PYTHON_PATH_VAR: &'static str = "PYTHON_PATH";

/// How the host is to start the server: a program, its arguments in order,
/// and the environment variables to set, each with its value.
#[derive(Debug, Clone, PartialEq, Eq)]
pub struct LaunchCommand {
    pub command: String,
    pub args: Vec<String>,
    pub env: Vec<(String, String)>,
}

/// The mathematical value of a [`LaunchCommand`].
pub struct CommandView {
    pub command: Seq<char>,
    pub args: Seq<Seq<char>>,
    pub env: Seq<(Seq<char>, Seq<char>)>,
}

impl CommandView {
    /// No environment variable is set twice.
    pub open spec fn wf(self) -> bool {
        forall|i: int, j: int|
            0 <= i < j < self.env.len() ==> (#[trigger] self.env[i]).0 != (#[trigger] self.env[j]).0
    }

    /// The environment sets the variable `name`.
    pub open spec fn sets(self, name: Seq<char>) -> bool {
        exists|i: int| 0 <= i < self.env.len() && (#[trigger] self.env[i]).0 == name
    }

    /// The environment sets the variable `name` to `value`.
    pub open spec fn sets_to(self, name: Seq<char>, value: Seq<char>) -> bool {
        exists|i: int| 0 <= i < self.env.len() && #[trigger] self.env[i] == (name, value)
    }
}

impl View for LaunchCommand {
    type V = CommandView;

    open spec fn view(&self) -> CommandView {
        CommandView {
            command: self.command@,
            args: self.args.deep_view(),
            env: self.env.deep_view(),
        }
    }
}

impl LaunchCommand {
    /// The value that the environment gives the variable `name`: that of the
    /// first entry with this name, and nothing where there is no such entry.
    pub fn variable(&self, name: &str) -> (value: Option<&str>)
        ensures
            value is Some <==> self@.sets(name@),
            value matches Some(text) ==> exists|i: int|
                0 <= i < self@.env.len() && #[trigger] self@.env[i] == (name@, text@) && forall|
                    j: int,
                | 0 <= j < i ==> (#[trigger] self@.env[j]).0 != name@,
    {
        let wanted = name.to_owned();
        let mut at: usize = 0;
        while at < self.env.len()
            invariant
                at <= self.env.len(),
                wanted@ == name@,
                forall|j: int| 0 <= j < at ==> (#[trigger] self@.env[j]).0 != name@,
            decreases self.env.len() - at,
        {
            if self.env[at].0 == wanted {
                assert(self@.env[at as int] == (name@, self.env[at as int].1@));
                return Some(self.env[at].1.as_str());
            }
            at += 1;
        }
        None
    }
}

/// The command that the settings call for. The program is the one that the
/// settings name, else the default tool; it is told to run the server's
/// package, and no directory is named: the tool looks for the package from
/// where the host starts it. The environment carries the credential and the
/// index's name, and the program's name only where the settings name one.
pub open spec fn launch_of(settings: SettingsView) -> CommandView {
    CommandView {
        command: match settings.python_path {
            Some(path) => path,
            None => DEFAULT_TOOL@,
        },
        args: seq![RUN_SUBCOMMAND@, SERVER_PACKAGE@],
        env: seq![(API_KEY_VAR@, settings.api_key), (INDEX_NAME_VAR@, settings.index_name)]
            + match settings.python_path {
            Some(path) => seq![(PYTHON_PATH_VAR@, path)],
            None => Seq::empty(),
        },
    }
}

/// The three variable names differ from one another.
pub proof fn lemma_variable_names_differ()
    ensures
        API_KEY_VAR@ != INDEX_NAME_VAR@,
        API_KEY_VAR@ != PYTHON_PATH_VAR@,
        INDEX_NAME_VAR@ != PYTHON_PATH_VAR@,
{
    reveal_strlit("PINECONE_API_KEY");
    reveal_strlit("PINECONE_INDEX_NAME");
    reveal_strlit("PYTHON_PATH");
    assert(API_KEY_VAR@.len() == 16);
    assert(INDEX_NAME_VAR@.len() == 19);
    assert(PYTHON_PATH_VAR@.len() == 11);
}

/// The command that settings call for sets no variable twice.
pub proof fn lemma_launch_wf(settings: SettingsView)
    ensures
        launch_of(settings).wf(),
{
    lemma_variable_names_differ();
}

/// The environment of the command built for `settings` sets the credential
/// and the index's name, each to its value; it sets the program's variable
/// exactly where the settings name a program, and then to that name; and it
/// sets nothing else.
pub proof fn lemma_environment_of_launch(settings: SettingsView)
    ensures
        launch_of(settings).sets_to(API_KEY_VAR@, settings.api_key),
        launch_of(settings).sets_to(INDEX_NAME_VAR@, settings.index_name),
        launch_of(settings).sets(PYTHON_PATH_VAR@) <==> settings.python_path is Some,
        settings.python_path matches Some(path) ==> launch_of(settings).sets_to(
            PYTHON_PATH_VAR@,
            path,
        ) && launch_of(settings).command == path,
        forall|name: Seq<char>| #[trigger]
            launch_of(settings).sets(name) ==> name == API_KEY_VAR@ || name == INDEX_NAME_VAR@
                || name == PYTHON_PATH_VAR@,
        forall|name: Seq<char>, value: Seq<char>| #[trigger]
            launch_of(settings).sets_to(name, value) ==> (name == API_KEY_VAR@ && value
                == settings.api_key) || (name == INDEX_NAME_VAR@ && value == settings.index_name)
                || (name == PYTHON_PATH_VAR@ && settings.python_path == Some(value)),
{
    lemma_variable_names_differ();
    let launch = launch_of(settings);
    assert(launch.env[0] == (API_KEY_VAR@, settings.api_key));
    assert(launch.env[1] == (INDEX_NAME_VAR@, settings.index_name));
    if let Some(path) = settings.python_path {
        assert(launch.env[2] == (PYTHON_PATH_VAR@, path));
    }
}

/// Builds the launch command for the settings. The environment sets the
/// program's variable if and only if the settings name a program.
pub fn build_command(settings: PineconeSettings) -> (launch: LaunchCommand)
    ensures
        launch@ == launch_of(settings@),
        launch@.wf(),
        launch@.sets(PYTHON_PATH_VAR@) <==> settings@.python_path is Some,
{
    let PineconeSettings { api_key, index_name, python_path } = settings;
    let mut args: Vec<String> = Vec::new();
    args.push(RUN_SUBCOMMAND.to_owned());
    args.push(SERVER_PACKAGE.to_owned());
    let mut env: Vec<(String, String)> = Vec::new();
    env.push((API_KEY_VAR.to_owned(), api_key));
    env.push((INDEX_NAME_VAR.to_owned(), index_name));
    let command = match python_path {
        Some(path) => {
            env.push((PYTHON_PATH_VAR.to_owned(), path.clone()));
            path
        },
        None => DEFAULT_TOOL.to_owned(),
    };
    let launch = LaunchCommand { command, args, env };
    proof {
        lemma_launch_wf(settings@);
        lemma_environment_of_launch(settings@);
        assert(launch@.args =~= launch_of(settings@).args);
        assert(launch@.env =~= launch_of(settings@).env);
    }
    launch
}

} // verus!
