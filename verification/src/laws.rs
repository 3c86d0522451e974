//! What holds of resolution on every input.

use vstd::prelude::*;
use crate::command::{
    lemma_environment_of_launch,
    lemma_variable_names_differ,
    CommandView,
    LaunchCommand,
    API_KEY_VAR,
    INDEX_NAME_VAR,
    PYTHON_PATH_VAR,
};
use crate::error::{ErrorView, ResolveError};
use crate::json::{member_at, MemberView};
use crate::resolve::{
    complaint,
    decoded_value,
    resolution_view,
    resolved,
    Preflight,
    PreflightView,
};
use crate::settings::decoded_members;

verus! {

/// Settings with the strings `api_key` and `index_name`, and with a
/// `python_path` that is missing, `null` or a string, resolve whenever the
/// probe reports nothing. The command's
/// environment then holds exactly the two values under their variables, and
/// the program's variable if and only if `python_path` is a string.
pub proof fn lemma_complete_settings_resolve(
    members: Map<Seq<char>, MemberView>,
    api_key: Seq<char>,
    index_name: Seq<char>,
    preflight: PreflightView,
)
    requires
        member_at(members, "api_key"@) == Some(MemberView::Text(api_key)),
        member_at(members, "index_name"@) == Some(MemberView::Text(index_name)),
        member_at(members, "python_path"@) != Some(MemberView::Other),
        complaint(preflight) is None,
    ensures
        resolved(Some(decoded_members(members)), preflight) matches Ok(launch) && {
            let supplied = member_at(members, "python_path"@) matches Some(MemberView::Text(_));
            &&& launch.wf()
            &&& launch.sets_to(API_KEY_VAR@, api_key)
            &&& launch.sets_to(INDEX_NAME_VAR@, index_name)
            &&& launch.sets(PYTHON_PATH_VAR@) <==> supplied
            &&& member_at(members, "python_path"@) matches Some(MemberView::Text(path))
                ==> launch.sets_to(PYTHON_PATH_VAR@, path)
            &&& forall|name: Seq<char>| #[trigger]
                launch.sets(name) ==> name == API_KEY_VAR@ || name == INDEX_NAME_VAR@ || (name
                    == PYTHON_PATH_VAR@ && supplied)
        },
{
    let settings = decoded_members(members)->Ok_0;
    lemma_environment_of_launch(settings);
    lemma_variable_names_differ();
}

/// Settings that lack the string `api_key` or the string `index_name` give
/// no command, whatever else they hold and however the probe ended:
/// resolution fails with `InvalidConfiguration`. Where the host holds no
/// settings at all, it fails with `MissingConfiguration`.
pub proof fn lemma_incomplete_settings_fail(
    members: Map<Seq<char>, MemberView>,
    preflight: PreflightView,
)
    requires
        !(member_at(members, "api_key"@) matches Some(MemberView::Text(_))) || !(member_at(
            members,
            "index_name"@,
        ) matches Some(MemberView::Text(_))),
    ensures
        resolved(Some(decoded_members(members)), preflight) matches Err(
            ErrorView::InvalidConfiguration(_),
        ),
        resolved(None, preflight) == Err::<CommandView, ErrorView>(
            ErrorView::MissingConfiguration,
        ),
{
}

/// A probe that reports something stops settings that decode: resolution
/// fails with `DependencyMissing` and what the probe reported, and gives no
/// command.
pub proof fn lemma_failed_probe_stops_launch(
    members: Map<Seq<char>, MemberView>,
    preflight: PreflightView,
)
    requires
        decoded_members(members) is Ok,
        complaint(preflight) is Some,
    ensures
        resolved(Some(decoded_members(members)), preflight) == Err::<CommandView, ErrorView>(
            ErrorView::DependencyMissing(complaint(preflight)->Some_0),
        ),
{
}

/// Resolution succeeds exactly where the host holds settings with the
/// strings `api_key` and `index_name` and with a `python_path` that is
/// missing, `null` or a string, and the probe reports nothing.
pub proof fn lemma_success_exactly(
    settings: Option<Map<Seq<char>, MemberView>>,
    preflight: PreflightView,
)
    ensures
        resolved(
            match settings {
                Some(members) => Some(decoded_members(members)),
                None => None,
            },
            preflight,
        ) is Ok <==> (settings matches Some(members) && member_at(members, "api_key"@) matches Some(
            MemberView::Text(_),
        ) && member_at(members, "index_name"@) matches Some(MemberView::Text(_)) && member_at(
            members,
            "python_path"@,
        ) != Some(MemberView::Other) && complaint(preflight) is None),
{
}

/// Resolution is a function of its input: two calls with the same settings
/// value and the same outcome of the probe return the same
/// command, character for character, or the same error.
pub proof fn lemma_resolution_repeats(
    settings: Option<serde_json::Value>,
    preflight: Preflight,
    first: Result<LaunchCommand, ResolveError>,
    second: Result<LaunchCommand, ResolveError>,
)
    requires
        resolution_view(first) == resolved(decoded_value(settings), preflight@),
        resolution_view(second) == resolved(decoded_value(settings), preflight@),
    ensures
        resolution_view(first) == resolution_view(second),
        first matches Ok(launch) ==> second matches Ok(again) && launch@.command == again@.command
            && launch@.args == again@.args && launch@.env == again@.env,
{
}

/// Where the settings hold no `python_path`, no command that resolution
/// returns sets the program's variable, to any value.
pub proof fn lemma_missing_path_sets_no_variable(
    members: Map<Seq<char>, MemberView>,
    preflight: PreflightView,
)
    requires
        member_at(members, "python_path"@) is None,
    ensures
        resolved(Some(decoded_members(members)), preflight) matches Ok(launch)
            ==> !launch.sets(PYTHON_PATH_VAR@),
{
    if let Ok(settings) = decoded_members(members) {
        lemma_environment_of_launch(settings);
    }
}

} // verus!
