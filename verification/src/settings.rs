//! The extension's settings and how they are decoded.

use vstd::prelude::*;
use crate::json::{lookup, member_at, member_view, members, Member, MemberView};

verus! {

/// The settings of the extension, decoded.
#[derive(Debug, Clone, PartialEq, Eq)]
pub struct PineconeSettings {
    /// The credential handed to the server.
    pub api_key: String,
    /// The name of the index that the server works on.
    pub index_name: String,
    /// The program that runs the server, where the user names one.
    pub python_path: Option<String>,
}

/// The mathematical value of [`PineconeSettings`].
pub struct SettingsView {
    pub api_key: Seq<char>,
    pub index_name: Seq<char>,
    pub python_path: Option<Seq<char>>,
}

impl View for PineconeSettings {
    type V = SettingsView;

    open spec fn view(&self) -> SettingsView {
        SettingsView {
            api_key: self.api_key@,
            index_name: self.index_name@,
            python_path: match self.python_path {
                Some(path) => Some(path@),
                None => None,
            },
        }
    }
}

/// A key that the settings know.
#[derive(Debug, Clone, Copy, PartialEq, Eq, Structural)]
pub enum SettingKey {
    ApiKey,
    IndexName,
    PythonPath,
}

/// The name of a key, as the settings object spells it.
pub open spec fn key_name(key: SettingKey) -> Seq<char> {
    match key {
        SettingKey::ApiKey => "api_key"@,
        SettingKey::IndexName => "index_name"@,
        SettingKey::PythonPath => "python_path"@,
    }
}

impl SettingKey {
    /// The name of the key, as the settings object spells it.
    pub fn name(self) -> (name: &'static str)
        ensures
            name@ == key_name(self),
    {
        match self {
            SettingKey::ApiKey => "api_key",
            SettingKey::IndexName => "index_name",
            SettingKey::PythonPath => "python_path",
        }
    }
}

/// Why a settings object could not be decoded.
#[derive(Debug, Clone, Copy, PartialEq, Eq, Structural)]
pub enum DecodeFault {
    /// A required key is not there.
    MissingField(SettingKey),
    /// A key holds something that is not a string.
    NotAString(SettingKey),
}

/// What a required key decodes to: its string, or the fault.
pub open spec fn required_text(key: SettingKey, member: Option<MemberView>) -> Result<
    Seq<char>,
    DecodeFault,
> {
    match member {
        None => Err(DecodeFault::MissingField(key)),
        Some(MemberView::Text(text)) => Ok(text),
        Some(_) => Err(DecodeFault::NotAString(key)),
    }
}

/// What an optional key decodes to: its string, nothing where the key is
/// missing or holds `null`, or the fault.
pub open spec fn optional_text(key: SettingKey, member: Option<MemberView>) -> Result<
    Option<Seq<char>>,
    DecodeFault,
> {
    match member {
        None => Ok(None),
        Some(MemberView::Null) => Ok(None),
        Some(MemberView::Text(text)) => Ok(Some(text)),
        Some(MemberView::Other) => Err(DecodeFault::NotAString(key)),
    }
}

/// The settings that the three members decode to. The keys are taken in the
/// order `api_key`, `index_name`, `python_path`, and the first fault wins.
pub open spec fn decoded(
    api_key: Option<MemberView>,
    index_name: Option<MemberView>,
    python_path: Option<MemberView>,
) -> Result<SettingsView, DecodeFault> {
    match required_text(SettingKey::ApiKey, api_key) {
        Err(fault) => Err(fault),
        Ok(api_key) => match required_text(SettingKey::IndexName, index_name) {
            Err(fault) => Err(fault),
            Ok(index_name) => match optional_text(SettingKey::PythonPath, python_path) {
                Err(fault) => Err(fault),
                Ok(python_path) => Ok(SettingsView { api_key, index_name, python_path }),
            },
        },
    }
}

/// The mathematical value of what decoding returns.
pub open spec fn decoding_view(outcome: Result<PineconeSettings, DecodeFault>) -> Result<
    SettingsView,
    DecodeFault,
> {
    match outcome {
        Ok(settings) => Ok(settings@),
        Err(fault) => Err(fault),
    }
}

fn take_required(key: SettingKey, member: Option<Member>) -> (text: Result<String, DecodeFault>)
    ensures
        match text {
            Ok(t) => required_text(key, member_view(member)) == Ok::<Seq<char>, DecodeFault>(t@),
            Err(fault) => required_text(key, member_view(member)) == Err::<Seq<char>, DecodeFault>(
                fault,
            ),
        },
{
    match member {
        None => Err(DecodeFault::MissingField(key)),
        Some(Member::Text(text)) => Ok(text),
        Some(_) => Err(DecodeFault::NotAString(key)),
    }
}

fn take_optional(key: SettingKey, member: Option<Member>) -> (text: Result<
    Option<String>,
    DecodeFault,
>)
    ensures
        match text {
            Ok(Some(t)) => optional_text(key, member_view(member)) == Ok::<
                Option<Seq<char>>,
                DecodeFault,
            >(Some(t@)),
            Ok(None) => optional_text(key, member_view(member)) == Ok::<
                Option<Seq<char>>,
                DecodeFault,
            >(None),
            Err(fault) => optional_text(key, member_view(member)) == Err::<
                Option<Seq<char>>,
                DecodeFault,
            >(fault),
        },
{
    match member {
        None => Ok(None),
        Some(Member::Null) => Ok(None),
        Some(Member::Text(text)) => Ok(Some(text)),
        Some(Member::Other) => Err(DecodeFault::NotAString(key)),
    }
}

/// Decodes the settings from what the settings object holds under its three
/// keys. Other keys of the object play no part.
pub fn decode_settings(
    api_key: Option<Member>,
    index_name: Option<Member>,
    python_path: Option<Member>,
) -> (outcome: Result<PineconeSettings, DecodeFault>)
    ensures
        decoding_view(outcome) == decoded(
            member_view(api_key),
            member_view(index_name),
            member_view(python_path),
        ),
{
    let api_key = match take_required(SettingKey::ApiKey, api_key) {
        Ok(text) => text,
        Err(fault) => {
            return Err(fault);
        },
    };
    let index_name = match take_required(SettingKey::IndexName, index_name) {
        Ok(text) => text,
        Err(fault) => {
            return Err(fault);
        },
    };
    let python_path = match take_optional(SettingKey::PythonPath, python_path) {
        Ok(text) => text,
        Err(fault) => {
            return Err(fault);
        },
    };
    Ok(PineconeSettings { api_key, index_name, python_path })
}

/// The settings that a settings object with these members decodes to.
pub open spec fn decoded_members(members: Map<Seq<char>, MemberView>) -> Result<
    SettingsView,
    DecodeFault,
> {
    decoded(
        member_at(members, key_name(SettingKey::ApiKey)),
        member_at(members, key_name(SettingKey::IndexName)),
        member_at(members, key_name(SettingKey::PythonPath)),
    )
}

/// Decodes the settings from the settings value: an object with the strings
/// `api_key` and `index_name` and, if it is there and not `null`, the string
/// `python_path`.
pub fn read_settings(value: &serde_json::Value) -> (outcome: Result<PineconeSettings, DecodeFault>)
    ensures
        decoding_view(outcome) == decoded_members(members(*value)),
{
    let api_key = lookup(value, SettingKey::ApiKey.name());
    let index_name = lookup(value, SettingKey::IndexName.name());
    let python_path = lookup(value, SettingKey::PythonPath.name());
    decode_settings(api_key, index_name, python_path)
}

} // verus!
