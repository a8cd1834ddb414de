//! The user's configuration: where it lives, what a new one looks like, and
//! the defaults it falls back on.

use vstd::prelude::*;
use crate::text::string_views;

verus! {

/// The server that the client talks to when the configuration names none.
pub open spec fn default_base_url_text() -> Seq<char> {
    "https://newracom.atlassian.net"@
}

/// The server that the client talks to when the configuration names none.
pub fn default_base_url() -> (res: String)
    ensures
        res@ == default_base_url_text(),
{
    "https://newracom.atlassian.net".to_owned()
}

/// The components of the configuration file's path: the home directory,
/// then the names joined onto it one by one.
pub open spec fn config_path_components(home: Seq<char>) -> Seq<Seq<char>> {
    seq![home, ".config"@, "jira-tui"@, "config.toml"@]
}

/// The error when neither home variable is set.
pub open spec fn no_home_message() -> Seq<char> {
    "Cannot determine home directory ($HOME is not set)"@
}

/// The template written to a new configuration file.
pub open spec fn config_template_text() -> Seq<char> {
    "email = \"your.email@newracom.com\"\napi_token = \"your-api-token-here\"\n# base_url = \"https://newracom.atlassian.net\"\n"@
}

/// The error that reports a freshly written template.
pub open spec fn created_message_text(path: Seq<char>) -> Seq<char> {
    "Config file created at "@ + path
        + "\nEdit it with your credentials and run again.\nGet an API token at: https://id.atlassian.com/manage-profile/security/api-tokens"@
}

/// The user's settings.
pub struct Config {
    pub email: String,
    pub api_token: String,
    pub base_url: String,
}

impl Config {
    /// The settings read from a file: the server defaults where the file
    /// names none.
    pub fn from_fields(email: String, api_token: String, base_url: Option<String>) -> (res: Config)
        ensures
            res.email@ == email@,
            res.api_token@ == api_token@,
            res.base_url@ == (match base_url {
                Some(u) => u@,
                None => default_base_url_text(),
            }),
    {
        let base_url = match base_url {
            Some(u) => u,
            None => default_base_url(),
        };
        Config { email, api_token, base_url }
    }

    /// The path of the configuration file, from the values of the `HOME` and
    /// `USERPROFILE` variables (`None` where a variable is unset or not
    /// Unicode); `HOME` is preferred. The path is given as its components:
    /// the home directory, then the names that the platform's path rules
    /// join onto it in turn.
    pub fn config_path(home: Option<&str>, user_profile: Option<&str>) -> (res: Result<Vec<String>, String>)
        ensures
            (home is None && user_profile is None) <==> res is Err,
            res matches Err(msg) ==> msg@ == no_home_message(),
            res matches Ok(parts) ==> string_views(parts@) == config_path_components(
                match home {
                    Some(h) => h@,
                    None => user_profile.unwrap()@,
                },
            ),
    {
        let dir = match home {
            Some(h) => h,
            None => match user_profile {
                Some(u) => u,
                None => {
                    return Err("Cannot determine home directory ($HOME is not set)".to_owned());
                },
            },
        };
        let mut parts: Vec<String> = Vec::new();
        parts.push(dir.to_owned());
        parts.push(".config".to_owned());
        parts.push("jira-tui".to_owned());
        parts.push("config.toml".to_owned());
        assert(string_views(parts@) =~= config_path_components(dir@));
        Ok(parts)
    }

    /// The text written to a configuration file that does not exist yet.
    pub fn template() -> (res: String)
        ensures
            res@ == config_template_text(),
    {
        "email = \"your.email@newracom.com\"\napi_token = \"your-api-token-here\"\n# base_url = \"https://newracom.atlassian.net\"\n".to_owned()
    }

    /// The error reported after the template was written to `path`.
    pub fn created_message(path: &str) -> (res: String)
        ensures
            res@ == created_message_text(path@),
    {
        let mut msg = "Config file created at ".to_owned();
        msg.append(path);
        msg.append(
            "\nEdit it with your credentials and run again.\nGet an API token at: https://id.atlassian.com/manage-profile/security/api-tokens",
        );
        msg
    }

    /// The context of an error reading the file at `path`.
    pub fn read_failure_context(path: &str) -> (res: String)
        ensures
            res@ == "Failed to read "@ + path@,
    {
        "Failed to read ".to_owned().concat(path)
    }

    /// The context of an error parsing the file at `path`.
    pub fn parse_failure_context(path: &str) -> (res: String)
        ensures
            res@ == "Failed to parse "@ + path@,
    {
        "Failed to parse ".to_owned().concat(path)
    }
}

} // verus!
