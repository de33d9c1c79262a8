//! The configuration as read from its file: the settings, with a token that
//! the environment overrides, and the refusal to overwrite a file.
use vstd::prelude::*;
use vstd::string::*;
use crate::text::{concat, owned};

pub use crate::infrastructure::config::Config;

verus! {

/// The settings read from a file, with the token that the environment
/// holds, if any, in place of the file's.
pub fn with_environment_token(config: Config, token: Option<&str>) -> (r: Config)
    ensures
        r.portfolio_root == config.portfolio_root,
        r.gitlab_url == config.gitlab_url,
        r.templates_dir == config.templates_dir,
        r.default_editor == config.default_editor,
        r.cache_dir == config.cache_dir,
        match token {
            Some(t) => r.gitlab_token matches Some(g) && g@ == t@,
            None => r.gitlab_token == config.gitlab_token,
        },
{
    let mut config = config;
    if let Some(t) = token {
        config.gitlab_token = Some(owned(t));
    }
    config
}

/// The message refusing to overwrite a configuration file.
pub open spec fn already_exists_message(config_path: Seq<char>) -> Seq<char> {
    "Configuration file already exists at: "@ + config_path + "\nUse --force to overwrite"@
}

/// Whether a configuration file may be written at `config_path`: not when
/// one exists there, unless `force` is given.
pub fn check_init(config_path: &str, already_exists: bool, force: bool) -> (r: Result<(), String>)
    ensures
        (r is Ok) <==> (!already_exists || force),
        r matches Err(m) ==> m@ == already_exists_message(config_path@),
{
    if already_exists && !force {
        let mut m = concat("Configuration file already exists at: ", config_path);
        m.append("\nUse --force to overwrite");
        return Err(m);
    }
    Ok(())
}

} // verus!
