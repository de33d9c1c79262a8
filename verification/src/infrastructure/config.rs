//! Configuration: its fields, its defaults, where it is looked for, and
//! when it may be written.
use vstd::prelude::*;
use vstd::string::*;
use crate::infrastructure::errors::InfrastructureError;
use crate::text::{concat, join_path, owned, path_join};

verus! {

/// Settings of the tool.
#[derive(Debug, Clone)]
pub struct ConfigStructure {
    pub portfolio_root: String,
    pub gitlab_url: String,
    pub templates_dir: String,
    pub default_editor: String,
    pub cache_dir: Option<String>,
}

/// Settings of the tool, with the token for the GitLab instance.
#[derive(Debug, Clone)]
pub struct Config {
    pub portfolio_root: String,
    pub gitlab_url: String,
    pub gitlab_token: Option<String>,
    pub templates_dir: String,
    pub default_editor: String,
    pub cache_dir: Option<String>,
}

/// The directory the defaults are relative to: the working directory, or
/// `.` when it is unknown.
pub open spec fn base_dir(current_dir: Option<Seq<char>>) -> Seq<char> {
    match current_dir {
        Some(d) => d,
        None => "."@,
    }
}

/// The editor by default: the one the environment names, or `code`.
pub open spec fn editor_or_default(editor: Option<Seq<char>>) -> Seq<char> {
    match editor {
        Some(e) => e,
        None => "code"@,
    }
}

pub open spec fn opt_view(o: Option<&str>) -> Option<Seq<char>> {
    match o {
        Some(s) => Some(s@),
        None => None,
    }
}

pub open spec fn opt_string_view(o: Option<String>) -> Option<Seq<char>> {
    match o {
        Some(s) => Some(s@),
        None => None,
    }
}

fn base_dir_text(current_dir: Option<&str>) -> (r: String)
    ensures
        r@ == base_dir(opt_view(current_dir)),
{
    match current_dir {
        Some(d) => owned(d),
        None => owned("."),
    }
}

fn editor_text(editor: Option<&str>) -> (r: String)
    ensures
        r@ == editor_or_default(opt_view(editor)),
{
    match editor {
        Some(e) => owned(e),
        None => owned("code"),
    }
}

impl ConfigStructure {
    /// The settings by default, given the working directory and the editor
    /// that the environment names: the projects under the working directory,
    /// the public GitLab instance, `templates` and `.cache` under it.
    pub fn from_environment(current_dir: Option<&str>, editor: Option<&str>) -> (r: ConfigStructure)
        ensures
            r.portfolio_root@ == base_dir(opt_view(current_dir)),
            r.gitlab_url@ == "https://gitlab.com"@,
            r.templates_dir@ == path_join(base_dir(opt_view(current_dir)), "templates"@),
            r.default_editor@ == editor_or_default(opt_view(editor)),
            r.cache_dir matches Some(c) && c@ == path_join(base_dir(opt_view(current_dir)), ".cache"@),
    {
        let dir = base_dir_text(current_dir);
        ConfigStructure {
            templates_dir: join_path(dir.as_str(), "templates"),
            cache_dir: Some(join_path(dir.as_str(), ".cache")),
            gitlab_url: owned("https://gitlab.com"),
            default_editor: editor_text(editor),
            portfolio_root: dir,
        }
    }

    /// Checks the settings, given whether the portfolio root exists.
    pub fn validate(&self, root_exists: bool) -> (r: Result<(), String>)
        ensures
            (r is Ok) <==> root_exists,
            r matches Err(m) ==> m@ == "Portfolio root does not exist: "@ + self.portfolio_root@,
    {
        if !root_exists {
            return Err(concat("Portfolio root does not exist: ", self.portfolio_root.as_str()));
        }
        Ok(())
    }
}

impl Config {
    /// The settings by default, given the working directory and what the
    /// environment holds for the token and the editor.
    pub fn from_environment(current_dir: Option<&str>, token: Option<&str>, editor: Option<&str>) -> (r:
        Config)
        ensures
            r.portfolio_root@ == base_dir(opt_view(current_dir)),
            r.gitlab_url@ == "https://gitlab.com"@,
            opt_string_view(r.gitlab_token) == opt_view(token),
            r.templates_dir@ == path_join(base_dir(opt_view(current_dir)), "templates"@),
            r.default_editor@ == editor_or_default(opt_view(editor)),
            r.cache_dir matches Some(c) && c@ == path_join(base_dir(opt_view(current_dir)), ".cache"@),
    {
        let dir = base_dir_text(current_dir);
        let gitlab_token = match token {
            Some(t) => Some(owned(t)),
            None => None,
        };
        Config {
            templates_dir: join_path(dir.as_str(), "templates"),
            cache_dir: Some(join_path(dir.as_str(), ".cache")),
            gitlab_url: owned("https://gitlab.com"),
            gitlab_token,
            default_editor: editor_text(editor),
            portfolio_root: dir,
        }
    }
}

/// Where the configuration is looked for: the path given, else
/// `portfolio.toml` in the working directory when it exists there, else
/// `portfolio-cli/config.toml` in the user's configuration directory,
/// else `portfolio.toml`.
pub open spec fn config_path_choice(
    custom: Option<Seq<char>>,
    current_dir: Option<Seq<char>>,
    local_config_exists: bool,
    user_config_dir: Option<Seq<char>>,
) -> Seq<char> {
    match custom {
        Some(p) => p,
        None => if current_dir is Some && local_config_exists {
            path_join(current_dir->0, "portfolio.toml"@)
        } else {
            match user_config_dir {
                Some(c) => path_join(path_join(c, "portfolio-cli"@), "config.toml"@),
                None => "portfolio.toml"@,
            }
        },
    }
}

/// Reads and writes the configuration file.
pub struct ConfigLoader;

impl ConfigLoader {
    /// The configuration file of a working directory.
    pub fn local_config_path(current_dir: &str) -> (r: String)
        ensures
            r@ == path_join(current_dir@, "portfolio.toml"@),
    {
        join_path(current_dir, "portfolio.toml")
    }

    /// Where the configuration is looked for (see [`config_path_choice`]);
    /// `local_config_exists` tells whether the working directory's
    /// configuration file exists.
    pub fn resolve_config_path(
        custom: Option<&str>,
        current_dir: Option<&str>,
        local_config_exists: bool,
        user_config_dir: Option<&str>,
    ) -> (r: String)
        ensures
            r@ == config_path_choice(
                opt_view(custom),
                opt_view(current_dir),
                local_config_exists,
                opt_view(user_config_dir),
            ),
    {
        if let Some(p) = custom {
            return owned(p);
        }
        if let Some(d) = current_dir {
            if local_config_exists {
                return ConfigLoader::local_config_path(d);
            }
        }
        match user_config_dir {
            Some(c) => {
                let dir = join_path(c, "portfolio-cli");
                join_path(dir.as_str(), "config.toml")
            },
            None => owned("portfolio.toml"),
        }
    }

    /// Where the configuration is looked for when no path is given.
    pub fn default_config_path(
        current_dir: Option<&str>,
        local_config_exists: bool,
        user_config_dir: Option<&str>,
    ) -> (r: String)
        ensures
            r@ == config_path_choice(
                None,
                opt_view(current_dir),
                local_config_exists,
                opt_view(user_config_dir),
            ),
    {
        ConfigLoader::resolve_config_path(None, current_dir, local_config_exists, user_config_dir)
    }

    /// Whether a configuration file may be written at `config_path`: not
    /// when one exists there, unless `force` is given.
    pub fn check_init(config_path: &str, already_exists: bool, force: bool) -> (r: Result<(), InfrastructureError>)
        ensures
            (r is Ok) <==> (!already_exists || force),
            r is Err ==> (r matches Err(InfrastructureError::ConfigNotFound(m)) && m@
                == "Configuration file already exists at: "@ + config_path@),
    {
        if already_exists && !force {
            return Err(
                InfrastructureError::ConfigNotFound(
                    concat("Configuration file already exists at: ", config_path),
                ),
            );
        }
        Ok(())
    }
}

} // verus!
