//! The `new` command: the creation command it asks for.
use vstd::prelude::*;
use vstd::string::*;
use crate::application::dto::commands::CreateProjectCommand;
use crate::domain::errors::{DomainError, DomainErrorView};
use crate::domain::models::enums::{Architecture, Language, architecture_named, language_named};
use crate::text::unicode_lowercase;

verus! {

/// The creation command that a `new` command asks for: the language is
/// read, then the architecture (each refused as a domain error naming what
/// was given); the project goes under the portfolio root.
pub fn creation_command(
    portfolio_root: String,
    name: String,
    language: String,
    architecture: String,
    description: Option<String>,
) -> (r: Result<CreateProjectCommand, DomainError>)
    ensures
        match language_named(unicode_lowercase(language@)) {
            None => r matches Err(e) && e@ == DomainErrorView::InvalidLanguage(language@),
            Some(l) => match architecture_named(unicode_lowercase(architecture@)) {
                None => r matches Err(e) && e@ == DomainErrorView::InvalidArchitecture(
                    architecture@,
                ),
                Some(a) => r matches Ok(c) && c.name@ == name@ && c.language == l
                    && c.architecture == a && c.base_path@ == portfolio_root@ && match description {
                    Some(d) => c.description matches Some(x) && x@ == d@,
                    None => c.description is None,
                },
            },
        },
{
    let lang = match Language::parse(language.as_str()) {
        Ok(l) => l,
        Err(e) => return Err(e),
    };
    let arch = match Architecture::parse(architecture.as_str()) {
        Ok(a) => a,
        Err(e) => return Err(e),
    };
    let command = CreateProjectCommand::new(name, lang, arch, portfolio_root);
    match description {
        Some(d) => Ok(command.with_description(d)),
        None => Ok(command),
    }
}

} // verus!
