//! Errors raised when a business rule of the domain is broken.
use vstd::prelude::*;
use crate::text::{concat, decimal, decimal_text, owned};

verus! {

/// A broken business rule.
#[derive(Debug, Clone, PartialEq)]
pub enum DomainError {
    InvalidProjectName(String),
    EmptyProjectName,
    ProjectNameTooLong(usize),
    InvalidCharactersInName(String),
    InvalidProjectId(String),
    ProjectAlreadyExists(String),
    ProjectNotFound(String),
    InvalidLanguage(String),
    InvalidArchitecture(String),
    InvalidStatus(String),
    InvalidStatusTransition { from: String, to: String },
    EmptyFrameworkName,
    DuplicateFramework(String),
    EmptyPortfolio,
    ValidationError(String),
}

/// The mathematical model of a [`DomainError`]: the same variant, with every
/// text taken as its sequence of characters.
pub enum DomainErrorView {
    InvalidProjectName(Seq<char>),
    EmptyProjectName,
    ProjectNameTooLong(nat),
    InvalidCharactersInName(Seq<char>),
    InvalidProjectId(Seq<char>),
    ProjectAlreadyExists(Seq<char>),
    ProjectNotFound(Seq<char>),
    InvalidLanguage(Seq<char>),
    InvalidArchitecture(Seq<char>),
    InvalidStatus(Seq<char>),
    InvalidStatusTransition { from: Seq<char>, to: Seq<char> },
    EmptyFrameworkName,
    DuplicateFramework(Seq<char>),
    EmptyPortfolio,
    ValidationError(Seq<char>),
}

impl View for DomainError {
    type V = DomainErrorView;

    open spec fn view(&self) -> DomainErrorView {
        match self {
            DomainError::InvalidProjectName(s) => DomainErrorView::InvalidProjectName(s@),
            DomainError::EmptyProjectName => DomainErrorView::EmptyProjectName,
            DomainError::ProjectNameTooLong(n) => DomainErrorView::ProjectNameTooLong(*n as nat),
            DomainError::InvalidCharactersInName(s) => DomainErrorView::InvalidCharactersInName(s@),
            DomainError::InvalidProjectId(s) => DomainErrorView::InvalidProjectId(s@),
            DomainError::ProjectAlreadyExists(s) => DomainErrorView::ProjectAlreadyExists(s@),
            DomainError::ProjectNotFound(s) => DomainErrorView::ProjectNotFound(s@),
            DomainError::InvalidLanguage(s) => DomainErrorView::InvalidLanguage(s@),
            DomainError::InvalidArchitecture(s) => DomainErrorView::InvalidArchitecture(s@),
            DomainError::InvalidStatus(s) => DomainErrorView::InvalidStatus(s@),
            DomainError::InvalidStatusTransition { from, to } => {
                DomainErrorView::InvalidStatusTransition { from: from@, to: to@ }
            },
            DomainError::EmptyFrameworkName => DomainErrorView::EmptyFrameworkName,
            DomainError::DuplicateFramework(s) => DomainErrorView::DuplicateFramework(s@),
            DomainError::EmptyPortfolio => DomainErrorView::EmptyPortfolio,
            DomainError::ValidationError(s) => DomainErrorView::ValidationError(s@),
        }
    }
}

/// The message a [`DomainError`] is reported with.
pub open spec fn domain_error_text(e: DomainErrorView) -> Seq<char> {
    match e {
        DomainErrorView::InvalidProjectName(s) => "Invalid project name: "@ + s,
        DomainErrorView::EmptyProjectName => "Project name cannot be empty"@,
        DomainErrorView::ProjectNameTooLong(n) => "Project name too long (max 255 characters): got "@
            + decimal(n) + " characters"@,
        DomainErrorView::InvalidCharactersInName(s) => "Project name contains invalid characters: "@
            + s,
        DomainErrorView::InvalidProjectId(s) => "Invalid project ID: "@ + s,
        DomainErrorView::ProjectAlreadyExists(s) => "Project already exists: "@ + s,
        DomainErrorView::ProjectNotFound(s) => "Project not found: "@ + s,
        DomainErrorView::InvalidLanguage(s) => "Invalid language: "@ + s,
        DomainErrorView::InvalidArchitecture(s) => "Invalid architecture: "@ + s,
        DomainErrorView::InvalidStatus(s) => "Invalid status: "@ + s,
        DomainErrorView::InvalidStatusTransition { from, to } => "Invalid status transition from "@
            + from + " to "@ + to,
        DomainErrorView::EmptyFrameworkName => "Framework name cannot be empty"@,
        DomainErrorView::DuplicateFramework(s) => "Duplicate framework: "@ + s,
        DomainErrorView::EmptyPortfolio => "Portfolio is empty"@,
        DomainErrorView::ValidationError(s) => "Validation error: "@ + s,
    }
}

impl DomainError {
    /// The message the error is reported with.
    pub fn message(&self) -> (r: String)
        ensures
            r@ == domain_error_text(self@),
    {
        match self {
            DomainError::InvalidProjectName(s) => concat("Invalid project name: ", s.as_str()),
            DomainError::EmptyProjectName => owned("Project name cannot be empty"),
            DomainError::ProjectNameTooLong(n) => {
                let head = concat(
                    "Project name too long (max 255 characters): got ",
                    decimal_text(*n).as_str(),
                );
                concat(head.as_str(), " characters")
            },
            DomainError::InvalidCharactersInName(s) => concat(
                "Project name contains invalid characters: ",
                s.as_str(),
            ),
            DomainError::InvalidProjectId(s) => concat("Invalid project ID: ", s.as_str()),
            DomainError::ProjectAlreadyExists(s) => concat("Project already exists: ", s.as_str()),
            DomainError::ProjectNotFound(s) => concat("Project not found: ", s.as_str()),
            DomainError::InvalidLanguage(s) => concat("Invalid language: ", s.as_str()),
            DomainError::InvalidArchitecture(s) => concat("Invalid architecture: ", s.as_str()),
            DomainError::InvalidStatus(s) => concat("Invalid status: ", s.as_str()),
            DomainError::InvalidStatusTransition { from, to } => {
                let a = concat("Invalid status transition from ", from.as_str());
                let b = concat(a.as_str(), " to ");
                concat(b.as_str(), to.as_str())
            },
            DomainError::EmptyFrameworkName => owned("Framework name cannot be empty"),
            DomainError::DuplicateFramework(s) => concat("Duplicate framework: ", s.as_str()),
            DomainError::EmptyPortfolio => owned("Portfolio is empty"),
            DomainError::ValidationError(s) => concat("Validation error: ", s.as_str()),
        }
    }
}

} // verus!
