//! The deployment environment.

use vstd::prelude::*;
use vstd::string::StringExecFns;
use crate::text::same_text;

verus! {

#[derive(Debug, Clone, Copy, PartialEq, Eq, Structural)]
pub enum Environment {
    Development,
    Production,
}

/// The lower-case form of a text, as Unicode defines it.
pub uninterp spec fn lowercase(text: Seq<char>) -> Seq<char>;

/// The lower-case form of `text`. Calls `str::to_lowercase`; what is claimed
/// of it is that the result is a function of the text alone.
#[verifier::external_body]
fn to_lowercase(text: &str) -> (lowered: String)
    ensures
        lowered@ == lowercase(text@),
{
    text.to_lowercase()
}

impl Environment {
    /// The environment that a lower-case name stands for: production for
    /// `production`, development for every other text.
    pub open spec fn named(lowered: Seq<char>) -> Environment {
        if lowered == "production"@ {
            Environment::Production
        } else {
            Environment::Development
        }
    }

    /// The lower-case name of the environment.
    pub open spec fn name(self) -> Seq<char> {
        match self {
            Environment::Development => "development"@,
            Environment::Production => "production"@,
        }
    }

    /// The environment that the lower-case name `lowered` stands for.
    pub fn from_lowercase(lowered: &str) -> (e: Environment)
        ensures
            e == Environment::named(lowered@),
    {
        if same_text(lowered, "production") {
            Environment::Production
        } else {
            Environment::Development
        }
    }

    /// The environment that `s` names, whatever the case of its letters.
    /// Every text that does not name production stands for development.
    pub fn from_string(s: &str) -> (e: Environment)
        ensures
            e == Environment::named(lowercase(s@)),
    {
        let lowered = to_lowercase(s);
        Environment::from_lowercase(lowered.as_str())
    }

    /// The origin whose pages may call the service.
    pub open spec fn origin(self) -> Seq<char> {
        match self {
            Environment::Development => "http://localhost:3000"@,
            Environment::Production => "https://echelongpt.com"@,
        }
    }

    /// The origin whose pages may call the service.
    pub fn allowed_origin(&self) -> (origin: &'static str)
        ensures
            origin@ == self.origin(),
    {
        match self {
            Environment::Development => "http://localhost:3000",
            Environment::Production => "https://echelongpt.com",
        }
    }

    /// Renders the environment as its lower-case name.
    pub fn to_string(&self) -> (s: String)
        ensures
            s@ == self.name(),
    {
        match self {
            Environment::Development => String::from_str("development"),
            Environment::Production => String::from_str("production"),
        }
    }
}

} // verus!
