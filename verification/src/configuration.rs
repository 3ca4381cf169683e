//! The runtime environment that the settings are read for.

use vstd::prelude::*;
use vstd::string::*;
use crate::text::str_eq;

verus! {

/// The possible runtime environments of the application.
#[derive(Debug, Clone, Copy, PartialEq, Eq, Structural)]
pub enum Environment {
    Local,
    Production,
}

/// The lowercase form of a text, as `str::to_lowercase` gives it.
pub uninterp spec fn lowercase(s: Seq<char>) -> Seq<char>;

/// `str::to_lowercase` returns the lowercase equivalent of the text, by the
/// Unicode rules; it depends on the text alone.
#[verifier::external_body]
pub(crate) fn to_lowercase(s: &str) -> (r: String)
    ensures
        r@ == lowercase(s@),
{
    s.to_lowercase()
}

/// The name of each environment.
pub open spec fn environment_name(environment: Environment) -> Seq<char> {
    match environment {
        Environment::Local => "local"@,
        Environment::Production => "production"@,
    }
}

/// The environment that a lowercase name stands for.
pub open spec fn environment_named(name: Seq<char>) -> Option<Environment> {
    if name == "local"@ {
        Some(Environment::Local)
    } else if name == "production"@ {
        Some(Environment::Production)
    } else {
        None
    }
}

/// The message for a name that stands for no environment.
pub open spec fn unsupported_environment(name: Seq<char>) -> Seq<char> {
    name + " is not a supported environment. Use either `local` or `production`."@
}

impl Environment {
    /// The name of the environment, which is also the stem of its settings
    /// file.
    pub fn as_str(&self) -> (r: &'static str)
        ensures
            r@ == environment_name(*self),
    {
        match self {
            Environment::Local => "local",
            Environment::Production => "production",
        }
    }

    /// Reads an environment from its name, whatever the case of its
    /// letters.
    pub fn try_from(s: String) -> (r: Result<Environment, String>)
        ensures
            r is Ok <==> environment_named(lowercase(s@)) is Some,
            r matches Ok(environment) ==> environment_named(lowercase(s@)) == Some(environment),
            r matches Err(message) ==> message@ == unsupported_environment(lowercase(s@)),
    {
        Self::from_lowercase(to_lowercase(s.as_str()))
    }

    /// Reads an environment from a name in lowercase: `local` or
    /// `production`; any other name is turned down with a message that
    /// names it.
    pub fn from_lowercase(name: String) -> (r: Result<Environment, String>)
        ensures
            r is Ok <==> environment_named(name@) is Some,
            r matches Ok(environment) ==> environment_named(name@) == Some(environment),
            r matches Err(message) ==> message@ == unsupported_environment(name@),
    {
        if str_eq(name.as_str(), "local") {
            Ok(Environment::Local)
        } else if str_eq(name.as_str(), "production") {
            Ok(Environment::Production)
        } else {
            let mut message = name;
            message.append(" is not a supported environment. Use either `local` or `production`.");
            Err(message)
        }
    }
}

/// Every environment is read back from its own name.
pub proof fn lemma_environment_name_round_trip(environment: Environment)
    ensures
        environment_named(environment_name(environment)) == Some(environment),
{
    reveal_strlit("local");
    reveal_strlit("production");
    if environment == Environment::Production {
        assert("production"@.len() != "local"@.len());
    }
}

} // verus!
