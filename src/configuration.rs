//! The settings the application runs with.
use vstd::prelude::*;
use vstd::string::StringExecFns;

verus! {

/// The environments the application knows.
#[derive(Debug, Clone, Copy, PartialEq, Eq, Structural)]
pub enum Environment {
    Local,
    Production,
}

/// What `str::to_lowercase` gives for `s`.
pub uninterp spec fn lower_of(s: Seq<char>) -> Seq<char>;

/// Relies on `str::to_lowercase`, whose result depends on the characters alone.
#[verifier::external_body]
fn lowercase(s: &str) -> (r: String)
    ensures
        r@ == lower_of(s@),
{
    s.to_lowercase()
}

pub open spec fn environment_of(s: Seq<char>) -> Option<Environment> {
    if lower_of(s) == "local"@ {
        Some(Environment::Local)
    } else if lower_of(s) == "production"@ {
        Some(Environment::Production)
    } else {
        None
    }
}

impl Environment {
    /// The name of the environment, as in its settings file.
    pub fn as_str(&self) -> (r: &'static str)
        ensures
            *self == Environment::Local ==> r@ == "local"@,
            *self == Environment::Production ==> r@ == "production"@,
    {
        match self {
            Environment::Local => "local",
            Environment::Production => "production",
        }
    }

    /// The environment with this lowercase name, if any.
    pub fn from_lowercase(lower: &String) -> (r: Option<Environment>)
        ensures
            lower@ == "local"@ ==> r == Some(Environment::Local),
            lower@ == "production"@ ==> r == Some(Environment::Production),
            lower@ != "local"@ && lower@ != "production"@ ==> r is None,
    {
        proof {
            reveal_strlit("local");
            reveal_strlit("production");
            assert("local"@.len() != "production"@.len());
        }
        if *lower == "local".to_owned() {
            Some(Environment::Local)
        } else if *lower == "production".to_owned() {
            Some(Environment::Production)
        } else {
            None
        }
    }

    /// Reads an environment name, in any case.
    pub fn try_from(s: String) -> (r: Result<Environment, String>)
        ensures
            r is Ok <==> environment_of(s@) is Some,
            r matches Ok(e) ==> environment_of(s@) == Some(e),
            r matches Err(m) ==> m@ == lower_of(s@)
                + " is not a supported environment. Please use either `local` or `production`."@,
    {
        let lower = lowercase(s.as_str());
        match Environment::from_lowercase(&lower) {
            Some(e) => Ok(e),
            None => {
                let mut msg = lower;
                msg.append(
                    " is not a supported environment. Please use either `local` or `production`.",
                );
                Err(msg)
            },
        }
    }
}

/// Where the application listens and the URL it is reached at.
#[derive(Debug, Clone)]
pub struct ApplicationSettings {
    pub port: u16,
    pub host: String,
    pub base_url: String,
}

/// The URL that confirmation links start with.
#[derive(Debug, Clone)]
pub struct ApplicationBaseUrl(pub String);

} // verus!
