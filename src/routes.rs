//! What the request handlers decide, apart from the HTTP plumbing.
use vstd::prelude::*;
use vstd::string::StringExecFns;

use crate::authentication::AuthError;

verus! {

/// Each cause after the first, one per line.
pub open spec fn causes_text(causes: Seq<Seq<char>>) -> Seq<char>
    decreases causes.len(),
{
    if causes.len() == 0 {
        Seq::empty()
    } else {
        causes_text(causes.drop_last()) + "Caused by:\n\t"@ + causes.last() + "\n"@
    }
}

/// An error and the chain of its causes, as diagnostics print them: the
/// error, a blank line, then one `Caused by:` entry per cause.
pub fn error_chain_fmt(error: &str, causes: &Vec<String>) -> (r: String)
    ensures
        r@ == error@ + "\n\n"@ + causes_text(causes@.map_values(|c: String| c@)),
{
    let ghost cs = causes@.map_values(|c: String| c@);
    let mut out = error.to_owned();
    out.append("\n\n");
    let mut i: usize = 0;
    while i < causes.len()
        invariant
            cs == causes@.map_values(|c: String| c@),
            i <= cs.len(),
            out@ == error@ + "\n\n"@ + causes_text(cs.take(i as int)),
        decreases cs.len() - i,
    {
        assert(cs.take(i + 1).drop_last() =~= cs.take(i as int));
        out.append("Caused by:\n\t");
        out.append(causes[i].as_str());
        out.append("\n");
        i = i + 1;
    }
    assert(cs.take(cs.len() as int) =~= cs);
    out
}

/// Why a login failed.
#[derive(Debug)]
pub enum LoginError {
    AuthError(String),
    UnexpectedError(String),
}

impl LoginError {
    /// The text shown to the user.
    pub fn message(&self) -> (r: String)
        ensures
            self is AuthError ==> r@ == "Authentication Failed"@,
            self is UnexpectedError ==> r@ == "Something went wrong"@,
    {
        match self {
            LoginError::AuthError(_) => "Authentication Failed".to_owned(),
            LoginError::UnexpectedError(_) => "Something went wrong".to_owned(),
        }
    }
}

/// Where a login attempt redirects to: the dashboard, or back to the form
/// with the error.
pub fn login_redirect(result: Result<u128, AuthError>) -> (r: (String, Option<LoginError>))
    ensures
        result is Ok ==> r.0@ == "/admin/dashboard"@ && r.1 is None,
        result matches Err(AuthError::InvalidCredentials(_)) ==> r.0@ == "/login"@ && (
        r.1 matches Some(e) && e is AuthError),
        result matches Err(AuthError::UnexpectedError(_)) ==> r.0@ == "/login"@ && (
        r.1 matches Some(e) && e is UnexpectedError),
{
    match result {
        Ok(_) => ("/admin/dashboard".to_owned(), None),
        Err(AuthError::InvalidCredentials(cause)) => (
            "/login".to_owned(),
            Some(LoginError::AuthError(cause)),
        ),
        Err(AuthError::UnexpectedError(cause)) => (
            "/login".to_owned(),
            Some(LoginError::UnexpectedError(cause)),
        ),
    }
}

} // verus!
