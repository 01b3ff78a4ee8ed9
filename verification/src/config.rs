use vstd::prelude::*;

verus! {

/// The operator's configuration: where the worker's output streams go
/// (absent entries fall back to fixed temporary paths) and the path of the
/// update command to run on divergence. All paths are absolute once the
/// configuration is resolved against the configuration file's directory.
#[derive(Debug, Clone, PartialEq, Eq)]
pub struct Config {
    pub stdout: Option<String>,
    pub stderr: Option<String>,
    pub on_update: String,
}

/// An opaque username and password pair, handed to the git transport as
/// given; absence of the pair altogether means anonymous access.
#[derive(Debug, Clone, PartialEq, Eq)]
pub struct Credentials {
    pub username: String,
    pub password: String,
}

/// The credential variables must be present as a pair or not at all;
/// exactly one present is a configuration error naming the missing half.
#[derive(Debug, Clone, PartialEq, Eq)]
pub enum CredentialsError {
    MissingUsername,
    MissingPassword,
}

impl Credentials {
    /// Combines the values of the username and password variables: both
    /// absent is anonymous mode, both present is an authenticated pair,
    /// and exactly one present is refused, naming the missing half.
    pub fn from_parts(username: Option<String>, password: Option<String>) -> (r: Result<
        Option<Credentials>,
        CredentialsError,
    >)
        ensures
            match (username, password) {
                (None, None) => r matches Ok(None),
                (None, Some(_)) => r matches Err(CredentialsError::MissingUsername),
                (Some(_), None) => r matches Err(CredentialsError::MissingPassword),
                (Some(u), Some(p)) => r matches Ok(Some(c)) && c.username@ == u@ && c.password@
                    == p@,
            },
    {
        match (username, password) {
            (None, None) => Ok(None),
            (None, Some(_)) => Err(CredentialsError::MissingUsername),
            (Some(_), None) => Err(CredentialsError::MissingPassword),
            (Some(username), Some(password)) => Ok(Some(Credentials { username, password })),
        }
    }
}

} // verus!
