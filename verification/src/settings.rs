//! The minimal settings read from the environment: the URL of one AdGuard
//! Home instance and its credentials.
//!
//! Reading the environment is done outside the verified library; here the
//! values read are checked.
use vstd::prelude::*;
use crate::error::Error;

verus! {

/// The variable that holds the URL.
pub const URL_VARIABLE: &'static str = "ADGUARD_URL";

/// The variable that holds the user name.
pub const USERNAME_VARIABLE: &'static str = "ADGUARD_USERNAME";

/// The variable that holds the password.
pub const PASSWORD_VARIABLE: &'static str = "ADGUARD_PASSWORD";

/// The URL of an instance and its credentials.
#[derive(Debug, Clone)]
pub struct Settings {
    pub adguard_url: String,
    pub adguard_username: Option<String>,
    pub adguard_password: Option<String>,
}

impl Settings {
    /// The settings from the values of the variables; the URL is required.
    pub fn from_values(url: Option<String>, username: Option<String>, password: Option<String>) -> (res: Result<
        Settings,
        Error,
    >)
        ensures
            match url {
                Some(u) => res matches Ok(s) && s.adguard_url == u && s.adguard_username == username
                    && s.adguard_password == password,
                None => res matches Err(Error::MissingEnvironmentVariable(v)) && v@ == URL_VARIABLE@,
            },
    {
        match url {
            Some(adguard_url) => Ok(
                Settings { adguard_url, adguard_username: username, adguard_password: password },
            ),
            None => Err(Error::MissingEnvironmentVariable(String::from_str(URL_VARIABLE))),
        }
    }
}

} // verus!
