//! The credentials that the client replays every time it (re)connects.
//!
//! The client only recovers a lost session when it has credentials to replay,
//! so a long-running consumer should use one of the enabled variants.

use crate::text::{debug_quote, debug_quoted};
use vstd::prelude::*;
use vstd::string::StringExecFns;

verus! {

/// Whether, and with which credentials, the client logs in on every connect.
#[derive(Clone)]
pub enum AutoLogin {
    /// No automatic login: `login_user()` must be called by hand after every connect.
    Disabled,
    /// Log in with a username and password.
    UsernamePassword { username: String, password: String },
    /// Log in with a personal access token.
    PersonalAccessToken { token: String },
}

/// What of an `AutoLogin` may be shown: which variant it is and, for a
/// username and password, the username; never a password or a token.
pub enum AutoLoginView {
    Disabled,
    UsernamePassword(Seq<char>),
    PersonalAccessToken,
}

impl View for AutoLogin {
    type V = AutoLoginView;

    open spec fn view(&self) -> AutoLoginView {
        match self {
            AutoLogin::Disabled => AutoLoginView::Disabled,
            AutoLogin::UsernamePassword { username, .. } => AutoLoginView::UsernamePassword(username@),
            AutoLogin::PersonalAccessToken { .. } => AutoLoginView::PersonalAccessToken,
        }
    }
}

/// Whether automatic login is enabled.
pub open spec fn login_enabled(a: AutoLoginView) -> bool {
    !(a is Disabled)
}

/// The username that is logged in with, if any.
pub open spec fn login_username(a: AutoLoginView) -> Option<Seq<char>> {
    match a {
        AutoLoginView::UsernamePassword(username) => Some(username),
        _ => None,
    }
}

/// The text of `AutoLogin::repr`: the Python expression that builds the value,
/// with the secret shown as `...`.
pub open spec fn auto_login_repr(a: AutoLoginView) -> Seq<char> {
    match a {
        AutoLoginView::Disabled => "AutoLogin.disabled()"@,
        AutoLoginView::UsernamePassword(username) =>
            "AutoLogin.username_password("@ + debug_quoted(username) + ", ...)"@,
        AutoLoginView::PersonalAccessToken => "AutoLogin.personal_access_token(...)"@,
    }
}

impl AutoLogin {
    /// No automatic login.
    pub fn disabled() -> (r: Self)
        ensures
            r is Disabled,
    {
        AutoLogin::Disabled
    }

    /// Log in with the given username and password on every connect.
    pub fn username_password(username: String, password: String) -> (r: Self)
        ensures
            r == (AutoLogin::UsernamePassword { username, password }),
    {
        AutoLogin::UsernamePassword { username, password }
    }

    /// Log in with the given personal access token on every connect.
    pub fn personal_access_token(token: String) -> (r: Self)
        ensures
            r == (AutoLogin::PersonalAccessToken { token }),
    {
        AutoLogin::PersonalAccessToken { token }
    }

    /// Whether automatic login is enabled.
    pub fn enabled(&self) -> (r: bool)
        ensures
            r == login_enabled(self@),
    {
        match self {
            AutoLogin::Disabled => false,
            _ => true,
        }
    }

    /// The username to log in with, or `None` for the disabled and token variants.
    pub fn username(&self) -> (r: Option<String>)
        ensures
            match r {
                Some(u) => login_username(self@) == Some(u@),
                None => login_username(self@) is None,
            },
    {
        match self {
            AutoLogin::UsernamePassword { username, .. } => Some(username.clone()),
            _ => None,
        }
    }

    /// The Python `repr`: the expression that builds this value, without its secret.
    pub fn repr(&self) -> (r: String)
        ensures
            r@ == auto_login_repr(self@),
    {
        match self {
            AutoLogin::Disabled => String::from_str("AutoLogin.disabled()"),
            AutoLogin::UsernamePassword { username, .. } => {
                let mut r = String::from_str("AutoLogin.username_password(");
                let quoted = debug_quote(username.as_str());
                r.append(quoted.as_str());
                r.append(", ...)");
                r
            },
            AutoLogin::PersonalAccessToken { .. } => String::from_str("AutoLogin.personal_access_token(...)"),
        }
    }

    /// An equal copy of this value.
    pub fn duplicate(&self) -> (r: Self)
        ensures
            r == *self,
    {
        match self {
            AutoLogin::Disabled => AutoLogin::Disabled,
            AutoLogin::UsernamePassword { username, password } =>
                AutoLogin::UsernamePassword { username: username.clone(), password: password.clone() },
            AutoLogin::PersonalAccessToken { token } => AutoLogin::PersonalAccessToken { token: token.clone() },
        }
    }
}

} // verus!
