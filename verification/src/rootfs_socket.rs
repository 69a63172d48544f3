//! The command channel into the assembled tree.
//!
//! Processes inside the tree reach init through a socket that exists only
//! there. Each connection carries one request; some requests are answered.

use crate::system::PrimitiveShutDownType;
use vstd::prelude::*;

verus! {

/// Where the channel listens, as seen from outside the tree.
pub const ROOTFS_SOCKET_PATH: &'static str = "/overlay/run/qinit_rootfs.sock";

/// The credentials of a user.
#[derive(Debug, Clone, PartialEq, Eq)]
pub struct LoginForm {
    pub username: String,
    pub password: String,
}

impl View for LoginForm {
    type V = (Seq<char>, Seq<char>);

    open spec fn view(&self) -> (Seq<char>, Seq<char>) {
        (self.username@, self.password@)
    }
}

/// Model of optional credentials.
pub open spec fn login_view(login: Option<LoginForm>) -> Option<(Seq<char>, Seq<char>)> {
    match login {
        Some(form) => Some(form@),
        None => None,
    }
}

/// What a process inside the tree may ask for.
#[derive(Debug, Clone, Copy, PartialEq, Eq, Structural)]
pub enum CommandToQinit {
    GetLoginCredentials,
    TriggerSplash(PrimitiveShutDownType),
    TriggerSwitchToLoginPage,
    StopListening,
}

/// What init answers.
#[derive(Debug, Clone, PartialEq, Eq)]
pub enum AnswerFromQinit {
    /// The credentials of the user who is logged in, if anyone is.
    Login(Option<LoginForm>),
    /// The splash is fully drawn: it is safe to go on.
    SplashReady,
}

/// What the credentials on record are once `login_form` was submitted: a
/// form with an empty name or an empty password is a logout.
pub open spec fn remembered(login_form: (Seq<char>, Seq<char>)) -> Option<(Seq<char>, Seq<char>)> {
    if login_form.0.len() == 0 || login_form.1.len() == 0 {
        None
    } else {
        Some(login_form)
    }
}

/// Puts the credentials that were submitted on record, in the place of what
/// was there. Readers see the latest submission.
pub fn listen_for_login_credentials(cached: &mut Option<LoginForm>, login_form: LoginForm)
    ensures
        login_view(*final(cached)) == remembered(login_form@),
{
    if login_form.username.as_str().is_empty() || login_form.password.as_str().is_empty() {
        *cached = None;
    } else {
        *cached = Some(login_form);
    }
}

/// What the channel does about one connection.
#[derive(Debug, Clone, PartialEq, Eq)]
pub enum Reaction {
    /// Send the answer and close the connection.
    Reply { answer: AnswerFromQinit },
    /// Show the shutdown splash of this kind. The connection stays open
    /// until the splash is drawn; see [`splash_answer`].
    ShowSplash { kind: PrimitiveShutDownType },
    /// Show the login page. Nothing is answered.
    SwitchToLoginPage,
    /// Close the connection and stop listening.
    Stop,
    /// Close the connection, which carried nothing that can be read, and
    /// go on listening.
    Dismiss,
}

fn duplicate_login(login: &Option<LoginForm>) -> (copy: Option<LoginForm>)
    ensures
        login_view(copy) == login_view(*login),
{
    match login {
        Some(form) => Some(
            LoginForm { username: form.username.clone(), password: form.password.clone() },
        ),
        None => None,
    }
}

/// Decides what to do about a connection that carried `request`, `None`
/// standing for bytes that are no request.
pub fn listen_for_commands(cached: &Option<LoginForm>, request: Option<CommandToQinit>) -> (reaction:
    Reaction)
    ensures
        match request {
            Some(CommandToQinit::GetLoginCredentials) => reaction matches Reaction::Reply {
                answer: AnswerFromQinit::Login(login),
            } && login_view(login) == login_view(*cached),
            Some(CommandToQinit::TriggerSplash(kind)) => reaction == (Reaction::ShowSplash {
                kind,
            }),
            Some(CommandToQinit::TriggerSwitchToLoginPage) => reaction
                == Reaction::SwitchToLoginPage,
            Some(CommandToQinit::StopListening) => reaction == Reaction::Stop,
            None => reaction == Reaction::Dismiss,
        },
{
    match request {
        Some(CommandToQinit::GetLoginCredentials) => Reaction::Reply {
            answer: AnswerFromQinit::Login(duplicate_login(cached)),
        },
        Some(CommandToQinit::TriggerSplash(kind)) => Reaction::ShowSplash { kind },
        Some(CommandToQinit::TriggerSwitchToLoginPage) => Reaction::SwitchToLoginPage,
        Some(CommandToQinit::StopListening) => Reaction::Stop,
        None => Reaction::Dismiss,
    }
}

/// The answer to a splash request, which is held back until the splash is
/// `drawn`.
pub fn splash_answer(drawn: bool) -> (answer: Option<AnswerFromQinit>)
    ensures
        drawn ==> answer == Some(AnswerFromQinit::SplashReady),
        !drawn ==> answer is None,
{
    if drawn {
        Some(AnswerFromQinit::SplashReady)
    } else {
        None
    }
}

} // verus!
