use libqinit::action::Action;
use libqinit::rootfs_socket::{
    listen_for_commands, listen_for_login_credentials, splash_answer, AnswerFromQinit,
    CommandToQinit, LoginForm, Reaction,
};
use libqinit::socket::bind;
use libqinit::system::PrimitiveShutDownType;

fn form(username: &str, password: &str) -> LoginForm {
    LoginForm { username: username.to_string(), password: password.to_string() }
}

#[test]
fn login_puts_credentials_on_record_and_logout_clears_them() {
    let mut cached = None;
    listen_for_login_credentials(&mut cached, form("alice", "secret"));
    assert_eq!(cached, Some(form("alice", "secret")));
    listen_for_login_credentials(&mut cached, form("bob", "hunter2"));
    assert_eq!(cached, Some(form("bob", "hunter2")));
    listen_for_login_credentials(&mut cached, form("", ""));
    assert_eq!(cached, None);
    listen_for_login_credentials(&mut cached, form("alice", ""));
    assert_eq!(cached, None);
    listen_for_login_credentials(&mut cached, form("", "secret"));
    assert_eq!(cached, None);
}

#[test]
fn credentials_request_is_answered_with_the_latest_record() {
    let mut cached = None;
    assert_eq!(
        listen_for_commands(&cached, Some(CommandToQinit::GetLoginCredentials)),
        Reaction::Reply { answer: AnswerFromQinit::Login(None) }
    );
    listen_for_login_credentials(&mut cached, form("alice", "secret"));
    listen_for_login_credentials(&mut cached, form("alice", "changed"));
    assert_eq!(
        listen_for_commands(&cached, Some(CommandToQinit::GetLoginCredentials)),
        Reaction::Reply { answer: AnswerFromQinit::Login(Some(form("alice", "changed"))) }
    );
}

#[test]
fn other_requests() {
    let cached = Some(form("alice", "secret"));
    assert_eq!(
        listen_for_commands(&cached, Some(CommandToQinit::TriggerSplash(PrimitiveShutDownType::Reboot))),
        Reaction::ShowSplash { kind: PrimitiveShutDownType::Reboot }
    );
    assert_eq!(
        listen_for_commands(&cached, Some(CommandToQinit::TriggerSwitchToLoginPage)),
        Reaction::SwitchToLoginPage
    );
    assert_eq!(listen_for_commands(&cached, Some(CommandToQinit::StopListening)), Reaction::Stop);
}

#[test]
fn malformed_request_ends_its_connection_only() {
    assert_eq!(listen_for_commands(&None, None), Reaction::Dismiss);
}

#[test]
fn splash_is_acknowledged_once_it_is_drawn() {
    assert_eq!(splash_answer(false), None);
    assert_eq!(splash_answer(true), Some(AnswerFromQinit::SplashReady));
}

#[test]
fn socket_is_bound_in_the_place_of_a_stale_one() {
    assert_eq!(
        bind("/run/qinit.sock"),
        vec![
            Action::RemoveFile { path: "/run/qinit.sock".to_string() },
            Action::SocketBind { path: "/run/qinit.sock".to_string() },
        ]
    );
}

#[test]
fn payload_is_sent_as_it_is() {
    assert_eq!(
        libqinit::socket::write("/qinit.sock", &vec![1, 2, 3]),
        Action::SocketSend { path: "/qinit.sock".to_string(), payload: vec![1, 2, 3] }
    );
    assert_eq!(
        libqinit::socket::write("/qinit.sock", &postcard::to_allocvec(&true).unwrap()),
        Action::SocketSend { path: "/qinit.sock".to_string(), payload: vec![1] }
    );
}
