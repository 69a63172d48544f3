use libqinit::action::{Action, Command};
use libqinit::wifi::{
    attempt, connect, daemon, disable, driver_path, enable, get_networks, get_status,
    is_connected_to_internet, list_command, network_from, ping_command, scan_command,
    status_needs_ping, Attempt, CommandForm, CommandType, Daemon, Network, NetworkForm, Outcome,
    Status, StatusType, Task,
};

fn strings(of: &[&str]) -> Vec<String> {
    of.iter().map(|s| s.to_string()).collect()
}

fn run(program: &str, args: &[&str]) -> Action {
    Action::Run { command: Command { program: program.to_string(), args: strings(args) } }
}

fn network(name: &str, open: bool, connected: bool) -> Network {
    Network { name: name.to_string(), open, currently_connected: connected }
}

fn status(status_type: StatusType) -> Status {
    Status { status_type, list: None, error: None }
}

fn error(message: &str) -> Status {
    Status { status_type: StatusType::Error, list: None, error: Some(message.to_string()) }
}

fn command(command_type: CommandType) -> CommandForm {
    CommandForm { command_type, arguments: None }
}

fn listing(rows: &[(&str, &str, bool)]) -> String {
    let mut raw = String::new();
    raw.push_str("                               Available networks\n");
    raw.push_str("--------------------------------------------------------------------------------\n");
    raw.push_str("\x1b[90m      Network name                      Security            Signal\x1b[0m\n");
    raw.push_str("--------------------------------------------------------------------------------\n");
    for (name, security, connected) in rows {
        if *connected {
            raw.push_str(&format!(
                "\x1b[0m  \x1b[1;90m> \x1b[0m  {:<28}  {:<20}****\n",
                name, security
            ));
        } else {
            raw.push_str(&format!("\x1b[0m      {:<32}  {:<20}****\n", name, security));
        }
    }
    raw.push_str("\n");
    raw
}

fn reference(raw: &str) -> Option<Vec<Network>> {
    let ansi_escape = regex::Regex::new(r"\x1b\[[0-9;]*m").unwrap();
    let lines: Vec<&str> = raw.lines().collect();
    if lines.len() < 5 {
        return None;
    }
    let mut networks = Vec::new();
    for line in &lines[4..lines.len() - 1] {
        let clean = ansi_escape.replace_all(line, "").trim_start().to_string();
        if clean.len() < 54 {
            return None;
        }
        let name = clean[..32].trim();
        let security = clean[34..54].trim();
        let connected = name.starts_with(">   ");
        networks.push(Network {
            name: if connected { name[4..].to_string() } else { name.to_string() },
            open: security.contains("open"),
            currently_connected: connected,
        });
    }
    Some(networks)
}

#[test]
fn networks_are_read_from_the_listing() {
    let raw = listing(&[("Home", "psk", true), ("Cafe Libre", "open", false), ("Office 5G", "8021x", false)]);
    assert_eq!(
        get_networks(&raw),
        Some(vec![
            network("Home", false, true),
            network("Cafe Libre", true, false),
            network("Office 5G", false, false),
        ])
    );
}

#[test]
fn listing_parser_agrees_with_a_plain_reading() {
    let raws = [
        listing(&[]),
        listing(&[("a", "open", false)]),
        listing(&[("x", "psk", true), ("y", "open", true)]),
        listing(&[("name with  spaces", "wep", false), ("0123456789012345678901234567", "open", false)]),
        "one\ntwo\nthree\nfour\n".to_string(),
        "one\ntwo\nthree\nfour\nfive".to_string(),
        "1\n2\n3\n4\nshort line\n6".to_string(),
        String::new(),
    ];
    for raw in raws {
        assert_eq!(get_networks(&raw), reference(&raw), "{:?}", raw);
    }
}

#[test]
fn text_that_is_no_listing_is_refused() {
    assert_eq!(get_networks(""), None);
    assert_eq!(get_networks("a\nb\nc\nd"), None);
    assert_eq!(get_networks("a\nb\nc\nd\ne"), Some(vec![]));
    assert_eq!(get_networks("a\nb\nc\nd\ntoo short\nend"), None);
}

#[test]
fn one_line_of_the_listing() {
    let line = format!("{:<32}  {:<20}****", "Cafe", "open");
    assert_eq!(network_from(&line), Some(network("Cafe", true, false)));
    let line = format!(">   {:<28}  {:<20}****", "Home", "psk");
    assert_eq!(network_from(&line), Some(network("Home", false, true)));
    assert_eq!(network_from(&"x".repeat(53)), None);
    assert_eq!(network_from(&"x".repeat(54)), Some(network(&"x".repeat(32), false, false)));
}

#[test]
fn wifi_commands() {
    assert_eq!(driver_path(), "/sys/module/brcmfmac_wcc");
    assert_eq!(
        disable(),
        vec![run("/sbin/rc-service", &["iwd", "stop"]), run("/sbin/modprobe", &["-r", "brcmfmac_wcc"])]
    );
    assert_eq!(
        enable(),
        vec![
            run("/sbin/modprobe", &["brcmfmac_wcc"]),
            Action::WaitForPath { path: "/sys/class/net/wlan0".to_string() },
            run("/sbin/ifconfig", &["wlan0", "up"]),
        ]
    );
    assert_eq!(
        connect(&NetworkForm { name: "Cafe".to_string(), passphrase: None }),
        run("/usr/bin/iwctl", &["station", "wlan0", "connect", "Cafe"])
    );
    assert_eq!(
        connect(&NetworkForm { name: "Home".to_string(), passphrase: Some("pass word".to_string()) }),
        run("/usr/bin/iwctl", &["--passphrase", "pass word", "station", "wlan0", "connect", "Home"])
    );
    assert_eq!(
        scan_command(),
        Command { program: "/usr/bin/iwctl".to_string(), args: strings(&["station", "wlan0", "scan"]) }
    );
    assert_eq!(
        list_command(),
        Command {
            program: "/usr/bin/iwctl".to_string(),
            args: strings(&["station", "wlan0", "get-networks"]),
        }
    );
    assert_eq!(
        ping_command(),
        Command { program: "/bin/ping".to_string(), args: strings(&["-w", "5", "-c", "1", "1.1.1.1"]) }
    );
}

#[test]
fn status_of_wifi() {
    assert_eq!(get_status(false, None), status(StatusType::Disabled));
    assert_eq!(get_status(false, Some(true)), status(StatusType::Disabled));
    assert_eq!(get_status(true, None), status(StatusType::NotConnected));
    assert_eq!(get_status(true, Some(false)), status(StatusType::NotConnected));
    assert_eq!(get_status(true, Some(true)), status(StatusType::Connected));
    assert!(status_needs_ping(true, true));
    assert!(!status_needs_ping(true, false));
    assert!(!status_needs_ping(false, true));
}

#[test]
fn attempts_are_limited() {
    assert_eq!(is_connected_to_internet(0, true), Attempt::Done);
    assert_eq!(is_connected_to_internet(0, false), Attempt::Retry { millis: 100 });
    assert_eq!(is_connected_to_internet(3, false), Attempt::Retry { millis: 100 });
    assert_eq!(is_connected_to_internet(4, false), Attempt::GiveUp);
    assert_eq!(is_connected_to_internet(4, true), Attempt::Done);
    assert_eq!(is_connected_to_internet(5, true), Attempt::GiveUp);
    assert_eq!(attempt(29, 30, false), Attempt::GiveUp);
    assert_eq!(attempt(28, 30, false), Attempt::Retry { millis: 100 });
    assert_eq!(attempt(i32::MAX, i32::MAX, true), Attempt::GiveUp);
}

fn drive(form: CommandForm, outcomes: Vec<Outcome>) -> (Vec<Task>, Status) {
    let mut state = daemon(form);
    let mut tasks = Vec::new();
    let mut outcomes = outcomes.into_iter();
    while let Some(task) = state.task() {
        tasks.push(task);
        state = state.advance(outcomes.next().expect("more tasks than outcomes"));
    }
    assert!(outcomes.next().is_none(), "outcomes left over");
    match state {
        Daemon::Done { status } => (tasks, status),
        other => panic!("not done: {:?}", other),
    }
}

#[test]
fn status_request_on_a_disabled_device_asks_for_nothing_more() {
    let (tasks, result) = drive(
        command(CommandType::GetStatus),
        vec![Outcome::Status { status: status(StatusType::Disabled) }],
    );
    assert_eq!(tasks, vec![Task::GetStatus { do_ping: false }]);
    assert_eq!(result, status(StatusType::Disabled));
}

#[test]
fn enabling_probes_without_listing() {
    let (tasks, result) = drive(
        command(CommandType::Enable),
        vec![Outcome::Failed, Outcome::Status { status: status(StatusType::NotConnected) }],
    );
    assert_eq!(tasks, vec![Task::Enable, Task::GetStatus { do_ping: false }]);
    assert_eq!(result, status(StatusType::NotConnected));
    let (tasks, _) = drive(
        command(CommandType::Disable),
        vec![Outcome::Succeeded, Outcome::Status { status: status(StatusType::Disabled) }],
    );
    assert_eq!(tasks, vec![Task::Disable, Task::GetStatus { do_ping: false }]);
}

#[test]
fn listing_is_followed_by_a_look_at_the_internet() {
    let found = vec![network("Home", false, true)];
    let (tasks, result) = drive(
        command(CommandType::GetNetworks),
        vec![
            Outcome::Status { status: status(StatusType::NotConnected) },
            Outcome::Networks { networks: found.clone() },
            Outcome::Status { status: status(StatusType::Connected) },
        ],
    );
    assert_eq!(
        tasks,
        vec![Task::GetStatus { do_ping: false }, Task::GetNetworks, Task::GetStatus { do_ping: true }]
    );
    assert_eq!(
        result,
        Status { status_type: StatusType::Connected, list: Some(found), error: None }
    );
}

#[test]
fn failed_connection_is_reported_with_the_networks() {
    let found = vec![network("Home", false, false)];
    let form = CommandForm {
        command_type: CommandType::Connect,
        arguments: Some(NetworkForm { name: "Home".to_string(), passphrase: None }),
    };
    let (tasks, result) = drive(
        form,
        vec![
            Outcome::Status { status: status(StatusType::NotConnected) },
            Outcome::Failed,
            Outcome::Networks { networks: found.clone() },
        ],
    );
    assert_eq!(tasks, vec![Task::GetStatus { do_ping: false }, Task::Connect, Task::GetNetworks]);
    assert_eq!(
        result,
        Status {
            status_type: StatusType::Error,
            list: Some(found),
            error: Some("Failed to connect to network".to_string()),
        }
    );
}

#[test]
fn connection_without_a_network_is_an_error() {
    let (tasks, result) = drive(
        command(CommandType::Connect),
        vec![Outcome::Status { status: status(StatusType::NotConnected) }, Outcome::Failed],
    );
    assert_eq!(tasks, vec![Task::GetStatus { do_ping: false }, Task::GetNetworks]);
    assert_eq!(result, error("Failed to get networks list"));
}

#[test]
fn failures_of_the_daemon_have_their_messages() {
    let (_, result) = drive(
        command(CommandType::GetStatus),
        vec![Outcome::Failed, Outcome::Networks { networks: vec![] }],
    );
    assert_eq!(
        result,
        Status {
            status_type: StatusType::Error,
            list: Some(vec![]),
            error: Some("Failed to get Wi-Fi status".to_string()),
        }
    );
    let (_, result) = drive(
        command(CommandType::GetNetworks),
        vec![
            Outcome::Status { status: status(StatusType::NotConnected) },
            Outcome::Networks { networks: vec![] },
            Outcome::Failed,
        ],
    );
    assert_eq!(
        result,
        Status {
            status_type: StatusType::Error,
            list: Some(vec![]),
            error: Some("Failed to get Wi-Fi status".to_string()),
        }
    );
    let (tasks, result) = drive(
        command(CommandType::Disconnect),
        vec![Outcome::Status { status: status(StatusType::Connected) }],
    );
    assert_eq!(tasks, vec![Task::GetStatus { do_ping: false }]);
    assert_eq!(result, status(StatusType::Connected));
}
