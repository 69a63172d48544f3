//! Wi-Fi: what the menu can ask for and what it is told.

use crate::action::{push_action, run, Action, ActionView, Command};
use vstd::prelude::*;

verus! {

pub const WIFI_MODULE: &'static str = "brcmfmac_wcc";

pub const WIFI_IF: &'static str = "wlan0";

pub const IWCTL_PATH: &'static str = "/usr/bin/iwctl";

pub const IWD_SERVICE: &'static str = "iwd";

pub const MAX_SCAN_RETRIES: i32 = 30;

pub const MAX_PING_RETRIES: i32 = 5;

pub const PING_TIMEOUT_SECS: i32 = 5;

/// A network that a scan has found.
#[derive(Debug, Clone, PartialEq, Eq)]
pub struct Network {
    pub name: String,
    pub open: bool,
    pub currently_connected: bool,
}

#[derive(Debug, Clone, Copy, PartialEq, Eq, Structural)]
pub enum StatusType {
    Disabled,
    NotConnected,
    Connected,
    Error,
}

/// What the menu is told.
#[derive(Debug, Clone, PartialEq, Eq)]
pub struct Status {
    pub status_type: StatusType,
    pub list: Option<Vec<Network>>,
    pub error: Option<String>,
}

#[derive(Debug, Clone, Copy, PartialEq, Eq, Structural)]
pub enum CommandType {
    Enable,
    Disable,
    Connect,
    Disconnect,
    GetStatus,
    GetNetworks,
}

/// The network to connect to.
#[derive(Debug, Clone, PartialEq, Eq)]
pub struct NetworkForm {
    pub name: String,
    pub passphrase: Option<String>,
}

/// What the menu asks for.
#[derive(Debug, Clone, PartialEq, Eq)]
pub struct CommandForm {
    pub command_type: CommandType,
    pub arguments: Option<NetworkForm>,
}

/// Mathematical model of a [`Network`].
pub struct NetworkView {
    pub name: Seq<char>,
    pub open: bool,
    pub currently_connected: bool,
}

impl View for Network {
    type V = NetworkView;

    open spec fn view(&self) -> NetworkView {
        NetworkView {
            name: self.name@,
            open: self.open,
            currently_connected: self.currently_connected,
        }
    }
}

impl DeepView for Network {
    type V = NetworkView;

    open spec fn deep_view(&self) -> NetworkView {
        self@
    }
}

/// Mathematical model of a [`Status`].
pub struct StatusView {
    pub status_type: StatusType,
    pub list: Option<Seq<NetworkView>>,
    pub error: Option<Seq<char>>,
}

impl View for Status {
    type V = StatusView;

    open spec fn view(&self) -> StatusView {
        StatusView {
            status_type: self.status_type,
            list: match self.list {
                Some(list) => Some(list.deep_view()),
                None => None,
            },
            error: crate::boot_config::opt_view(self.error),
        }
    }
}

/// Mathematical model of a [`NetworkForm`].
pub struct NetworkFormView {
    pub name: Seq<char>,
    pub passphrase: Option<Seq<char>>,
}

impl View for NetworkForm {
    type V = NetworkFormView;

    open spec fn view(&self) -> NetworkFormView {
        NetworkFormView {
            name: self.name@,
            passphrase: crate::boot_config::opt_view(self.passphrase),
        }
    }
}

/// A status without networks and without an error.
pub open spec fn plain_status(status_type: StatusType) -> StatusView {
    StatusView { status_type, list: None, error: None }
}

/// The status that reports `error`.
pub open spec fn error_status(error: Seq<char>) -> StatusView {
    StatusView { status_type: StatusType::Error, list: None, error: Some(error) }
}

fn failed(error: &str) -> (status: Status)
    ensures
        status@ == error_status(error@),
{
    Status { status_type: StatusType::Error, list: None, error: Some(String::from_str(error)) }
}

/// Whether Wi-Fi is switched on: the driver's directory exists.
pub fn driver_path() -> (path: String)
    ensures
        path@ == "/sys/module/"@ + WIFI_MODULE@,
{
    crate::text::concat2("/sys/module/", WIFI_MODULE)
}

/// Whether finding the status takes a look at the Internet: it does when
/// that is asked for and Wi-Fi is switched on.
pub fn status_needs_ping(module_loaded: bool, do_ping: bool) -> (needed: bool)
    ensures
        needed == (module_loaded && do_ping),
{
    module_loaded && do_ping
}

/// How long an address is waited for before the Internet is looked for, in
/// milliseconds.
pub const DHCP_SETTLE_MILLIS: u64 = 2000;

/// The status of Wi-Fi. `online` tells whether the Internet was reached,
/// `None` if it was not looked for.
pub fn get_status(module_loaded: bool, online: Option<bool>) -> (status: Status)
    ensures
        status@ == plain_status(
            if !module_loaded {
                StatusType::Disabled
            } else if online == Some(true) {
                StatusType::Connected
            } else {
                StatusType::NotConnected
            },
        ),
{
    let status_type = if !module_loaded {
        StatusType::Disabled
    } else {
        match online {
            Some(true) => StatusType::Connected,
            _ => StatusType::NotConnected,
        }
    };
    Status { status_type, list: None, error: None }
}

/// What to do after an attempt that may be made again.
#[derive(Debug, Clone, Copy, PartialEq, Eq, Structural)]
pub enum Attempt {
    /// It worked.
    Done,
    /// Wait this long and try again.
    Retry { millis: u64 },
    /// Give up.
    GiveUp,
}

/// Pause between two attempts, in milliseconds.
pub const RETRY_MILLIS: u64 = 100;

/// What to do after attempt number `retries`, counted from zero, of at most
/// `limit`.
pub fn attempt(retries: i32, limit: i32, succeeded: bool) -> (next: Attempt)
    ensures
        next == if retries >= limit {
            Attempt::GiveUp
        } else if succeeded {
            Attempt::Done
        } else if retries + 1 < limit {
            Attempt::Retry { millis: RETRY_MILLIS }
        } else {
            Attempt::GiveUp
        },
{
    if retries >= limit {
        Attempt::GiveUp
    } else if succeeded {
        Attempt::Done
    } else if retries + 1 < limit {
        Attempt::Retry { millis: RETRY_MILLIS }
    } else {
        Attempt::GiveUp
    }
}

/// What to do after a look at the Internet, of which at most
/// [`MAX_PING_RETRIES`] are made.
pub fn is_connected_to_internet(retries: i32, reached: bool) -> (next: Attempt)
    ensures
        next == if retries >= MAX_PING_RETRIES {
            Attempt::GiveUp
        } else if reached {
            Attempt::Done
        } else if retries + 1 < MAX_PING_RETRIES {
            Attempt::Retry { millis: RETRY_MILLIS }
        } else {
            Attempt::GiveUp
        },
{
    attempt(retries, MAX_PING_RETRIES, reached)
}

/// The look at the Internet: one echo request to a well-known address.
pub fn ping_command() -> (command: Command)
    ensures
        command@.program == "/bin/ping"@,
        command@.args == seq![
            "-w"@,
            crate::text::decimal(PING_TIMEOUT_SECS as int),
            "-c"@,
            "1"@,
            "1.1.1.1"@,
        ],
{
    let mut command = Command::new("/bin/ping");
    command.arg("-w");
    command.arg(crate::text::decimal_string(PING_TIMEOUT_SECS as i64).as_str());
    command.arg("-c");
    command.arg("1");
    command.arg("1.1.1.1");
    assert(command@.args =~= seq![
        "-w"@,
        crate::text::decimal(PING_TIMEOUT_SECS as int),
        "-c"@,
        "1"@,
        "1.1.1.1"@,
    ]);
    command
}

/// Model of a request to the Wi-Fi daemon of the system.
pub open spec fn station(verb: Seq<Seq<char>>) -> Seq<Seq<char>> {
    seq!["station"@, WIFI_IF@] + verb
}

/// Model of [`disable`].
pub open spec fn disable_plan() -> Seq<ActionView> {
    seq![
        crate::system::service_action(IWD_SERVICE@, "stop"@),
        run("/sbin/modprobe"@, seq!["-r"@, WIFI_MODULE@]),
    ]
}

/// Switches Wi-Fi off.
pub fn disable() -> (plan: Vec<Action>)
    ensures
        plan.deep_view() == disable_plan(),
{
    let mut plan: Vec<Action> = Vec::new();
    push_action(&mut plan, crate::system::stop_service(IWD_SERVICE));
    let mut args: Vec<String> = Vec::new();
    args.push(String::from_str("-r"));
    args.push(String::from_str(WIFI_MODULE));
    assert(args.deep_view() =~= seq!["-r"@, WIFI_MODULE@]);
    push_action(&mut plan, crate::system::modprobe(&args));
    assert(plan.deep_view() =~= disable_plan());
    plan
}

/// Model of [`enable`].
pub open spec fn enable_plan() -> Seq<ActionView> {
    seq![
        run("/sbin/modprobe"@, seq![WIFI_MODULE@]),
        ActionView::WaitForPath { path: "/sys/class/net/"@ + WIFI_IF@ },
        run("/sbin/ifconfig"@, seq![WIFI_IF@, "up"@]),
    ]
}

/// Switches Wi-Fi on and brings the interface up once it has appeared.
pub fn enable() -> (plan: Vec<Action>)
    ensures
        plan.deep_view() == enable_plan(),
{
    let mut plan: Vec<Action> = Vec::new();
    let mut args: Vec<String> = Vec::new();
    args.push(String::from_str(WIFI_MODULE));
    assert(args.deep_view() =~= seq![WIFI_MODULE@]);
    push_action(&mut plan, crate::system::modprobe(&args));
    push_action(
        &mut plan,
        crate::system::wait_for_path(crate::text::concat2("/sys/class/net/", WIFI_IF).as_str()),
    );
    let mut up = Command::new("/sbin/ifconfig");
    up.arg(WIFI_IF);
    up.arg("up");
    assert(up@.args =~= seq![WIFI_IF@, "up"@]);
    push_action(&mut plan, Action::run_command(up));
    assert(plan.deep_view() =~= enable_plan());
    plan
}

/// Model of [`connect`].
pub open spec fn connect_action(network: NetworkFormView) -> ActionView {
    match network.passphrase {
        None => run(IWCTL_PATH@, station(seq!["connect"@, network.name])),
        Some(passphrase) => run(
            IWCTL_PATH@,
            seq!["--passphrase"@, passphrase] + station(seq!["connect"@, network.name]),
        ),
    }
}

/// Connects to `network`. Once connected the clock may be set from the
/// network; whether that works does not matter to the connection.
pub fn connect(network: &NetworkForm) -> (action: Action)
    ensures
        action@ == connect_action(network@),
{
    let mut command = Command::new(IWCTL_PATH);
    match &network.passphrase {
        None => {},
        Some(passphrase) => {
            command.arg("--passphrase");
            command.arg(passphrase.as_str());
        },
    }
    command.arg("station");
    command.arg(WIFI_IF);
    command.arg("connect");
    command.arg(network.name.as_str());
    proof {
        match network@.passphrase {
            None => {
                assert(command@.args =~= station(seq!["connect"@, network@.name]));
            },
            Some(passphrase) => {
                assert(command@.args =~= seq!["--passphrase"@, passphrase] + station(
                    seq!["connect"@, network@.name],
                ));
            },
        }
    }
    Action::run_command(command)
}

/// The scan for networks.
pub fn scan_command() -> (command: Command)
    ensures
        command@.program == IWCTL_PATH@,
        command@.args == station(seq!["scan"@]),
{
    let mut command = Command::new(IWCTL_PATH);
    command.arg("station");
    command.arg(WIFI_IF);
    command.arg("scan");
    assert(command@.args =~= station(seq!["scan"@]));
    command
}

/// The listing of the networks that the last scan has found.
pub fn list_command() -> (command: Command)
    ensures
        command@.program == IWCTL_PATH@,
        command@.args == station(seq!["get-networks"@]),
{
    let mut command = Command::new(IWCTL_PATH);
    command.arg("station");
    command.arg(WIFI_IF);
    command.arg("get-networks");
    assert(command@.args =~= station(seq!["get-networks"@]));
    command
}

/// Work that the daemon asks for.
#[derive(Debug, Clone, Copy, PartialEq, Eq, Structural)]
pub enum Task {
    Enable,
    Disable,
    /// Find the status, with or without a look at the Internet.
    GetStatus { do_ping: bool },
    /// Connect to the network of the command.
    Connect,
    /// Scan and list the networks.
    GetNetworks,
}

/// What came of a task.
#[derive(Debug, Clone, PartialEq, Eq)]
pub enum Outcome {
    Succeeded,
    Failed,
    Status { status: Status },
    Networks { networks: Vec<Network> },
}

/// The daemon at work on one command.
#[derive(Debug, Clone, PartialEq, Eq)]
pub enum Daemon {
    /// Wi-Fi is about to be switched on or off.
    Toggle { command: CommandForm },
    /// The status is about to be found.
    Probe { command: CommandForm },
    /// A connection is about to be made.
    Join { status: Status, network: NetworkForm },
    /// The networks are about to be listed.
    Scan { status: Status },
    /// The status is about to be found once more, with a look at the
    /// Internet.
    Ping { networks: Vec<Network> },
    /// The command is dealt with: `status` goes to the menu.
    Done { status: Status },
}

/// Mathematical model of a [`Daemon`].
pub enum DaemonView {
    Toggle { command_type: CommandType, arguments: Option<NetworkFormView> },
    Probe { command_type: CommandType, arguments: Option<NetworkFormView> },
    Join { status: StatusView, network: NetworkFormView },
    Scan { status: StatusView },
    Ping { networks: Seq<NetworkView> },
    Done { status: StatusView },
}

/// Model of the arguments of a command.
pub open spec fn arguments_view(arguments: Option<NetworkForm>) -> Option<NetworkFormView> {
    match arguments {
        Some(network) => Some(network@),
        None => None,
    }
}

impl View for Daemon {
    type V = DaemonView;

    open spec fn view(&self) -> DaemonView {
        match self {
            Daemon::Toggle { command } => DaemonView::Toggle {
                command_type: command.command_type,
                arguments: arguments_view(command.arguments),
            },
            Daemon::Probe { command } => DaemonView::Probe {
                command_type: command.command_type,
                arguments: arguments_view(command.arguments),
            },
            Daemon::Join { status, network } => DaemonView::Join {
                status: status@,
                network: network@,
            },
            Daemon::Scan { status } => DaemonView::Scan { status: status@ },
            Daemon::Ping { networks } => DaemonView::Ping { networks: networks.deep_view() },
            Daemon::Done { status } => DaemonView::Done { status: status@ },
        }
    }
}

/// Mathematical model of an [`Outcome`].
pub enum OutcomeView {
    Succeeded,
    Failed,
    Status { status: StatusView },
    Networks { networks: Seq<NetworkView> },
}

impl View for Outcome {
    type V = OutcomeView;

    open spec fn view(&self) -> OutcomeView {
        match self {
            Outcome::Succeeded => OutcomeView::Succeeded,
            Outcome::Failed => OutcomeView::Failed,
            Outcome::Status { status } => OutcomeView::Status { status: status@ },
            Outcome::Networks { networks } => OutcomeView::Networks {
                networks: networks.deep_view(),
            },
        }
    }
}

/// The work that the daemon asks for next, `None` once the command is dealt
/// with.
pub open spec fn task_of(daemon: DaemonView) -> Option<Task> {
    match daemon {
        DaemonView::Toggle { command_type, .. } => Some(
            if command_type == CommandType::Disable {
                Task::Disable
            } else {
                Task::Enable
            },
        ),
        DaemonView::Probe { .. } => Some(Task::GetStatus { do_ping: false }),
        DaemonView::Join { .. } => Some(Task::Connect),
        DaemonView::Scan { .. } => Some(Task::GetNetworks),
        DaemonView::Ping { .. } => Some(Task::GetStatus { do_ping: true }),
        DaemonView::Done { .. } => None,
    }
}

/// The status that an outcome reports, or the error status if the outcome
/// holds none.
pub open spec fn reported_status(outcome: OutcomeView) -> StatusView {
    match outcome {
        OutcomeView::Status { status } => status,
        _ => error_status("Failed to get Wi-Fi status"@),
    }
}

/// Whether the networks are listed for a command of this type.
pub open spec fn lists_networks(command_type: CommandType) -> bool {
    command_type == CommandType::GetNetworks || command_type == CommandType::GetStatus
        || command_type == CommandType::Connect
}

/// Where the daemon stands once the status is settled: the networks are
/// listed unless Wi-Fi is off or the command has no use for them.
pub open spec fn settled(command_type: CommandType, status: StatusView) -> DaemonView {
    if status.status_type != StatusType::Disabled && lists_networks(command_type) {
        DaemonView::Scan { status }
    } else {
        DaemonView::Done { status }
    }
}

/// Where the daemon stands after the task that it asked for has ended with
/// `outcome`.
pub open spec fn advanced(daemon: DaemonView, outcome: OutcomeView) -> DaemonView {
    match daemon {
        DaemonView::Toggle { command_type, arguments } => DaemonView::Probe {
            command_type,
            arguments,
        },
        DaemonView::Probe { command_type, arguments } => {
            let status = reported_status(outcome);
            if command_type == CommandType::Connect {
                match arguments {
                    Some(network) => DaemonView::Join { status, network },
                    None => settled(
                        command_type,
                        StatusView {
                            status_type: StatusType::Error,
                            error: Some("Failed to get network details"@),
                            ..status
                        },
                    ),
                }
            } else {
                settled(command_type, status)
            }
        },
        DaemonView::Join { status, network } => settled(
            CommandType::Connect,
            if outcome is Succeeded {
                status
            } else {
                StatusView {
                    status_type: StatusType::Error,
                    error: Some("Failed to connect to network"@),
                    ..status
                }
            },
        ),
        DaemonView::Scan { status } => match outcome {
            OutcomeView::Networks { networks } => if status.error is None {
                DaemonView::Ping { networks }
            } else {
                DaemonView::Done { status: StatusView { list: Some(networks), ..status } }
            },
            _ => DaemonView::Done {
                status: StatusView {
                    status_type: StatusType::Error,
                    error: Some("Failed to get networks list"@),
                    ..status
                },
            },
        },
        DaemonView::Ping { networks } => DaemonView::Done {
            status: StatusView { list: Some(networks), ..reported_status(outcome) },
        },
        DaemonView::Done { status } => DaemonView::Done { status },
    }
}

fn settle(command_type: CommandType, status: Status) -> (daemon: Daemon)
    ensures
        daemon@ == settled(command_type, status@),
{
    let lists = match command_type {
        CommandType::GetNetworks | CommandType::GetStatus | CommandType::Connect => true,
        _ => false,
    };
    if status.status_type != StatusType::Disabled && lists {
        Daemon::Scan { status }
    } else {
        Daemon::Done { status }
    }
}

fn status_from(outcome: Outcome) -> (status: Status)
    ensures
        status@ == reported_status(outcome@),
{
    match outcome {
        Outcome::Status { status } => status,
        _ => failed("Failed to get Wi-Fi status"),
    }
}

/// Takes up a command of the menu.
pub fn daemon(command: CommandForm) -> (daemon: Daemon)
    ensures
        daemon@ == if command.command_type == CommandType::Enable || command.command_type
            == CommandType::Disable {
            DaemonView::Toggle {
                command_type: command.command_type,
                arguments: arguments_view(command.arguments),
            }
        } else {
            DaemonView::Probe {
                command_type: command.command_type,
                arguments: arguments_view(command.arguments),
            }
        },
{
    match command.command_type {
        CommandType::Enable | CommandType::Disable => Daemon::Toggle { command },
        _ => Daemon::Probe { command },
    }
}

impl Daemon {
    /// The work to do next, `None` once the command is dealt with.
    pub fn task(&self) -> (task: Option<Task>)
        ensures
            task == task_of(self@),
    {
        match self {
            Daemon::Toggle { command } => {
                if command.command_type == CommandType::Disable {
                    Some(Task::Disable)
                } else {
                    Some(Task::Enable)
                }
            },
            Daemon::Probe { .. } => Some(Task::GetStatus { do_ping: false }),
            Daemon::Join { .. } => Some(Task::Connect),
            Daemon::Scan { .. } => Some(Task::GetNetworks),
            Daemon::Ping { .. } => Some(Task::GetStatus { do_ping: true }),
            Daemon::Done { .. } => None,
        }
    }

    /// Goes on after the task that was asked for has ended with `outcome`.
    /// Whether Wi-Fi could be switched does not matter: the status that is
    /// found afterwards tells.
    pub fn advance(self, outcome: Outcome) -> (next: Daemon)
        ensures
            next@ == advanced(self@, outcome@),
    {
        match self {
            Daemon::Toggle { command } => Daemon::Probe { command },
            Daemon::Probe { command } => {
                let mut status = status_from(outcome);
                if command.command_type == CommandType::Connect {
                    match command.arguments {
                        Some(network) => Daemon::Join { status, network },
                        None => {
                            status.status_type = StatusType::Error;
                            status.error = Some(String::from_str("Failed to get network details"));
                            settle(CommandType::Connect, status)
                        },
                    }
                } else {
                    settle(command.command_type, status)
                }
            },
            Daemon::Join { status, network } => {
                let mut status = status;
                match outcome {
                    Outcome::Succeeded => {},
                    _ => {
                        status.status_type = StatusType::Error;
                        status.error = Some(String::from_str("Failed to connect to network"));
                    },
                }
                settle(CommandType::Connect, status)
            },
            Daemon::Scan { status } => {
                let mut status = status;
                match outcome {
                    Outcome::Networks { networks } => {
                        if status.error.is_none() {
                            Daemon::Ping { networks }
                        } else {
                            status.list = Some(networks);
                            Daemon::Done { status }
                        }
                    },
                    _ => {
                        status.status_type = StatusType::Error;
                        status.error = Some(String::from_str("Failed to get networks list"));
                        Daemon::Done { status }
                    },
                }
            },
            Daemon::Ping { networks } => {
                let mut status = status_from(outcome);
                status.list = Some(networks);
                Daemon::Done { status }
            },
            Daemon::Done { status } => Daemon::Done { status },
        }
    }
}

/// The escape sequences that colour the listing.
pub const ANSI_ESCAPE: &'static str = r"\x1b\[[0-9;]*m";

/// Width of the column of names in the listing.
pub const NAME_WIDTH: usize = 32;

/// Where the column of security kinds starts and ends in the listing.
pub const SECURITY_START: usize = 34;

pub const SECURITY_END: usize = 54;

/// The network that a line of the listing describes, once its colours and
/// the white space at its start are gone; `None` for a line that stops
/// short of the columns.
pub open spec fn network_in(clean: Seq<char>) -> Option<NetworkView> {
    if clean.len() < SECURITY_END {
        None
    } else {
        let name = crate::text::trimmed(clean.take(NAME_WIDTH as int));
        let security = crate::text::trimmed(
            clean.subrange(SECURITY_START as int, SECURITY_END as int),
        );
        let connected = crate::text::starts_with(name, ">   "@);
        Some(
            NetworkView {
                name: if connected {
                    name.skip(4)
                } else {
                    name
                },
                open: crate::text::contains(security, "open"@),
                currently_connected: connected,
            },
        )
    }
}

/// Model of an optional network.
pub open spec fn network_view(network: Option<Network>) -> Option<NetworkView> {
    match network {
        Some(n) => Some(n@),
        None => None,
    }
}

/// Reads a network from a line of the listing without colours and without
/// white space at its start. The network that is connected is marked with
/// an arrow before its name.
pub fn network_from(clean: &str) -> (network: Option<Network>)
    ensures
        network_view(network) == network_in(clean@),
{
    let chars = crate::text::chars_of(clean);
    if chars.len() < SECURITY_END {
        return None;
    }
    assert(chars@.subrange(0, NAME_WIDTH as int) =~= chars@.take(NAME_WIDTH as int));
    let column = crate::text::string_of(chars.as_slice(), 0, NAME_WIDTH);
    let name = crate::text::chars_of(crate::text::trim(column.as_str()));
    let column = crate::text::string_of(chars.as_slice(), SECURITY_START, SECURITY_END);
    let security = crate::text::trim(column.as_str());
    let arrow = crate::text::chars_of(">   ");
    let connected = crate::text::begins_with(name.as_slice(), arrow.as_slice());
    proof {
        reveal_strlit(">   ");
    }
    let shown = if connected {
        assert(name@.subrange(4, name.len() as int) =~= name@.skip(4));
        crate::text::string_of(name.as_slice(), 4, name.len())
    } else {
        assert(name@.subrange(0, name.len() as int) =~= name@);
        crate::text::string_of(name.as_slice(), 0, name.len())
    };
    Some(
        Network {
            name: shown,
            open: crate::text::str_contains(security, "open"),
            currently_connected: connected,
        },
    )
}

/// The network that a line of the listing describes.
pub open spec fn network_of(line: Seq<char>) -> Option<NetworkView> {
    match crate::pattern::regex_replaced(ANSI_ESCAPE@, line, ""@) {
        Some(stripped) => network_in(crate::text::trimmed_start(stripped)),
        None => None,
    }
}

/// The networks that `lines` describe, `None` if one of them describes
/// none.
pub open spec fn networks_of(lines: Seq<Seq<char>>) -> Option<Seq<NetworkView>>
    decreases lines.len(),
{
    if lines.len() == 0 {
        Some(seq![])
    } else {
        match (networks_of(lines.drop_last()), network_of(lines.last())) {
            (Some(earlier), Some(network)) => Some(earlier.push(network)),
            _ => None,
        }
    }
}

/// The networks of a listing: it opens with four lines of heading and
/// closes with one line that belongs to no network.
pub open spec fn listed(raw: Seq<char>) -> Option<Seq<NetworkView>> {
    let lines = crate::text::lines_of(raw);
    if lines.len() < 5 {
        None
    } else {
        networks_of(lines.subrange(4, lines.len() - 1))
    }
}

proof fn lemma_unreadable_line(lines: Seq<Seq<char>>, upto: int)
    requires
        0 <= upto <= lines.len(),
        networks_of(lines.take(upto)) is None,
    ensures
        networks_of(lines) is None,
    decreases lines.len() - upto,
{
    if upto < lines.len() {
        assert(lines.take(upto + 1).drop_last() =~= lines.take(upto));
        lemma_unreadable_line(lines, upto + 1);
    } else {
        assert(lines.take(upto) =~= lines);
    }
}

/// Model of an optional list of networks.
pub open spec fn list_view(list: Option<Vec<Network>>) -> Option<Seq<NetworkView>> {
    match list {
        Some(networks) => Some(networks.deep_view()),
        None => None,
    }
}

/// Reads the networks from `raw`, what the listing of networks has printed.
/// `None` for text that is no listing.
pub fn get_networks(raw: &str) -> (networks: Option<Vec<Network>>)
    ensures
        list_view(networks) == listed(raw@),
{
    let chars = crate::text::chars_of(raw);
    let spans = crate::text::line_spans(chars.as_slice());
    let ghost lines = crate::text::lines_of(raw@);
    if spans.len() < 5 {
        return None;
    }
    let end = spans.len() - 1;
    let ghost wanted = lines.subrange(4, end as int);
    let mut networks: Vec<Network> = Vec::new();
    let mut k: usize = 4;
    assert(wanted.take(0) =~= Seq::<Seq<char>>::empty());
    assert(networks.deep_view() =~= Seq::<NetworkView>::empty());
    while k < end
        invariant
            4 <= k <= end,
            end == spans.len() - 1,
            chars@ == raw@,
            lines == crate::text::lines_of(raw@),
            lines == crate::text::pieces(chars@, spans@),
            lines.len() == spans.len(),
            wanted == lines.subrange(4, end as int),
            forall|i: int|
                0 <= i < spans.len() ==> (#[trigger] spans[i]).0 <= spans[i].1 <= chars.len(),
            networks_of(wanted.take(k - 4)) == Some(networks.deep_view()),
        decreases end - k,
    {
        let (start, stop) = spans[k];
        let line = crate::text::string_of(chars.as_slice(), start, stop);
        proof {
            assert(wanted[k - 4] == line@);
            assert(wanted.take(k - 4 + 1).drop_last() =~= wanted.take(k - 4));
            assert(wanted.take(k - 4 + 1).last() == line@);
        }
        let found = match crate::pattern::replace_all(ANSI_ESCAPE, line.as_str(), "") {
            Ok(stripped) => network_from(crate::text::trim_start(stripped.as_str())),
            Err(_) => None,
        };
        match found {
            Some(network) => {
                let ghost before = networks.deep_view();
                networks.push(network);
                assert(networks.deep_view() =~= before.push(network@));
            },
            None => {
                proof {
                    assert(network_of(line@) is None);
                    assert(networks_of(wanted.take(k - 4 + 1)) is None);
                    lemma_unreadable_line(wanted, k - 4 + 1);
                }
                return None;
            },
        }
        k += 1;
    }
    assert(wanted.take(end - 4) =~= wanted);
    Some(networks)
}

} // verus!
