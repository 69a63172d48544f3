//! The debug framework: networking over USB, a secure shell, and a script
//! that is run at login. What comes from the user is used only if its
//! signature is accepted.

use crate::action::{push_action, run, Action, ActionView, Command};
use crate::boot_config::{opt_view, BootConfig};
use crate::pattern::{regex_capture, PatternError};
use crate::signing::{bytes_view, check_signature, PublicKey};
use crate::text::{chars_of, concat2, concat3, join, slash, starts_with, trim, trimmed};
use vstd::prelude::*;

verus! {

/// Address of the device on the USB network.
pub const IP_ADDR: &'static str = "192.168.2.2";

/// Last address that is lent out on the USB network.
pub const IP_POOL_END: &'static str = "192.168.2.254";

pub const UDHCPD_CONF_PATH: &'static str = "/etc/udhcpd.conf";

pub const DROPBEAR_RSA_KEY_FILE: &'static str = "rsa_hkey";

pub const DEBUG_SETUP_SCRIPT: &'static str = "debug-setup.sh";

pub const COPIED_DEBUG_SCRIPT: &'static str = ".profile";

pub const USER_UDHCPD_CONF_FILE: &'static str = "udhcpd.conf";

/// The pattern of an address in a configuration.
pub const IP_PATTERN: &'static str = r"\b(?:\d{1,3}\.){3}\d{1,3}\b";

/// The shell line that prints a random, locally administered MAC address.
pub const MAC_GENERATE_LINE: &'static str =
    "printf '%02x' $((0x$(od /dev/urandom -N1 -t x1 -An | tr -d ' ') & 0xFE | 0x02)); od /dev/urandom -N5 -t x1 -An | tr ' '  ':'";

/// Path of the file `name` in the boot directory of the data partition.
pub open spec fn boot_file(name: Seq<char>) -> Seq<char> {
    slash(slash(crate::DATA_PART_MOUNTPOINT@, crate::BOOT_DIR@), name)
}

/// Path of the file `name` in the boot directory of the data partition.
pub fn boot_file_path(name: &str) -> (path: String)
    ensures
        path@ == boot_file(name@),
{
    let boot = join(crate::DATA_PART_MOUNTPOINT, crate::BOOT_DIR);
    join(boot.as_str(), name)
}

/// The two MAC addresses of the USB network that the configuration holds:
/// that of the host and that of the device. `None` unless both are there.
pub open spec fn configured_addresses(debug: Option<crate::boot_config::Debug>) -> Option<(Seq<char>, Seq<char>)> {
    match debug {
        Some(d) => match (d.usbnet_host_mac_address, d.usbnet_dev_mac_address) {
            (Some(host), Some(dev)) if host@.len() > 0 && dev@.len() > 0 => Some((host@, dev@)),
            _ => None,
        },
        None => None,
    }
}

/// Model of a pair of optional addresses.
pub open spec fn addresses_view(addresses: Option<(String, String)>) -> Option<
    (Seq<char>, Seq<char>),
> {
    match addresses {
        Some((host, dev)) => Some((host@, dev@)),
        None => None,
    }
}

/// The MAC addresses to use, if the configuration holds both. Where it
/// does not, new ones are to be generated; see [`mac_generate_command`] and
/// [`record_addresses`].
pub fn usbnet_addresses(boot_config: &BootConfig) -> (addresses: Option<(String, String)>)
    ensures
        addresses_view(addresses) == configured_addresses(boot_config.debug),
{
    match &boot_config.debug {
        Some(d) => match (&d.usbnet_host_mac_address, &d.usbnet_dev_mac_address) {
            (Some(host), Some(dev)) => {
                if host.as_str().is_empty() || dev.as_str().is_empty() {
                    None
                } else {
                    Some((host.clone(), dev.clone()))
                }
            },
            _ => None,
        },
        None => None,
    }
}

/// The command that prints a new MAC address.
pub fn mac_generate_command() -> (command: Command)
    ensures
        command@.program == "/bin/sh"@,
        command@.args == seq!["-c"@, MAC_GENERATE_LINE@],
{
    let mut command = Command::new("/bin/sh");
    command.arg("-c");
    command.arg(MAC_GENERATE_LINE);
    assert(command@.args =~= seq!["-c"@, MAC_GENERATE_LINE@]);
    command
}

/// Puts two newly generated MAC addresses on record: what the generator
/// printed, without the white space around it.
pub fn record_addresses(boot_config: &mut BootConfig, host_output: &str, dev_output: &str) -> (addresses:
    (String, String))
    ensures
        addresses.0@ == trimmed(host_output@),
        addresses.1@ == trimmed(dev_output@),
        final(boot_config).flags == old(boot_config).flags,
        final(boot_config).rootfs == old(boot_config).rootfs,
        final(boot_config).system == old(boot_config).system,
        final(boot_config).debug matches Some(d) && opt_view(d.usbnet_host_mac_address) == Some(
            trimmed(host_output@),
        ) && opt_view(d.usbnet_dev_mac_address) == Some(trimmed(dev_output@)),
{
    let host = String::from_str(trim(host_output));
    let dev = String::from_str(trim(dev_output));
    boot_config.debug = Some(
        crate::boot_config::Debug {
            usbnet_host_mac_address: Some(host.clone()),
            usbnet_dev_mac_address: Some(dev.clone()),
        },
    );
    (host, dev)
}

/// Model of [`usbnet_modules`].
pub open spec fn usbnet_modules_plan(host: Seq<char>, dev: Seq<char>) -> Seq<ActionView> {
    seq![
        run("/sbin/modprobe"@, seq!["phy-rockchip-inno-usb2"@]),
        run("/sbin/modprobe"@, seq!["g_ether"@, "host_addr="@ + host, "dev_addr="@ + dev]),
    ]
}

/// Loads the modules of the USB network with the two MAC addresses.
pub fn usbnet_modules(host: &str, dev: &str) -> (plan: Vec<Action>)
    ensures
        plan.deep_view() == usbnet_modules_plan(host@, dev@),
{
    let mut plan: Vec<Action> = Vec::new();
    let mut phy: Vec<String> = Vec::new();
    phy.push(String::from_str("phy-rockchip-inno-usb2"));
    assert(phy.deep_view() =~= seq!["phy-rockchip-inno-usb2"@]);
    push_action(&mut plan, crate::system::modprobe(&phy));
    let mut ether: Vec<String> = Vec::new();
    ether.push(String::from_str("g_ether"));
    ether.push(concat2("host_addr=", host));
    ether.push(concat2("dev_addr=", dev));
    assert(ether.deep_view() =~= seq!["g_ether"@, "host_addr="@ + host@, "dev_addr="@ + dev@]);
    push_action(&mut plan, crate::system::modprobe(&ether));
    assert(plan.deep_view() =~= usbnet_modules_plan(host@, dev@));
    plan
}

/// The first of `names` that begins with `usb`.
pub open spec fn first_usb(names: Seq<Seq<char>>) -> Option<Seq<char>>
    decreases names.len(),
{
    if names.len() == 0 {
        None
    } else if starts_with(names.first(), "usb"@) {
        Some(names.first())
    } else {
        first_usb(names.drop_first())
    }
}

/// The interface of the USB network among the machine's interfaces: the
/// first whose name begins with `usb`.
pub fn usb_interface(names: &Vec<String>) -> (iface: Option<String>)
    ensures
        opt_view(iface) == first_usb(names.deep_view()),
{
    let ghost all = names.deep_view();
    let prefix = chars_of("usb");
    let mut i: usize = 0;
    assert(all.skip(0) =~= all);
    while i < names.len()
        invariant
            i <= names.len(),
            all == names.deep_view(),
            prefix@ == "usb"@,
            first_usb(all.skip(i as int)) == first_usb(all),
        decreases names.len() - i,
    {
        assert(all.skip(i as int).first() == names[i as int]@);
        assert(all.skip(i as int).drop_first() =~= all.skip(i + 1));
        let name = chars_of(names[i].as_str());
        if crate::text::begins_with(name.as_slice(), prefix.as_slice()) {
            return Some(names[i].clone());
        }
        i += 1;
    }
    None
}

/// Model of bringing a network interface up.
pub open spec fn ifconfig(iface: Seq<char>, what: Seq<char>) -> ActionView {
    run("/sbin/ifconfig"@, seq![iface, what])
}

fn ifconfig_action(iface: &str, what: &str) -> (action: Action)
    ensures
        action@ == ifconfig(iface@, what@),
{
    let mut command = Command::new("/sbin/ifconfig");
    command.arg(iface);
    command.arg(what);
    assert(command@.args =~= seq![iface@, what@]);
    Action::run_command(command)
}

/// The configuration of the address server when the user has given none.
pub open spec fn default_udhcpd_conf(iface: Seq<char>) -> Seq<char> {
    "start "@ + IP_ADDR@ + "\nend "@ + IP_POOL_END@ + "\ninterface "@ + iface + "\n"@
}

/// Model of [`start_usbnet`].
pub open spec fn usbnet_plan(iface: Seq<char>, user_conf_accepted: bool) -> Seq<ActionView> {
    seq![
        ifconfig(iface, "up"@),
        if user_conf_accepted {
            ActionView::CopyFile { from: boot_file(USER_UDHCPD_CONF_FILE@), to: UDHCPD_CONF_PATH@ }
        } else {
            ActionView::WriteFile { path: UDHCPD_CONF_PATH@, contents: default_udhcpd_conf(iface) }
        },
    ]
}

/// Brings the USB interface `iface` up and puts the configuration of the
/// address server in place: the user's own, if there is one and its
/// signature is accepted, and the default otherwise.
///
/// `user_conf` holds the bytes of the user's configuration, `None` if there
/// is none; `signature` those of its detached signature.
pub fn start_usbnet<const FREE_ROAM: bool>(
    pubkey: &PublicKey,
    iface: &str,
    user_conf: Option<&[u8]>,
    signature: Option<&[u8]>,
) -> (plan: Vec<Action>)
    ensures
        plan.deep_view() == usbnet_plan(
            iface@,
            crate::rootfs::image_admitted(
                FREE_ROAM,
                pubkey.pem(),
                bytes_view(user_conf),
                bytes_view(signature),
            ),
        ),
{
    let accepted = match user_conf {
        Some(data) => check_signature::<FREE_ROAM>(pubkey, data, signature),
        None => false,
    };
    let mut plan: Vec<Action> = Vec::new();
    push_action(&mut plan, ifconfig_action(iface, "up"));
    if accepted {
        push_action(
            &mut plan,
            Action::CopyFile {
                from: boot_file_path(USER_UDHCPD_CONF_FILE),
                to: String::from_str(UDHCPD_CONF_PATH),
            },
        );
    } else {
        let mut conf = concat3("start ", IP_ADDR, "\nend ");
        conf.append(IP_POOL_END);
        conf.append("\ninterface ");
        conf.append(iface);
        conf.append("\n");
        push_action(
            &mut plan,
            Action::WriteFile { path: String::from_str(UDHCPD_CONF_PATH), contents: conf },
        );
    }
    assert(plan.deep_view() =~= usbnet_plan(iface@, accepted));
    plan
}

/// Steps that give `iface` the address `address` and start the address
/// server.
pub open spec fn usbnet_address_plan(iface: Seq<char>, address: Seq<char>) -> Seq<ActionView> {
    seq![ifconfig(iface, address), run("/usr/sbin/udhcpd"@, seq![UDHCPD_CONF_PATH@])]
}

/// Gives the USB interface its address and starts the address server. The
/// address is `found`, the first one in the server's configuration, or the
/// default where the configuration names none.
pub fn usbnet_serve(iface: &str, found: Option<&str>) -> (plan: Vec<Action>)
    ensures
        plan.deep_view() == usbnet_address_plan(
            iface@,
            match found {
                Some(address) => address@,
                None => IP_ADDR@,
            },
        ),
{
    let address = match found {
        Some(address) => address,
        None => IP_ADDR,
    };
    let mut plan: Vec<Action> = Vec::new();
    push_action(&mut plan, ifconfig_action(iface, address));
    let mut udhcpd = Command::new("/usr/sbin/udhcpd");
    udhcpd.arg(UDHCPD_CONF_PATH);
    assert(udhcpd@.args =~= seq![UDHCPD_CONF_PATH@]);
    push_action(&mut plan, Action::run_command(udhcpd));
    assert(plan.deep_view() =~= usbnet_address_plan(iface@, address@));
    plan
}

/// Gives the USB interface the first address that `udhcpd_config`, the text
/// of the server's configuration, names, and starts the address server.
pub fn usbnet_address(iface: &str, udhcpd_config: &str) -> (result: Result<
    Vec<Action>,
    PatternError,
>)
    ensures
        match regex_capture(IP_PATTERN@, udhcpd_config@, 0) {
            Some(found) => result matches Ok(plan) && plan.deep_view() == usbnet_address_plan(
                iface@,
                match found {
                    Some(address) => address,
                    None => IP_ADDR@,
                },
            ),
            None => result is Err,
        },
{
    match crate::pattern::capture(IP_PATTERN, udhcpd_config, 0) {
        Ok(Some(address)) => Ok(usbnet_serve(iface, Some(address.as_str()))),
        Ok(None) => Ok(usbnet_serve(iface, None)),
        Err(_) => Err(PatternError),
    }
}

/// Model of [`start_sshd`].
pub open spec fn sshd_plan(key_exists: bool) -> Seq<ActionView> {
    let key = boot_file(DROPBEAR_RSA_KEY_FILE@);
    let serve = run("/usr/sbin/dropbear"@, seq!["-p"@, "2222"@, "-r"@, key, "-B"@]);
    if key_exists {
        seq![serve]
    } else {
        seq![run("/usr/bin/dropbearkey"@, seq!["-t"@, "rsa"@, "-f"@, key]), serve]
    }
}

/// Starts the secure shell server, with a host key that is generated on
/// the first start and kept.
pub fn start_sshd(key_exists: bool) -> (plan: Vec<Action>)
    ensures
        plan.deep_view() == sshd_plan(key_exists),
{
    let key = boot_file_path(DROPBEAR_RSA_KEY_FILE);
    let mut plan: Vec<Action> = Vec::new();
    if !key_exists {
        let mut generate = Command::new("/usr/bin/dropbearkey");
        generate.arg("-t");
        generate.arg("rsa");
        generate.arg("-f");
        generate.arg(key.as_str());
        assert(generate@.args =~= seq!["-t"@, "rsa"@, "-f"@, key@]);
        push_action(&mut plan, Action::run_command(generate));
    }
    let mut serve = Command::new("/usr/sbin/dropbear");
    serve.arg("-p");
    serve.arg("2222");
    serve.arg("-r");
    serve.arg(key.as_str());
    serve.arg("-B");
    assert(serve@.args =~= seq!["-p"@, "2222"@, "-r"@, key@, "-B"@]);
    push_action(&mut plan, Action::run_command(serve));
    assert(plan.deep_view() =~= sshd_plan(key_exists));
    plan
}

/// Puts the user's set-up script where it is run at login, if there is one
/// and its signature is accepted. Nothing is done otherwise.
pub fn prepare_script_login<const FREE_ROAM: bool>(
    pubkey: &PublicKey,
    script: Option<&[u8]>,
    signature: Option<&[u8]>,
) -> (copy: Option<Action>)
    ensures
        match copy {
            Some(action) => crate::rootfs::image_admitted(
                FREE_ROAM,
                pubkey.pem(),
                bytes_view(script),
                bytes_view(signature),
            ) && action@ == (ActionView::CopyFile {
                from: boot_file(DEBUG_SETUP_SCRIPT@),
                to: slash(crate::HOME_DIR@, COPIED_DEBUG_SCRIPT@),
            }),
            None => !crate::rootfs::image_admitted(
                FREE_ROAM,
                pubkey.pem(),
                bytes_view(script),
                bytes_view(signature),
            ),
        },
{
    let accepted = match script {
        Some(data) => check_signature::<FREE_ROAM>(pubkey, data, signature),
        None => false,
    };
    if accepted {
        Some(
            Action::CopyFile {
                from: boot_file_path(DEBUG_SETUP_SCRIPT),
                to: join(crate::HOME_DIR, COPIED_DEBUG_SCRIPT),
            },
        )
    } else {
        None
    }
}

} // verus!
