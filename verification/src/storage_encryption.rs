//! Encrypted home directories.
//!
//! A user with a password has an encrypted home directory; a user without
//! one has a home directory that is encrypted with a fixed, public
//! password, which is as good as none.

use crate::action::{run, Action, ActionView, Command};
use crate::system::{bulletproof_unmount, bulletproof_unmount_plan};
use crate::text::{chars_of, concat2, join, slash, string_of};
use vstd::prelude::*;

verus! {

pub const GOCRYPTFS_BINARY: &'static str = "/usr/bin/gocryptfs";

/// Name of the file that marks a home directory as encrypted in name only.
pub const DISABLED_MODE_FILE: &'static str = "encryption_disabled";

/// The password of every home directory that is encrypted in name only.
pub const DISABLED_MODE_PASSWORD: &'static str = "ENCRYPTION DISABLED";

/// What is shown for a detail that the configuration does not hold.
pub const NOT_FOUND: &'static str = "Not found";

/// Why a document was refused. Its contents are never inspected here.
#[verifier::external_type_specification]
#[verifier::external_body]
pub struct ExJsonError(serde_json::Error);

/// The string that the JSON text `document` holds at `pointer`, a JSON
/// Pointer. `None` where the text is no JSON document; `Some(None)` where
/// the document holds nothing there, or something that is no string.
pub uninterp spec fn json_string(document: Seq<char>, pointer: Seq<char>) -> Option<
    Option<Seq<char>>,
>;

/// Parses `document` with `serde_json::from_str`, looks `pointer` up with
/// `Value::pointer` and takes the string with `Value::as_str`. Trusted: the
/// outcome is [`json_string`] of the arguments, an `Err` standing for text
/// that does not parse.
#[verifier::external_body]
fn string_at(document: &str, pointer: &str) -> (found: Result<Option<String>, serde_json::Error>)
    ensures
        match found {
            Ok(Some(text)) => json_string(document@, pointer@) == Some(Some(text@)),
            Ok(None) => json_string(document@, pointer@) == Some(None::<Seq<char>>),
            Err(_) => json_string(document@, pointer@) is None,
        },
{
    let value: serde_json::Value = serde_json::from_str(document)?;
    Ok(value.pointer(pointer).and_then(|v| v.as_str()).map(|s| s.to_string()))
}

/// What init knows of a user's encrypted home directory.
#[derive(Debug, Clone, PartialEq, Eq)]
pub struct UserDetails {
    pub encryption_enabled: bool,
    pub encrypted_key: String,
    pub salt: String,
}

/// One entry of the directory that holds the home directories.
#[derive(Debug, Clone, PartialEq, Eq)]
pub struct HomeEntry {
    /// Name of the entry. An encrypted home directory bears the name of its
    /// user after a dot.
    pub file_name: String,
    pub is_dir: bool,
    /// Whether the entry holds an encryption configuration.
    pub configured: bool,
}

/// The user of the encrypted home directory `file_name`: the name without
/// its first character.
pub open spec fn user_of(file_name: Seq<char>) -> Seq<char> {
    if file_name.len() == 0 {
        file_name
    } else {
        file_name.drop_first()
    }
}

/// The users of the encrypted home directories among `entries`, in order.
pub open spec fn encrypted_users(entries: Seq<HomeEntry>) -> Seq<Seq<char>>
    decreases entries.len(),
{
    if entries.len() == 0 {
        seq![]
    } else {
        let earlier = encrypted_users(entries.drop_last());
        if entries.last().is_dir && entries.last().configured {
            earlier.push(user_of(entries.last().file_name@))
        } else {
            earlier
        }
    }
}

/// The directory that holds the home directories, on the main partition.
pub fn system_home_path() -> (path: String)
    ensures
        path@ == slash(crate::MAIN_PART_MOUNTPOINT@, crate::SYSTEM_HOME_DIR@),
{
    join(crate::MAIN_PART_MOUNTPOINT, crate::SYSTEM_HOME_DIR)
}

/// The users whose home directory is encrypted.
pub fn get_users_using_storage_encryption(entries: &Vec<HomeEntry>) -> (users: Vec<String>)
    ensures
        users.deep_view() == encrypted_users(entries@),
{
    let mut users: Vec<String> = Vec::new();
    let mut i: usize = 0;
    assert(entries@.take(0) =~= Seq::<HomeEntry>::empty());
    assert(users.deep_view() =~= Seq::<Seq<char>>::empty());
    while i < entries.len()
        invariant
            i <= entries.len(),
            users.deep_view() == encrypted_users(entries@.take(i as int)),
        decreases entries.len() - i,
    {
        proof {
            assert(entries@.take(i + 1).drop_last() =~= entries@.take(i as int));
            assert(entries@.take(i + 1).last() == entries[i as int]);
        }
        let entry = &entries[i];
        if entry.is_dir && entry.configured {
            let name = chars_of(entry.file_name.as_str());
            let ghost before = users.deep_view();
            let user = if name.len() == 0 {
                assert(name@.subrange(0, 0) =~= name@);
                string_of(name.as_slice(), 0, 0)
            } else {
                assert(name@.subrange(1, name.len() as int) =~= name@.drop_first());
                string_of(name.as_slice(), 1, name.len())
            };
            users.push(user);
            assert(users.deep_view() =~= before.push(user_of(entry.file_name@)));
        }
        i += 1;
    }
    assert(entries@.take(entries.len() as int) =~= entries@);
    users
}

/// Path of `name` in the encrypted home directory of `user`, on the main
/// partition.
pub open spec fn encrypted_home_file(user: Seq<char>, name: Seq<char>) -> Seq<char> {
    slash(slash(crate::MAIN_PART_MOUNTPOINT@, crate::SYSTEM_HOME_DIR@) + "/."@ + user, name)
}

fn home_file(user: &str, name: &str) -> (path: String)
    ensures
        path@ == encrypted_home_file(user@, name@),
{
    let mut home = system_home_path();
    home.append("/.");
    home.append(user);
    join(home.as_str(), name)
}

/// Path of the file whose presence marks the home directory of `user` as
/// encrypted in name only.
pub fn disabled_mode_path(user: &str) -> (path: String)
    ensures
        path@ == encrypted_home_file(user@, DISABLED_MODE_FILE@),
{
    home_file(user, DISABLED_MODE_FILE)
}

/// Path of the encryption configuration of `user`.
pub fn encryption_config_path(user: &str) -> (path: String)
    ensures
        path@ == encrypted_home_file(user@, "gocryptfs.conf"@),
{
    home_file(user, "gocryptfs.conf")
}

/// Whether a home directory is encrypted in earnest: it is unless it is
/// marked otherwise.
pub fn get_user_storage_encryption_status(disabled_mode_file_exists: bool) -> (enabled: bool)
    ensures
        enabled == !disabled_mode_file_exists,
{
    !disabled_mode_file_exists
}

/// The configuration is no JSON document.
#[derive(Debug, Clone, Copy, PartialEq, Eq, Structural)]
pub struct MalformedConfig;

/// The details that are shown for a key and a salt as they were found in
/// a configuration: both, or neither.
pub fn user_details(encryption_enabled: bool, encrypted_key: Option<String>, salt: Option<String>) -> (details:
    UserDetails)
    ensures
        details.encryption_enabled == encryption_enabled,
        match (encrypted_key, salt) {
            (Some(key), Some(salt)) => details.encrypted_key@ == key@ && details.salt@ == salt@,
            _ => details.encrypted_key@ == NOT_FOUND@ && details.salt@ == NOT_FOUND@,
        },
{
    match (encrypted_key, salt) {
        (Some(key), Some(salt)) => UserDetails { encryption_enabled, encrypted_key: key, salt },
        _ => UserDetails {
            encryption_enabled,
            encrypted_key: String::from_str(NOT_FOUND),
            salt: String::from_str(NOT_FOUND),
        },
    }
}

/// Reads the details of a user's encryption from `config`, the text of the
/// user's encryption configuration.
pub fn get_encryption_user_details(config: &str, encryption_enabled: bool) -> (result: Result<
    UserDetails,
    MalformedConfig,
>)
    ensures
        match (json_string(config@, "/EncryptedKey"@), json_string(config@, "/ScryptObject/Salt"@)) {
            (Some(key), Some(salt)) => result matches Ok(details) && details.encryption_enabled
                == encryption_enabled && match (key, salt) {
                (Some(key), Some(salt)) => details.encrypted_key@ == key && details.salt@ == salt,
                _ => details.encrypted_key@ == NOT_FOUND@ && details.salt@ == NOT_FOUND@,
            },
            _ => result is Err,
        },
{
    let key = match string_at(config, "/EncryptedKey") {
        Ok(key) => key,
        Err(_) => {
            return Err(MalformedConfig);
        },
    };
    let salt = match string_at(config, "/ScryptObject/Salt") {
        Ok(salt) => salt,
        Err(_) => {
            return Err(MalformedConfig);
        },
    };
    Ok(user_details(encryption_enabled, key, salt))
}

/// The directory in the assembled tree under which home directories are
/// mounted.
pub open spec fn home_base() -> Seq<char> {
    slash(crate::OVERLAY_MOUNTPOINT@, crate::SYSTEM_HOME_DIR@)
}

/// The directory in the assembled tree under which home directories are
/// mounted. Nothing is mounted under it before it is a mountpoint itself.
pub fn home_base_path() -> (path: String)
    ensures
        path@ == home_base(),
{
    join(crate::OVERLAY_MOUNTPOINT, crate::SYSTEM_HOME_DIR)
}

/// Where the home directory of `user` is mounted.
pub fn home_mountpoint_path(user: &str) -> (path: String)
    ensures
        path@ == slash(home_base(), user@),
{
    join(home_base_path().as_str(), user)
}

/// The home directory is mounted already.
#[derive(Debug, Clone, Copy, PartialEq, Eq, Structural)]
pub struct AlreadyMounted;

/// Model of [`mount_storage`].
pub open spec fn mount_storage_action(user: Seq<char>, password: Seq<char>) -> ActionView {
    run(
        "/bin/sh"@,
        seq![
            "-c"@,
            "printf '"@ + password + "' | "@ + GOCRYPTFS_BINARY@ + " -allow_other "@ + (home_base()
                + "/."@ + user) + " "@ + slash(home_base(), user),
        ],
    )
}

/// The command that mounts the home directory of `user` with `password`.
pub fn storage_mount(user: &str, password: &str) -> (action: Action)
    ensures
        action@ == mount_storage_action(user@, password@),
{
    let base = home_base_path();
    let mut encrypted = concat2(base.as_str(), "/.");
    encrypted.append(user);
    let mountpoint = join(base.as_str(), user);
    let mut line = concat2("printf '", password);
    line.append("' | ");
    line.append(GOCRYPTFS_BINARY);
    line.append(" -allow_other ");
    line.append(encrypted.as_str());
    line.append(" ");
    line.append(mountpoint.as_str());
    let mut shell = Command::new("/bin/sh");
    shell.arg("-c");
    shell.arg(line.as_str());
    assert(shell@.args =~= seq![
        "-c"@,
        "printf '"@ + password@ + "' | "@ + GOCRYPTFS_BINARY@ + " -allow_other "@ + (home_base()
            + "/."@ + user@) + " "@ + slash(home_base(), user@),
    ]);
    Action::run_command(shell)
}

/// Mounts the home directory of `user` with `password`, unless it is
/// `mounted` already.
pub fn mount_storage(user: &str, password: &str, mounted: bool) -> (result: Result<
    Action,
    AlreadyMounted,
>)
    ensures
        match result {
            Ok(action) => !mounted && action@ == mount_storage_action(user@, password@),
            Err(_) => mounted,
        },
{
    if mounted {
        Err(AlreadyMounted)
    } else {
        Ok(storage_mount(user, password))
    }
}

/// Unmounts the home directory of `user`.
pub fn unmount_storage(user: &str) -> (plan: Vec<Action>)
    ensures
        plan.deep_view() == bulletproof_unmount_plan(slash(home_base(), user@)),
{
    bulletproof_unmount(home_mountpoint_path(user).as_str())
}

} // verus!
