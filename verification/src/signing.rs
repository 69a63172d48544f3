//! The signature gate: nothing read from unencrypted storage is used before
//! its detached signature has been checked against the device's public key.

use vstd::prelude::*;

verus! {

/// OpenSSL's error stack. Its contents are never inspected here.
#[verifier::external_type_specification]
#[verifier::external_body]
pub struct ExErrorStack(openssl::error::ErrorStack);

/// Where the public key is kept on the init ramdisk.
pub const PUBKEY_PATH: &'static str = "/opt/key/public.pem";

/// Largest input, in bytes, that OpenSSL accepts as one memory buffer.
pub const MAX_PEM_LEN: usize = 0x7fff_ffff;

/// Whether OpenSSL decodes `pem` as a PEM-encoded SubjectPublicKeyInfo.
pub uninterp spec fn public_key_pem_parses(pem: Seq<u8>) -> bool;

/// What OpenSSL's SHA-256 digest verification says of `signature` over `data`
/// under the key encoded in `pem`: `Some(true)` for a signature that matches,
/// `Some(false)` for one that does not, `None` when OpenSSL reports an error
/// (a key that does not decode, a key type without digest support, a
/// signature that it cannot process).
pub uninterp spec fn signature_verdict(pem: Seq<u8>, data: Seq<u8>, signature: Seq<u8>) -> Option<
    bool,
>;

/// Calls `openssl::pkey::PKey::public_key_from_pem` and drops the key.
/// Trusted: the call succeeds exactly when [`public_key_pem_parses`] holds of
/// the bytes. The length bound keeps out the inputs on which OpenSSL's memory
/// buffer constructor panics.
#[verifier::external_body]
fn pem_decodes(pem: &[u8]) -> (decoded: Result<(), openssl::error::ErrorStack>)
    requires
        pem@.len() <= MAX_PEM_LEN,
    ensures
        decoded is Ok == public_key_pem_parses(pem@),
{
    openssl::pkey::PKey::public_key_from_pem(pem).map(|_key| ())
}

/// Decodes the key with `PKey::public_key_from_pem`, then runs
/// `openssl::sign::Verifier` (`new` with SHA-256, `update`, `verify`) over
/// `data` and `signature`. Trusted: the outcome is [`signature_verdict`] of
/// the three byte strings, an `Err` standing for `None`.
#[verifier::external_body]
fn digest_verify(pem: &[u8], data: &[u8], signature: &[u8]) -> (outcome: Result<
    bool,
    openssl::error::ErrorStack,
>)
    requires
        pem@.len() <= MAX_PEM_LEN,
    ensures
        match outcome {
            Ok(pass) => signature_verdict(pem@, data@, signature@) == Some(pass),
            Err(_) => signature_verdict(pem@, data@, signature@) is None,
        },
{
    let key = openssl::pkey::PKey::public_key_from_pem(pem)?;
    let mut verifier = openssl::sign::Verifier::new(
        openssl::hash::MessageDigest::sha256(),
        &key,
    )?;
    verifier.update(data)?;
    verifier.verify(signature)
}

/// Why a public key was refused.
#[derive(Debug, Clone, Copy, PartialEq, Eq, Structural)]
pub enum KeyError {
    /// The PEM text is longer than OpenSSL accepts.
    TooLong,
    /// The bytes do not decode as a public key.
    Malformed,
}

/// The device's public key, as PEM text that OpenSSL has accepted.
#[derive(Debug)]
pub struct PublicKey {
    pem: Vec<u8>,
}

impl PublicKey {
    #[verifier::type_invariant]
    spec fn bounded(&self) -> bool {
        self.pem@.len() <= MAX_PEM_LEN
    }

    /// The PEM text of the key.
    pub closed spec fn pem(&self) -> Seq<u8> {
        self.pem@
    }

    /// The PEM text of the key.
    pub fn as_pem(&self) -> (pem: &[u8])
        ensures
            pem@ == self.pem(),
    {
        self.pem.as_slice()
    }
}

/// Accepts `pem` as the device's public key if OpenSSL decodes it.
pub fn read_public_key(pem: Vec<u8>) -> (key: Result<PublicKey, KeyError>)
    ensures
        match key {
            Ok(k) => pem@.len() <= MAX_PEM_LEN && public_key_pem_parses(pem@) && k.pem() == pem@,
            Err(KeyError::TooLong) => pem@.len() > MAX_PEM_LEN,
            Err(KeyError::Malformed) => pem@.len() <= MAX_PEM_LEN && !public_key_pem_parses(pem@),
        },
{
    if pem.len() > MAX_PEM_LEN {
        return Err(KeyError::TooLong);
    }
    match pem_decodes(pem.as_slice()) {
        Ok(_) => Ok(PublicKey { pem }),
        Err(_) => Err(KeyError::Malformed),
    }
}

/// How a verification outcome is read: only a positive verdict
/// passes; a mismatch and an error both fail.
pub fn fail_closed(verdict: Option<bool>) -> (pass: bool)
    ensures
        pass == (verdict == Some(true)),
{
    match verdict {
        Some(pass) => pass,
        None => false,
    }
}

/// Model of an optional byte string.
pub open spec fn bytes_view(bytes: Option<&[u8]>) -> Option<Seq<u8>> {
    match bytes {
        Some(b) => Some(b@),
        None => None,
    }
}

/// Whether an enforcing build lets `data` through: the signature is present
/// and OpenSSL confirms it.
pub open spec fn accepts(pem: Seq<u8>, data: Seq<u8>, signature: Option<Seq<u8>>) -> bool {
    match signature {
        Some(s) => signature_verdict(pem, data, s) == Some(true),
        None => false,
    }
}

/// Path of the detached signature of `file`.
pub fn signature_path(file: &str) -> (path: String)
    ensures
        path@ == file@ + crate::GENERIC_DIGEST_EXT@,
{
    String::from_str(file).concat(crate::GENERIC_DIGEST_EXT)
}

/// Checks the detached `signature` of `data` against `pubkey`.
///
/// `signature` is `None` when the signature file does not exist. With
/// `FREE_ROAM` set nothing is verified: every artifact passes. The
/// parameter is fixed when the program is compiled, so that no value read at
/// run time can switch verification off.
pub fn check_signature<const FREE_ROAM: bool>(
    pubkey: &PublicKey,
    data: &[u8],
    signature: Option<&[u8]>,
) -> (pass: bool)
    ensures
        pass == (FREE_ROAM || accepts(pubkey.pem(), data@, bytes_view(signature))),
        FREE_ROAM ==> pass,
        !FREE_ROAM && signature is None ==> !pass,
{
    if FREE_ROAM {
        return true;
    }
    match signature {
        None => false,
        Some(signature) => {
            proof {
                use_type_invariant(pubkey);
            }
            let verdict = match digest_verify(pubkey.as_pem(), data, signature) {
                Ok(pass) => Some(pass),
                Err(_) => None,
            };
            fail_closed(verdict)
        },
    }
}

/// Directory of the public key on the init ramdisk.
pub const PUBKEY_DIR: &'static str = "/opt/key/";

/// Length of the base64 text of the public key at the end of the kernel
/// command line.
pub const CMDLINE_KEY_LEN: usize = 604;

/// Why no public key was had from the kernel command line.
#[derive(Debug, Clone, Copy, PartialEq, Eq, Structural)]
pub enum CmdlineKeyError {
    /// The command line is shorter than a key.
    TooShort,
    /// The end of the command line is no base64 text.
    NotBase64,
    /// The decoded bytes are no public key.
    Key(KeyError),
}

/// The text of the key on the command line: the last characters before the
/// final one, which ends the line.
pub open spec fn cmdline_key_text(cmdline: Seq<char>) -> Seq<char> {
    cmdline.subrange(cmdline.len() - 1 - CMDLINE_KEY_LEN, cmdline.len() - 1)
}

/// Steps that keep the decoded key on the init ramdisk.
pub open spec fn store_key_plan(pem: Seq<u8>) -> Seq<crate::action::ActionView> {
    seq![
        crate::action::create_dir_all(PUBKEY_DIR@),
        crate::action::ActionView::WriteBytes { path: PUBKEY_PATH@, contents: pem },
    ]
}

/// Takes the public key from the end of the kernel command line, where the
/// boot loader has put it in base64, and gives the steps that keep it on the
/// init ramdisk.
pub fn decode_public_key_from_cmdline(cmdline: &str) -> (result: Result<
    (PublicKey, Vec<crate::action::Action>),
    CmdlineKeyError,
>)
    ensures
        match result {
            Ok((key, store)) => cmdline@.len() > CMDLINE_KEY_LEN && crate::encoding::base64_decoded(
                cmdline_key_text(cmdline@),
            ) == Some(key.pem()) && public_key_pem_parses(key.pem()) && store.deep_view()
                == store_key_plan(key.pem()),
            Err(CmdlineKeyError::TooShort) => cmdline@.len() <= CMDLINE_KEY_LEN,
            Err(CmdlineKeyError::NotBase64) => cmdline@.len() > CMDLINE_KEY_LEN
                && crate::encoding::base64_decoded(cmdline_key_text(cmdline@)) is None,
            Err(CmdlineKeyError::Key(_)) => cmdline@.len() > CMDLINE_KEY_LEN && (
            crate::encoding::base64_decoded(cmdline_key_text(cmdline@)) matches Some(pem) && !(
            pem.len() <= MAX_PEM_LEN && public_key_pem_parses(pem))),
        },
{
    let chars = crate::text::chars_of(cmdline);
    if chars.len() <= CMDLINE_KEY_LEN {
        return Err(CmdlineKeyError::TooShort);
    }
    let end = chars.len() - 1;
    let text = crate::text::string_of(chars.as_slice(), end - CMDLINE_KEY_LEN, end);
    let pem = match crate::encoding::decode(text.as_str()) {
        Ok(pem) => pem,
        Err(_) => {
            return Err(CmdlineKeyError::NotBase64);
        },
    };
    let mut store: Vec<crate::action::Action> = Vec::new();
    crate::action::push_action(
        &mut store,
        crate::action::Action::mkdir(String::from_str(PUBKEY_DIR)),
    );
    crate::action::push_action(
        &mut store,
        crate::action::Action::WriteBytes {
            path: String::from_str(PUBKEY_PATH),
            contents: pem.clone(),
        },
    );
    assert(store.deep_view() =~= store_key_plan(pem@));
    match read_public_key(pem) {
        Ok(key) => Ok((key, store)),
        Err(e) => Err(CmdlineKeyError::Key(e)),
    }
}

} // verus!
