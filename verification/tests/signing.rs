use libqinit::action::Action;
use libqinit::signing::{
    check_signature, decode_public_key_from_cmdline, fail_closed, read_public_key, signature_path,
    CmdlineKeyError, KeyError, PublicKey,
};

fn key_pair() -> openssl::pkey::PKey<openssl::pkey::Private> {
    let group = openssl::ec::EcGroup::from_curve_name(openssl::nid::Nid::X9_62_PRIME256V1).unwrap();
    let key = openssl::ec::EcKey::generate(&group).unwrap();
    openssl::pkey::PKey::from_ec_key(key).unwrap()
}

fn sign(pkey: &openssl::pkey::PKey<openssl::pkey::Private>, data: &[u8]) -> Vec<u8> {
    let mut signer =
        openssl::sign::Signer::new(openssl::hash::MessageDigest::sha256(), pkey).unwrap();
    signer.update(data).unwrap();
    signer.sign_to_vec().unwrap()
}

fn public(pkey: &openssl::pkey::PKey<openssl::pkey::Private>) -> PublicKey {
    read_public_key(pkey.public_key_to_pem().unwrap()).unwrap()
}

#[test]
fn unmodified_artifact_with_matching_key_passes() {
    let pkey = key_pair();
    let data = b"firmware".to_vec();
    let signature = sign(&pkey, &data);
    assert!(check_signature::<false>(&public(&pkey), &data, Some(&signature)));
}

#[test]
fn absent_signature_fails() {
    let pkey = key_pair();
    assert!(!check_signature::<false>(&public(&pkey), b"firmware", None));
}

#[test]
fn truncated_signature_fails() {
    let pkey = key_pair();
    let data = b"firmware".to_vec();
    let signature = sign(&pkey, &data);
    for keep in [0, 1, signature.len() / 2, signature.len() - 1] {
        assert!(
            !check_signature::<false>(&public(&pkey), &data, Some(&signature[..keep])),
            "a signature cut to {} bytes passed",
            keep
        );
    }
}

#[test]
fn signature_of_another_key_fails() {
    let pkey = key_pair();
    let other = key_pair();
    let data = b"firmware".to_vec();
    let signature = sign(&other, &data);
    assert!(!check_signature::<false>(&public(&pkey), &data, Some(&signature)));
}

#[test]
fn modified_artifact_fails() {
    let pkey = key_pair();
    let signature = sign(&pkey, b"firmware");
    assert!(!check_signature::<false>(&public(&pkey), b"firmwarf", Some(&signature)));
    assert!(!check_signature::<false>(&public(&pkey), b"", Some(&signature)));
}

#[test]
fn rsa_key_is_accepted_too() {
    let rsa = openssl::rsa::Rsa::generate(2048).unwrap();
    let pkey = openssl::pkey::PKey::from_rsa(rsa).unwrap();
    let data = b"rootfs".to_vec();
    let signature = sign(&pkey, &data);
    assert!(check_signature::<false>(&public(&pkey), &data, Some(&signature)));
    assert!(!check_signature::<false>(&public(&pkey), b"rootfz", Some(&signature)));
}

#[test]
fn free_roam_build_passes_everything() {
    let pkey = key_pair();
    let key = public(&pkey);
    assert!(check_signature::<true>(&key, b"anything", None));
    assert!(check_signature::<true>(&key, b"anything", Some(b"garbage")));
}

#[test]
fn only_a_positive_verdict_passes() {
    assert!(fail_closed(Some(true)));
    assert!(!fail_closed(Some(false)));
    assert!(!fail_closed(None));
}

#[test]
fn malformed_key_is_refused() {
    assert_eq!(read_public_key(b"not a key".to_vec()).err(), Some(KeyError::Malformed));
    assert_eq!(read_public_key(Vec::new()).err(), Some(KeyError::Malformed));
}

#[test]
fn private_key_text_is_no_public_key() {
    let pkey = key_pair();
    let pem = pkey.private_key_to_pem_pkcs8().unwrap();
    assert_eq!(read_public_key(pem).err(), Some(KeyError::Malformed));
}

#[test]
fn public_key_keeps_its_text() {
    let pkey = key_pair();
    let pem = pkey.public_key_to_pem().unwrap();
    let key = read_public_key(pem.clone()).unwrap();
    assert_eq!(key.as_pem(), &pem[..]);
}

#[test]
fn signature_lies_beside_the_file() {
    assert_eq!(signature_path("/boot/firmware.squashfs"), "/boot/firmware.squashfs.dgst");
    assert_eq!(signature_path(""), ".dgst");
}

fn cmdline_with(tail: &str) -> String {
    format!("console=ttyS2 root=/dev/ram0 {}\n", tail)
}

#[test]
fn key_is_taken_from_the_end_of_the_command_line() {
    let rsa = openssl::rsa::Rsa::generate(2048).unwrap();
    let pkey = openssl::pkey::PKey::from_rsa(rsa).unwrap();
    let pem = pkey.public_key_to_pem().unwrap();
    let encoded = base64::Engine::encode(&base64::engine::general_purpose::STANDARD, &pem);
    assert_eq!(encoded.len(), 604);
    let (key, store) = decode_public_key_from_cmdline(&cmdline_with(&encoded)).unwrap();
    assert_eq!(key.as_pem(), &pem[..]);
    assert_eq!(
        store,
        vec![
            Action::CreateDirAll { path: "/opt/key/".to_string() },
            Action::WriteBytes { path: "/opt/key/public.pem".to_string(), contents: pem.clone() },
        ]
    );
    let data = b"image".to_vec();
    let signature = sign(&pkey, &data);
    assert!(check_signature::<false>(&key, &data, Some(&signature)));
}

#[test]
fn short_command_line_holds_no_key() {
    assert_eq!(
        decode_public_key_from_cmdline("quill_recovery=1\n").err(),
        Some(CmdlineKeyError::TooShort)
    );
    let exactly = "a".repeat(604);
    assert_eq!(decode_public_key_from_cmdline(&exactly).err(), Some(CmdlineKeyError::TooShort));
}

#[test]
fn command_line_tail_that_is_no_base64_is_refused() {
    let tail = "!".repeat(604);
    assert_eq!(
        decode_public_key_from_cmdline(&cmdline_with(&tail)).err(),
        Some(CmdlineKeyError::NotBase64)
    );
}

#[test]
fn command_line_tail_that_is_no_key_is_refused() {
    let tail = "A".repeat(604);
    assert_eq!(
        decode_public_key_from_cmdline(&cmdline_with(&tail)).err(),
        Some(CmdlineKeyError::Key(KeyError::Malformed))
    );
}
