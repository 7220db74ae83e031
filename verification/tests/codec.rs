//! Flag, action, result-code and wire-format translation behavior.

use authkit::constants::AuthnFlags;
use authkit::constants::AuthtokAction;
use authkit::constants::AuthtokFlags;
use authkit::constants::BaseFlags;
use authkit::constants::CredAction;
use authkit::constants::ErrorCode;
use authkit::helper::decode_binary_payload;
use authkit::helper::zero_bytes;
use authkit::helper::OwnedBinaryPayload;

#[test]
fn authn_flags_round_trip_all_subsets() {
    for &silent in &[false, true] {
        for &dna in &[false, true] {
            let f = AuthnFlags { silent, disallow_null_authtok: dna };
            assert_eq!(AuthnFlags::from_raw(f.to_raw()), f);
        }
    }
}

#[test]
fn authn_flags_native_bits() {
    assert_eq!(AuthnFlags::empty().to_raw(), 0);
    assert_eq!(AuthnFlags { silent: true, disallow_null_authtok: false }.to_raw(), 0x8000);
    assert_eq!(AuthnFlags { silent: false, disallow_null_authtok: true }.to_raw(), 0x1);
    assert_eq!(AuthnFlags { silent: true, disallow_null_authtok: true }.to_raw(), 0x8001);
    let all = AuthnFlags::from_raw(-1);
    assert!(all.silent && all.disallow_null_authtok);
}

#[test]
fn authtok_flags_round_trip_all_subsets() {
    for &silent in &[false, true] {
        for &cea in &[false, true] {
            let f = AuthtokFlags { silent, change_expired_authtok: cea };
            assert_eq!(AuthtokFlags::from_raw(f.to_raw()), f);
        }
    }
}

#[test]
fn authtok_flags_native_bits() {
    assert_eq!(AuthtokFlags::empty().to_raw(), 0);
    assert_eq!(AuthtokFlags { silent: false, change_expired_authtok: true }.to_raw(), 0x20);
}

#[test]
fn base_flags_round_trip_all_subsets() {
    for &silent in &[false, true] {
        let f = BaseFlags { silent };
        assert_eq!(BaseFlags::from_raw(f.to_raw()), f);
    }
    assert_eq!(BaseFlags::empty().to_raw(), 0);
}

#[test]
fn cred_action_round_trip() {
    for &a in &[
        CredAction::Establish,
        CredAction::Delete,
        CredAction::Reinitialize,
        CredAction::Refresh,
    ] {
        assert_eq!(CredAction::from_raw(a.to_raw()), Ok(a));
    }
    assert_eq!(CredAction::Establish.to_raw(), 0x2);
    assert_eq!(CredAction::Delete.to_raw(), 0x4);
    assert_eq!(CredAction::Reinitialize.to_raw(), 0x8);
    assert_eq!(CredAction::Refresh.to_raw(), 0x10);
    assert_eq!(CredAction::from_raw(0x3), Err(ErrorCode::SystemError));
    assert_eq!(CredAction::default(), CredAction::Establish);
}

#[test]
fn authtok_action_round_trip() {
    for &a in &[AuthtokAction::Validate, AuthtokAction::Update] {
        assert_eq!(AuthtokAction::from_raw(a.to_raw()), Ok(a));
    }
    assert_eq!(AuthtokAction::Validate.to_raw(), 0x4000);
    assert_eq!(AuthtokAction::Update.to_raw(), 0x2000);
    assert_eq!(AuthtokAction::from_raw(1), Err(ErrorCode::SystemError));
}

#[test]
fn error_codes_round_trip() {
    let all = [
        ErrorCode::OpenError,
        ErrorCode::SymbolError,
        ErrorCode::ServiceError,
        ErrorCode::SystemError,
        ErrorCode::BufferError,
        ErrorCode::PermissionDenied,
        ErrorCode::AuthenticationError,
        ErrorCode::CredentialsInsufficient,
        ErrorCode::AuthInfoUnavailable,
        ErrorCode::UserUnknown,
        ErrorCode::MaxTries,
        ErrorCode::NewAuthTokRequired,
        ErrorCode::AccountExpired,
        ErrorCode::SessionError,
        ErrorCode::CredentialsUnavailable,
        ErrorCode::CredentialsExpired,
        ErrorCode::CredentialsError,
        ErrorCode::NoModuleData,
        ErrorCode::ConversationError,
        ErrorCode::AuthTokError,
        ErrorCode::AuthTokRecoveryError,
        ErrorCode::AuthTokLockBusy,
        ErrorCode::AuthTokDisableAging,
        ErrorCode::TryAgain,
        ErrorCode::Ignore,
        ErrorCode::Abort,
        ErrorCode::AuthTokExpired,
    ];
    for (i, &e) in all.iter().enumerate() {
        let code = (i + 1) as i32;
        assert_eq!(e.to_code(), code);
        assert_eq!(ErrorCode::from_code(code), e);
        assert_eq!(ErrorCode::result_from(code), Err(e));
    }
}

#[test]
fn unrecognized_codes_fall_back_to_system_error() {
    assert_eq!(ErrorCode::from_code(0), ErrorCode::SystemError);
    assert_eq!(ErrorCode::from_code(28), ErrorCode::SystemError);
    assert_eq!(ErrorCode::from_code(-5), ErrorCode::SystemError);
    assert_eq!(ErrorCode::result_from(9999), Err(ErrorCode::SystemError));
}

#[test]
fn zero_return_is_success() {
    assert_eq!(ErrorCode::result_from(0), Ok(()));
    assert_eq!(ErrorCode::result_to_code(Ok(())), 0);
    assert_eq!(ErrorCode::result_to_code(Err(ErrorCode::MaxTries)), 11);
}

#[test]
fn binary_payload_layout_is_exact() {
    let p = OwnedBinaryPayload::new(b"abc", 7).unwrap();
    assert_eq!(p.into_inner(), vec![0, 0, 0, 8, 7, b'a', b'b', b'c']);
}

#[test]
fn binary_payload_round_trips() {
    for (data, tag) in [(b"".to_vec(), 0u8), (b"x".to_vec(), 255), (vec![0u8; 300], 17)] {
        let buf = OwnedBinaryPayload::new(&data, tag).unwrap().into_inner();
        let (d, t) = decode_binary_payload(&buf).unwrap();
        assert_eq!(d, data);
        assert_eq!(t, tag);
    }
}

#[test]
fn binary_payload_rejects_malformed_buffers() {
    assert!(decode_binary_payload(&[]).is_none());
    assert!(decode_binary_payload(&[0, 0, 0, 4]).is_none());
    // length bytes that do not count the buffer exactly
    assert!(decode_binary_payload(&[0, 0, 0, 9, 7, b'a', b'b', b'c']).is_none());
    assert!(decode_binary_payload(&[0, 0, 0, 7, 7, b'a', b'b', b'c']).is_none());
}

#[test]
fn zeroing_clears_every_byte() {
    let mut buf = b"hunter2".to_vec();
    zero_bytes(&mut buf);
    assert_eq!(buf, vec![0u8; 7]);
}
