//! Translation between native integer constants and structured values:
//! result codes, option bit-sets and the two closed action enumerations.

use vstd::prelude::*;

verus! {

/// A structured result code for a failed native call.
///
/// The set is closed but extensible on the native side: every named kind maps
/// 1:1 to one native integer, and an unrecognized native integer translates to
/// `SystemError` rather than failing the translation itself.
#[derive(Clone, Copy, Debug, PartialEq, Eq, Hash, Structural)]
pub enum ErrorCode {
    OpenError,
    SymbolError,
    ServiceError,
    SystemError,
    BufferError,
    PermissionDenied,
    AuthenticationError,
    CredentialsInsufficient,
    AuthInfoUnavailable,
    UserUnknown,
    MaxTries,
    NewAuthTokRequired,
    AccountExpired,
    SessionError,
    CredentialsUnavailable,
    CredentialsExpired,
    CredentialsError,
    NoModuleData,
    ConversationError,
    AuthTokError,
    AuthTokRecoveryError,
    AuthTokLockBusy,
    AuthTokDisableAging,
    TryAgain,
    Ignore,
    Abort,
    AuthTokExpired,
}

impl ErrorCode {
    /// The native integer for this kind.
    pub open spec fn code(self) -> int {
        match self {
            ErrorCode::OpenError => 1,
            ErrorCode::SymbolError => 2,
            ErrorCode::ServiceError => 3,
            ErrorCode::SystemError => 4,
            ErrorCode::BufferError => 5,
            ErrorCode::PermissionDenied => 6,
            ErrorCode::AuthenticationError => 7,
            ErrorCode::CredentialsInsufficient => 8,
            ErrorCode::AuthInfoUnavailable => 9,
            ErrorCode::UserUnknown => 10,
            ErrorCode::MaxTries => 11,
            ErrorCode::NewAuthTokRequired => 12,
            ErrorCode::AccountExpired => 13,
            ErrorCode::SessionError => 14,
            ErrorCode::CredentialsUnavailable => 15,
            ErrorCode::CredentialsExpired => 16,
            ErrorCode::CredentialsError => 17,
            ErrorCode::NoModuleData => 18,
            ErrorCode::ConversationError => 19,
            ErrorCode::AuthTokError => 20,
            ErrorCode::AuthTokRecoveryError => 21,
            ErrorCode::AuthTokLockBusy => 22,
            ErrorCode::AuthTokDisableAging => 23,
            ErrorCode::TryAgain => 24,
            ErrorCode::Ignore => 25,
            ErrorCode::Abort => 26,
            ErrorCode::AuthTokExpired => 27,
        }
    }

    /// The kind a native integer translates to; unrecognized values fall back
    /// to `SystemError`.
    pub open spec fn spec_from_code(value: int) -> ErrorCode {
        if value == 1 { ErrorCode::OpenError }
        else if value == 2 { ErrorCode::SymbolError }
        else if value == 3 { ErrorCode::ServiceError }
        else if value == 4 { ErrorCode::SystemError }
        else if value == 5 { ErrorCode::BufferError }
        else if value == 6 { ErrorCode::PermissionDenied }
        else if value == 7 { ErrorCode::AuthenticationError }
        else if value == 8 { ErrorCode::CredentialsInsufficient }
        else if value == 9 { ErrorCode::AuthInfoUnavailable }
        else if value == 10 { ErrorCode::UserUnknown }
        else if value == 11 { ErrorCode::MaxTries }
        else if value == 12 { ErrorCode::NewAuthTokRequired }
        else if value == 13 { ErrorCode::AccountExpired }
        else if value == 14 { ErrorCode::SessionError }
        else if value == 15 { ErrorCode::CredentialsUnavailable }
        else if value == 16 { ErrorCode::CredentialsExpired }
        else if value == 17 { ErrorCode::CredentialsError }
        else if value == 18 { ErrorCode::NoModuleData }
        else if value == 19 { ErrorCode::ConversationError }
        else if value == 20 { ErrorCode::AuthTokError }
        else if value == 21 { ErrorCode::AuthTokRecoveryError }
        else if value == 22 { ErrorCode::AuthTokLockBusy }
        else if value == 23 { ErrorCode::AuthTokDisableAging }
        else if value == 24 { ErrorCode::TryAgain }
        else if value == 25 { ErrorCode::Ignore }
        else if value == 26 { ErrorCode::Abort }
        else if value == 27 { ErrorCode::AuthTokExpired }
        else { ErrorCode::SystemError }
    }

    /// Outbound translation: a valid kind always has a native integer.
    pub fn to_code(self) -> (r: i32)
        ensures
            r == self.code(),
    {
        match self {
            ErrorCode::OpenError => 1,
            ErrorCode::SymbolError => 2,
            ErrorCode::ServiceError => 3,
            ErrorCode::SystemError => 4,
            ErrorCode::BufferError => 5,
            ErrorCode::PermissionDenied => 6,
            ErrorCode::AuthenticationError => 7,
            ErrorCode::CredentialsInsufficient => 8,
            ErrorCode::AuthInfoUnavailable => 9,
            ErrorCode::UserUnknown => 10,
            ErrorCode::MaxTries => 11,
            ErrorCode::NewAuthTokRequired => 12,
            ErrorCode::AccountExpired => 13,
            ErrorCode::SessionError => 14,
            ErrorCode::CredentialsUnavailable => 15,
            ErrorCode::CredentialsExpired => 16,
            ErrorCode::CredentialsError => 17,
            ErrorCode::NoModuleData => 18,
            ErrorCode::ConversationError => 19,
            ErrorCode::AuthTokError => 20,
            ErrorCode::AuthTokRecoveryError => 21,
            ErrorCode::AuthTokLockBusy => 22,
            ErrorCode::AuthTokDisableAging => 23,
            ErrorCode::TryAgain => 24,
            ErrorCode::Ignore => 25,
            ErrorCode::Abort => 26,
            ErrorCode::AuthTokExpired => 27,
        }
    }

    /// Inbound translation with the documented `SystemError` fallback.
    pub fn from_code(value: i32) -> (r: ErrorCode)
        ensures
            r == ErrorCode::spec_from_code(value as int),
    {
        match value {
            1 => ErrorCode::OpenError,
            2 => ErrorCode::SymbolError,
            3 => ErrorCode::ServiceError,
            4 => ErrorCode::SystemError,
            5 => ErrorCode::BufferError,
            6 => ErrorCode::PermissionDenied,
            7 => ErrorCode::AuthenticationError,
            8 => ErrorCode::CredentialsInsufficient,
            9 => ErrorCode::AuthInfoUnavailable,
            10 => ErrorCode::UserUnknown,
            11 => ErrorCode::MaxTries,
            12 => ErrorCode::NewAuthTokRequired,
            13 => ErrorCode::AccountExpired,
            14 => ErrorCode::SessionError,
            15 => ErrorCode::CredentialsUnavailable,
            16 => ErrorCode::CredentialsExpired,
            17 => ErrorCode::CredentialsError,
            18 => ErrorCode::NoModuleData,
            19 => ErrorCode::ConversationError,
            20 => ErrorCode::AuthTokError,
            21 => ErrorCode::AuthTokRecoveryError,
            22 => ErrorCode::AuthTokLockBusy,
            23 => ErrorCode::AuthTokDisableAging,
            24 => ErrorCode::TryAgain,
            25 => ErrorCode::Ignore,
            26 => ErrorCode::Abort,
            27 => ErrorCode::AuthTokExpired,
            _ => ErrorCode::SystemError,
        }
    }

    /// What a native return translates to as a result: zero is success, any
    /// other value is the matching kind (or the fallback).
    pub open spec fn spec_result_from(ret: int) -> Result<(), ErrorCode> {
        if ret == 0 {
            Ok(())
        } else {
            Err(ErrorCode::spec_from_code(ret))
        }
    }

    /// Translates one native return into a structured result.
    pub fn result_from(ret: i32) -> (r: Result<(), ErrorCode>)
        ensures
            r == ErrorCode::spec_result_from(ret as int),
    {
        if ret == 0 {
            Ok(())
        } else {
            Err(ErrorCode::from_code(ret))
        }
    }

    /// The native return that reports a structured result back.
    pub open spec fn spec_result_code(r: Result<(), ErrorCode>) -> int {
        match r {
            Ok(()) => 0,
            Err(e) => e.code(),
        }
    }

    /// Translates a structured result back into a native return.
    pub fn result_to_code(r: Result<(), ErrorCode>) -> (c: i32)
        ensures
            c == ErrorCode::spec_result_code(r),
    {
        match r {
            Ok(()) => 0,
            Err(e) => e.to_code(),
        }
    }
}

/// Every named result kind survives the trip to its native integer and back.
pub proof fn lemma_error_code_round_trip(e: ErrorCode)
    ensures
        ErrorCode::spec_from_code(e.code()) == e,
{
}

/// Options for authentication and account-management calls.
///
/// Each named flag maps to one native bit and is translated independently of
/// the others, so an empty value maps to an empty set.
#[derive(Clone, Copy, Debug, PartialEq, Eq, Structural)]
pub struct AuthnFlags {
    pub silent: bool,
    pub disallow_null_authtok: bool,
}

impl AuthnFlags {
    /// The set with no flag raised.
    pub fn empty() -> (r: AuthnFlags)
        ensures
            !r.silent,
            !r.disallow_null_authtok,
    {
        AuthnFlags { silent: false, disallow_null_authtok: false }
    }

    /// The native bit pattern for this set.
    pub open spec fn spec_raw(self) -> i32 {
        if self.silent {
            if self.disallow_null_authtok { 0x8001i32 } else { 0x8000i32 }
        } else {
            if self.disallow_null_authtok { 0x1i32 } else { 0i32 }
        }
    }

    /// The set a native value translates to: each bit is read on its own.
    pub open spec fn spec_from_raw(value: i32) -> AuthnFlags {
        AuthnFlags {
            silent: value & 0x8000i32 != 0,
            disallow_null_authtok: value & 0x1i32 != 0,
        }
    }

    /// Converts the set into its native bit pattern.
    pub fn to_raw(self) -> (r: i32)
        ensures
            r == self.spec_raw(),
    {
        if self.silent {
            if self.disallow_null_authtok { 0x8001 } else { 0x8000 }
        } else {
            if self.disallow_null_authtok { 0x1 } else { 0 }
        }
    }

    /// Reads a native value back into a set, bit by bit.
    pub fn from_raw(value: i32) -> (r: AuthnFlags)
        ensures
            r == AuthnFlags::spec_from_raw(value),
    {
        AuthnFlags {
            silent: value & 0x8000 != 0,
            disallow_null_authtok: value & 0x1 != 0,
        }
    }
}

/// Every subset of authentication flags survives the trip to its native
/// representation and back.
pub proof fn lemma_authn_flags_round_trip(f: AuthnFlags)
    ensures
        AuthnFlags::spec_from_raw(f.spec_raw()) == f,
{
    assert((0i32 & 0x8000i32) == 0 && (0x1i32 & 0x8000i32) == 0 && (0x8000i32 & 0x8000i32) != 0
        && (0x8001i32 & 0x8000i32) != 0 && (0i32 & 0x1i32) == 0 && (0x1i32 & 0x1i32) != 0
        && (0x8000i32 & 0x1i32) == 0 && (0x8001i32 & 0x1i32) != 0) by (bit_vector);
}

/// Options for credential-change calls.
#[derive(Clone, Copy, Debug, PartialEq, Eq, Structural)]
pub struct AuthtokFlags {
    pub silent: bool,
    pub change_expired_authtok: bool,
}

impl AuthtokFlags {
    /// The set with no flag raised.
    pub fn empty() -> (r: AuthtokFlags)
        ensures
            !r.silent,
            !r.change_expired_authtok,
    {
        AuthtokFlags { silent: false, change_expired_authtok: false }
    }

    /// The native bit pattern for this set.
    pub open spec fn spec_raw(self) -> i32 {
        if self.silent {
            if self.change_expired_authtok { 0x8020i32 } else { 0x8000i32 }
        } else {
            if self.change_expired_authtok { 0x20i32 } else { 0i32 }
        }
    }

    /// The set a native value translates to: each bit is read on its own.
    pub open spec fn spec_from_raw(value: i32) -> AuthtokFlags {
        AuthtokFlags {
            silent: value & 0x8000i32 != 0,
            change_expired_authtok: value & 0x20i32 != 0,
        }
    }

    /// Converts the set into its native bit pattern.
    pub fn to_raw(self) -> (r: i32)
        ensures
            r == self.spec_raw(),
    {
        if self.silent {
            if self.change_expired_authtok { 0x8020 } else { 0x8000 }
        } else {
            if self.change_expired_authtok { 0x20 } else { 0 }
        }
    }

    /// Reads a native value back into a set, bit by bit.
    pub fn from_raw(value: i32) -> (r: AuthtokFlags)
        ensures
            r == AuthtokFlags::spec_from_raw(value),
    {
        AuthtokFlags {
            silent: value & 0x8000 != 0,
            change_expired_authtok: value & 0x20 != 0,
        }
    }
}

/// Every subset of credential-change flags survives the trip to its native
/// representation and back.
pub proof fn lemma_authtok_flags_round_trip(f: AuthtokFlags)
    ensures
        AuthtokFlags::spec_from_raw(f.spec_raw()) == f,
{
    assert((0i32 & 0x8000i32) == 0 && (0x20i32 & 0x8000i32) == 0 && (0x8000i32 & 0x8000i32) != 0
        && (0x8020i32 & 0x8000i32) != 0 && (0i32 & 0x20i32) == 0 && (0x20i32 & 0x20i32) != 0
        && (0x8000i32 & 0x20i32) == 0 && (0x8020i32 & 0x20i32) != 0) by (bit_vector);
}

/// Options for session and other base calls.
#[derive(Clone, Copy, Debug, PartialEq, Eq, Structural)]
pub struct BaseFlags {
    pub silent: bool,
}

impl BaseFlags {
    /// The set with no flag raised.
    pub fn empty() -> (r: BaseFlags)
        ensures
            !r.silent,
    {
        BaseFlags { silent: false }
    }

    /// The native bit pattern for this set.
    pub open spec fn spec_raw(self) -> i32 {
        if self.silent { 0x8000i32 } else { 0i32 }
    }

    /// The set a native value translates to.
    pub open spec fn spec_from_raw(value: i32) -> BaseFlags {
        BaseFlags { silent: value & 0x8000i32 != 0 }
    }

    /// Converts the set into its native bit pattern.
    pub fn to_raw(self) -> (r: i32)
        ensures
            r == self.spec_raw(),
    {
        if self.silent { 0x8000 } else { 0 }
    }

    /// Reads a native value back into a set.
    pub fn from_raw(value: i32) -> (r: BaseFlags)
        ensures
            r == BaseFlags::spec_from_raw(value),
    {
        BaseFlags { silent: value & 0x8000 != 0 }
    }
}

/// Every subset of base flags survives the trip to its native representation
/// and back.
pub proof fn lemma_base_flags_round_trip(f: BaseFlags)
    ensures
        BaseFlags::spec_from_raw(f.spec_raw()) == f,
{
    assert((0i32 & 0x8000i32) == 0 && (0x8000i32 & 0x8000i32) != 0) by (bit_vector);
}

/// What to do with a transaction's credentials: a closed enumeration mapped
/// 1:1 to distinct native values, with no fallback in either direction.
#[derive(Clone, Copy, Debug, PartialEq, Eq, Structural)]
pub enum CredAction {
    Establish,
    Delete,
    Reinitialize,
    Refresh,
}

impl CredAction {
    /// The native value for this action.
    pub open spec fn spec_raw(self) -> i32 {
        match self {
            CredAction::Establish => 0x2i32,
            CredAction::Delete => 0x4i32,
            CredAction::Reinitialize => 0x8i32,
            CredAction::Refresh => 0x10i32,
        }
    }

    /// The action a native value names, if any.
    pub open spec fn spec_from_raw(value: i32) -> Result<CredAction, ErrorCode> {
        if value == 0x2i32 { Ok(CredAction::Establish) }
        else if value == 0x4i32 { Ok(CredAction::Delete) }
        else if value == 0x8i32 { Ok(CredAction::Reinitialize) }
        else if value == 0x10i32 { Ok(CredAction::Refresh) }
        else { Err(ErrorCode::SystemError) }
    }

    /// Converts the action into its native value; never fails.
    pub fn to_raw(self) -> (r: i32)
        ensures
            r == self.spec_raw(),
    {
        match self {
            CredAction::Establish => 0x2,
            CredAction::Delete => 0x4,
            CredAction::Reinitialize => 0x8,
            CredAction::Refresh => 0x10,
        }
    }

    /// Reads a native value back; an unrecognized value fails.
    pub fn from_raw(value: i32) -> (r: Result<CredAction, ErrorCode>)
        ensures
            r == CredAction::spec_from_raw(value),
    {
        match value {
            0x2 => Ok(CredAction::Establish),
            0x4 => Ok(CredAction::Delete),
            0x8 => Ok(CredAction::Reinitialize),
            0x10 => Ok(CredAction::Refresh),
            _ => Err(ErrorCode::SystemError),
        }
    }
}

impl Default for CredAction {
    /// The conventional action when none is asked for.
    fn default() -> (r: CredAction)
        ensures
            r == CredAction::Establish,
    {
        CredAction::Establish
    }
}

/// Every credential action survives the trip to its native value and back.
pub proof fn lemma_cred_action_round_trip(a: CredAction)
    ensures
        CredAction::spec_from_raw(a.spec_raw()) == Ok::<CredAction, ErrorCode>(a),
{
}

/// Which phase of an authentication-token change to run: a closed
/// enumeration mapped 1:1 to distinct native values.
#[derive(Clone, Copy, Debug, PartialEq, Eq, Structural)]
pub enum AuthtokAction {
    Validate,
    Update,
}

impl AuthtokAction {
    /// The native value for this action.
    pub open spec fn spec_raw(self) -> i32 {
        match self {
            AuthtokAction::Validate => 0x4000i32,
            AuthtokAction::Update => 0x2000i32,
        }
    }

    /// The action a native value names, if any.
    pub open spec fn spec_from_raw(value: i32) -> Result<AuthtokAction, ErrorCode> {
        if value == 0x4000i32 { Ok(AuthtokAction::Validate) }
        else if value == 0x2000i32 { Ok(AuthtokAction::Update) }
        else { Err(ErrorCode::SystemError) }
    }

    /// Converts the action into its native value; never fails.
    pub fn to_raw(self) -> (r: i32)
        ensures
            r == self.spec_raw(),
    {
        match self {
            AuthtokAction::Validate => 0x4000,
            AuthtokAction::Update => 0x2000,
        }
    }

    /// Reads a native value back; an unrecognized value fails.
    pub fn from_raw(value: i32) -> (r: Result<AuthtokAction, ErrorCode>)
        ensures
            r == AuthtokAction::spec_from_raw(value),
    {
        match value {
            0x4000 => Ok(AuthtokAction::Validate),
            0x2000 => Ok(AuthtokAction::Update),
            _ => Err(ErrorCode::SystemError),
        }
    }
}

/// Every token-change action survives the trip to its native value and back.
pub proof fn lemma_authtok_action_round_trip(a: AuthtokAction)
    ensures
        AuthtokAction::spec_from_raw(a.spec_raw()) == Ok::<AuthtokAction, ErrorCode>(a),
{
}

} // verus!
