//! The transaction's fixed-slot string items, addressed by their numeric
//! item-type identifier: service name, username, terminal name, remote
//! host and user, user prompt, and the two authentication tokens.

use vstd::prelude::*;

use crate::constants::ErrorCode;
use crate::helper::spec_has_nul;

verus! {

/// The fixed item slots, each mapped 1:1 to a native integer identifier.
/// `Conversation` names the registered callback slot, which is not a string
/// item.
#[derive(Clone, Copy, Debug, PartialEq, Eq, Structural)]
pub enum ItemType {
    Service,
    User,
    Tty,
    RemoteHost,
    Conversation,
    AuthTok,
    OldAuthTok,
    RemoteUser,
    UserPrompt,
}

impl ItemType {
    /// The native identifier for this slot.
    pub open spec fn code(self) -> int {
        match self {
            ItemType::Service => 1,
            ItemType::User => 2,
            ItemType::Tty => 3,
            ItemType::RemoteHost => 4,
            ItemType::Conversation => 5,
            ItemType::AuthTok => 6,
            ItemType::OldAuthTok => 7,
            ItemType::RemoteUser => 8,
            ItemType::UserPrompt => 9,
        }
    }

    /// The slot a native identifier names, if any.
    pub open spec fn spec_from_code(value: int) -> Result<ItemType, ErrorCode> {
        if value == 1 { Ok(ItemType::Service) }
        else if value == 2 { Ok(ItemType::User) }
        else if value == 3 { Ok(ItemType::Tty) }
        else if value == 4 { Ok(ItemType::RemoteHost) }
        else if value == 5 { Ok(ItemType::Conversation) }
        else if value == 6 { Ok(ItemType::AuthTok) }
        else if value == 7 { Ok(ItemType::OldAuthTok) }
        else if value == 8 { Ok(ItemType::RemoteUser) }
        else if value == 9 { Ok(ItemType::UserPrompt) }
        else { Err(ErrorCode::SystemError) }
    }

    /// Converts the slot into its native identifier; never fails.
    pub fn to_code(self) -> (r: i32)
        ensures
            r == self.code(),
    {
        match self {
            ItemType::Service => 1,
            ItemType::User => 2,
            ItemType::Tty => 3,
            ItemType::RemoteHost => 4,
            ItemType::Conversation => 5,
            ItemType::AuthTok => 6,
            ItemType::OldAuthTok => 7,
            ItemType::RemoteUser => 8,
            ItemType::UserPrompt => 9,
        }
    }

    /// Reads a native identifier back; an unrecognized value fails.
    pub fn from_code(value: i32) -> (r: Result<ItemType, ErrorCode>)
        ensures
            r == ItemType::spec_from_code(value as int),
    {
        match value {
            1 => Ok(ItemType::Service),
            2 => Ok(ItemType::User),
            3 => Ok(ItemType::Tty),
            4 => Ok(ItemType::RemoteHost),
            5 => Ok(ItemType::Conversation),
            6 => Ok(ItemType::AuthTok),
            7 => Ok(ItemType::OldAuthTok),
            8 => Ok(ItemType::RemoteUser),
            9 => Ok(ItemType::UserPrompt),
            _ => Err(ErrorCode::SystemError),
        }
    }
}

/// Every item slot survives the trip to its native identifier and back.
pub proof fn lemma_item_type_round_trip(t: ItemType)
    ensures
        ItemType::spec_from_code(t.code()) == Ok::<ItemType, ErrorCode>(t),
{
}

/// The string items of one transaction. Absence is no value, not an error.
#[derive(Debug)]
pub struct PamItems {
    service: Option<Vec<u8>>,
    user: Option<Vec<u8>>,
    tty: Option<Vec<u8>>,
    remote_host: Option<Vec<u8>>,
    remote_user: Option<Vec<u8>>,
    user_prompt: Option<Vec<u8>>,
    auth_tok: Option<Vec<u8>>,
    old_auth_tok: Option<Vec<u8>>,
}

impl PamItems {
    /// The value a string slot holds.
    pub closed spec fn spec_item(&self, t: ItemType) -> Option<Seq<u8>> {
        let slot = match t {
            ItemType::Service => self.service,
            ItemType::User => self.user,
            ItemType::Tty => self.tty,
            ItemType::RemoteHost => self.remote_host,
            ItemType::RemoteUser => self.remote_user,
            ItemType::UserPrompt => self.user_prompt,
            ItemType::AuthTok => self.auth_tok,
            ItemType::OldAuthTok => self.old_auth_tok,
            ItemType::Conversation => None,
        };
        match slot {
            Some(v) => Some(v@),
            None => None,
        }
    }

    /// A transaction's items before anything is set.
    pub fn new() -> (r: PamItems)
        ensures
            forall|t: ItemType| r.spec_item(t) is None,
    {
        PamItems {
            service: None,
            user: None,
            tty: None,
            remote_host: None,
            remote_user: None,
            user_prompt: None,
            auth_tok: None,
            old_auth_tok: None,
        }
    }

    /// Reads one string slot and copies its value out. The conversation
    /// slot is not a string item and cannot be read here.
    pub fn get_item(&self, t: ItemType) -> (r: Option<Vec<u8>>)
        requires
            t != ItemType::Conversation,
        ensures
            r is Some <==> self.spec_item(t) is Some,
            r matches Some(v) ==> self.spec_item(t) == Some(v@),
    {
        let slot: &Option<Vec<u8>> = match t {
            ItemType::Service => &self.service,
            ItemType::User => &self.user,
            ItemType::Tty => &self.tty,
            ItemType::RemoteHost => &self.remote_host,
            ItemType::RemoteUser => &self.remote_user,
            ItemType::UserPrompt => &self.user_prompt,
            ItemType::AuthTok => &self.auth_tok,
            ItemType::OldAuthTok => &self.old_auth_tok,
            ItemType::Conversation => return None,
        };
        match slot {
            Some(v) => Some(v.clone()),
            None => None,
        }
    }

    /// Writes one string slot (or clears it), leaving every other slot as
    /// it was. The value must be representable as a nul-terminated string;
    /// the conversation slot is not a string item and cannot be set here.
    pub fn set_item(&mut self, t: ItemType, value: Option<&Vec<u8>>)
        requires
            t != ItemType::Conversation,
            value matches Some(v) ==> !spec_has_nul(v@),
        ensures
            final(self).spec_item(t) == match value {
                Some(v) => Some(v@),
                None => None::<Seq<u8>>,
            },
            forall|u: ItemType| u != t ==> final(self).spec_item(u) == old(self).spec_item(u),
    {
        let owned: Option<Vec<u8>> = match value {
            Some(v) => Some(v.clone()),
            None => None,
        };
        match t {
            ItemType::Service => self.service = owned,
            ItemType::User => self.user = owned,
            ItemType::Tty => self.tty = owned,
            ItemType::RemoteHost => self.remote_host = owned,
            ItemType::RemoteUser => self.remote_user = owned,
            ItemType::UserPrompt => self.user_prompt = owned,
            ItemType::AuthTok => self.auth_tok = owned,
            ItemType::OldAuthTok => self.old_auth_tok = owned,
            ItemType::Conversation => {},
        }
    }
}

} // verus!
