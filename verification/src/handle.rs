//! The transaction handle: owns the conversation state at a stable address,
//! caches the last native result, releases the native session exactly once,
//! and exposes the environment and item views.
//!
//! The native routine itself runs outside the library; each lifecycle step
//! is split into what is handed to it (the raw flag pattern, from
//! [`crate::constants`]) and what its integer return does to the transaction
//! state ([`Pam::record_result`], [`Pam::end`]).

use vstd::prelude::*;

use crate::constants::ErrorCode;
use crate::conversation::AnswerView;
use crate::conversation::Conversation;
use crate::conversation::Exchange;
use crate::conversation::OwnedConversation;
use crate::conversation::OwnedExchange;
use crate::conversation::QuestionView;
use crate::environ::PamEnv;
use crate::helper::contains_nul;
use crate::helper::spec_has_nul;
use crate::items::ItemType;
use crate::items::PamItems;

verus! {

/// One authentication transaction. Invariants of the modeled handle: the
/// conversation state is boxed once at `start` and never moved afterwards
/// (the native side keeps a raw pointer to it), and the native session is
/// released exactly once — a second teardown is a no-op, not a double
/// release.
#[derive(Debug)]
pub struct Pam<C: Conversation> {
    conversation: OwnedConversation<C>,
    last_return: Result<(), ErrorCode>,
    ended: bool,
    environ: PamEnv,
    items: PamItems,
}

impl<C: Conversation> Pam<C> {
    /// The conversation registered for this transaction.
    pub closed spec fn spec_conversation(&self) -> C {
        self.conversation.conversation()
    }

    /// The cached outcome of the last lifecycle call.
    pub closed spec fn spec_last_return(&self) -> Result<(), ErrorCode> {
        self.last_return
    }

    /// Whether the native session has been released.
    pub closed spec fn spec_ended(&self) -> bool {
        self.ended
    }

    /// The transaction's environment table.
    pub closed spec fn spec_environ(&self) -> PamEnv {
        self.environ
    }

    /// The transaction's fixed-slot items.
    pub closed spec fn spec_items(&self) -> PamItems {
        self.items
    }

    /// Well-formedness of the transaction state.
    pub open spec fn wf(&self) -> bool {
        self.spec_environ().wf()
    }

    /// Opens a transaction once the native startup routine has reported:
    /// its non-zero return is translated to the matching error; a null
    /// handle despite a success return is a buffer error; otherwise the
    /// transaction starts with the conversation registered, a successful
    /// cached result, an empty environment, and the service (and username,
    /// when given) stored in their item slots.
    pub fn start(
        service_name: Vec<u8>,
        username: Option<Vec<u8>>,
        conversation: C,
        native_ret: i32,
        handle_is_null: bool,
    ) -> (r: Result<Pam<C>, ErrorCode>)
        requires
            !spec_has_nul(service_name@),
            username matches Some(u) ==> !spec_has_nul(u@),
        ensures
            native_ret != 0 ==> r == Err::<Pam<C>, ErrorCode>(
                ErrorCode::spec_from_code(native_ret as int),
            ),
            native_ret == 0 && handle_is_null ==> r == Err::<Pam<C>, ErrorCode>(
                ErrorCode::BufferError,
            ),
            native_ret == 0 && !handle_is_null ==> (r matches Ok(t) && t.wf() && !t.spec_ended()
                && t.spec_last_return() == Ok::<(), ErrorCode>(()) && t.spec_conversation()
                == conversation && t.spec_environ().spec_entries().len() == 0
                && t.spec_items().spec_item(ItemType::Service) == Some(service_name@)
                && t.spec_items().spec_item(ItemType::User) == (match username {
                Some(u) => Some(u@),
                None => None::<Seq<u8>>,
            }) && forall|s: ItemType|
                s != ItemType::Service && s != ItemType::User ==> t.spec_items().spec_item(
                    s,
                ) is None),
    {
        if native_ret != 0 {
            return Err(ErrorCode::from_code(native_ret));
        }
        if handle_is_null {
            return Err(ErrorCode::BufferError);
        }
        let mut items = PamItems::new();
        items.set_item(ItemType::Service, Some(&service_name));
        match &username {
            Some(u) => items.set_item(ItemType::User, Some(u)),
            None => {},
        }
        Ok(
            Pam {
                conversation: OwnedConversation::new(conversation),
                last_return: Ok(()),
                ended: false,
                environ: PamEnv::new(),
                items,
            },
        )
    }

    /// Absorbs the integer return of one native lifecycle call: translates
    /// it (zero is success, anything else the matching error kind) and
    /// caches the outcome as the last result for the eventual teardown.
    pub fn record_result(&mut self, native_ret: i32) -> (r: Result<(), ErrorCode>)
        requires
            old(self).wf(),
            !old(self).spec_ended(),
        ensures
            final(self).wf(),
            r == ErrorCode::spec_result_from(native_ret as int),
            final(self).spec_last_return() == r,
            !final(self).spec_ended(),
            final(self).spec_conversation() == old(self).spec_conversation(),
            final(self).spec_environ() == old(self).spec_environ(),
            final(self).spec_items() == old(self).spec_items(),
    {
        let r = ErrorCode::result_from(native_ret);
        self.last_return = r;
        r
    }

    /// Releases the session at most once: the first call reports the native
    /// return value to pass to the native end routine — the cached last
    /// result — and marks the transaction ended; any later call is a no-op
    /// that reports nothing, so the native handle can never be released
    /// twice.
    pub fn end(&mut self) -> (code: Option<i32>)
        requires
            old(self).wf(),
        ensures
            final(self).wf(),
            final(self).spec_ended(),
            old(self).spec_ended() ==> code is None && *final(self) == *old(self),
            !old(self).spec_ended() ==> (code matches Some(c) && c == ErrorCode::spec_result_code(
                old(self).spec_last_return(),
            )),
            final(self).spec_conversation() == old(self).spec_conversation(),
            final(self).spec_environ() == old(self).spec_environ(),
            final(self).spec_items() == old(self).spec_items(),
            final(self).spec_last_return() == old(self).spec_last_return(),
    {
        if self.ended {
            return None;
        }
        self.ended = true;
        Some(ErrorCode::result_to_code(self.last_return))
    }

    /// Like [`Pam::end`], but asks the native end routine to keep quiet:
    /// the reported value carries the silent-data bit on top of the cached
    /// last result.
    pub fn end_silent(&mut self) -> (code: Option<i32>)
        requires
            old(self).wf(),
        ensures
            final(self).wf(),
            final(self).spec_ended(),
            old(self).spec_ended() ==> code is None && *final(self) == *old(self),
            !old(self).spec_ended() ==> (code matches Some(c) && c == ((
            ErrorCode::spec_result_code(old(self).spec_last_return()) as i32) | 0x40000000i32)),
            final(self).spec_conversation() == old(self).spec_conversation(),
            final(self).spec_environ() == old(self).spec_environ(),
            final(self).spec_items() == old(self).spec_items(),
            final(self).spec_last_return() == old(self).spec_last_return(),
    {
        if self.ended {
            return None;
        }
        self.ended = true;
        let c = ErrorCode::result_to_code(self.last_return);
        Some(c | 0x40000000)
    }

    /// The prompt the user-identification step asks with: the given prompt
    /// when there is one, else the user-prompt item, else `login: `.
    pub open spec fn spec_user_prompt(&self, prompt: Option<Seq<u8>>) -> Seq<u8> {
        match prompt {
            Some(p) => p,
            None => match self.spec_items().spec_item(ItemType::UserPrompt) {
                Some(up) => up,
                None => seq![108u8, 111u8, 103u8, 105u8, 110u8, 58u8, 32u8],
            },
        }
    }

    /// Resolves the user's identification and copies it out: a username
    /// already stored in its item slot is returned as is; otherwise the
    /// conversation is asked with one plain prompt, and a successful reply
    /// is stored in the user item and returned. A reply that cannot cross
    /// the nul-terminated native boundary is a buffer error; a declined
    /// prompt reports the conversation's own error.
    pub fn username(&mut self, prompt: Option<&Vec<u8>>) -> (r: Result<Vec<u8>, ErrorCode>)
        requires
            old(self).wf(),
            !old(self).spec_ended(),
            prompt matches Some(p) ==> !spec_has_nul(p@),
        ensures
            final(self).wf(),
            old(self).spec_items().spec_item(ItemType::User) matches Some(u) ==> r matches Ok(v)
                && v@ == u && *final(self) == *old(self),
            old(self).spec_items().spec_item(ItemType::User) is None ==> {
                let q = old(self).spec_user_prompt(
                    match prompt {
                        Some(p) => Some(p@),
                        None => None::<Seq<u8>>,
                    },
                );
                let resp = old(self).spec_conversation().response(QuestionView::Plain(q));
                &&& (r matches Ok(v) ==> resp == Ok::<AnswerView, ErrorCode>(
                    AnswerView::Text(v@),
                ) && !spec_has_nul(v@) && final(self).spec_items().spec_item(ItemType::User)
                    == Some(v@) && forall|s: ItemType|
                    s != ItemType::User ==> final(self).spec_items().spec_item(s) == old(
                        self,
                    ).spec_items().spec_item(s))
                &&& (r matches Err(e) ==> (resp == Err::<AnswerView, ErrorCode>(e) || (
                e == ErrorCode::BufferError && (resp matches Ok(AnswerView::Text(t))
                    && spec_has_nul(t)))) && final(self).spec_items() == old(self).spec_items())
            },
            final(self).spec_conversation() == old(self).spec_conversation(),
            final(self).spec_environ() == old(self).spec_environ(),
            final(self).spec_ended() == old(self).spec_ended(),
            final(self).spec_last_return() == old(self).spec_last_return(),
    {
        match self.items.get_item(ItemType::User) {
            Some(u) => Ok(u),
            None => {
                let q: Vec<u8> = match prompt {
                    Some(p) => p.clone(),
                    None => match self.items.get_item(ItemType::UserPrompt) {
                        Some(up) => up,
                        None => {
                            let mut d: Vec<u8> = Vec::new();
                            d.push(108);
                            d.push(111);
                            d.push(103);
                            d.push(105);
                            d.push(110);
                            d.push(58);
                            d.push(32);
                            proof {
                                assert(d@ =~= seq![108u8, 111u8, 103u8, 105u8, 110u8, 58u8, 32u8]);
                            }
                            d
                        },
                    },
                };
                let mut batch: Vec<OwnedExchange> = Vec::new();
                batch.push(OwnedExchange::new(Exchange::Prompt(q)));
                self.conversation.communicate(&mut batch);
                match &batch[0] {
                    OwnedExchange::Prompt(x) => match &x.a {
                        Ok(t) => {
                            if contains_nul(t.as_slice()) {
                                return Err(ErrorCode::BufferError);
                            }
                            let user = t.clone();
                            self.items.set_item(ItemType::User, Some(&user));
                            Ok(user)
                        },
                        Err(e) => Err(*e),
                    },
                    _ => Err(ErrorCode::ConversationError),
                }
            },
        }
    }

    /// The shared environment view, scoped to the transaction.
    pub fn environ(&self) -> (r: &PamEnv)
        requires
            !self.spec_ended(),
        ensures
            *r == self.spec_environ(),
    {
        &self.environ
    }

    /// The exclusive environment view, scoped to the transaction: changes
    /// made through it become the transaction's environment.
    pub fn environ_mut(&mut self) -> (r: &mut PamEnv)
        requires
            !old(self).spec_ended(),
        ensures
            *r == old(self).spec_environ(),
            final(self).spec_environ() == *final(r),
            final(self).spec_conversation() == old(self).spec_conversation(),
            final(self).spec_items() == old(self).spec_items(),
            final(self).spec_ended() == old(self).spec_ended(),
            final(self).spec_last_return() == old(self).spec_last_return(),
    {
        &mut self.environ
    }

    /// The shared item view, scoped to the transaction.
    pub fn items(&self) -> (r: &PamItems)
        requires
            !self.spec_ended(),
        ensures
            *r == self.spec_items(),
    {
        &self.items
    }

    /// The exclusive item view, scoped to the transaction: changes made
    /// through it become the transaction's items.
    pub fn items_mut(&mut self) -> (r: &mut PamItems)
        requires
            !old(self).spec_ended(),
        ensures
            *r == old(self).spec_items(),
            final(self).spec_items() == *final(r),
            final(self).spec_conversation() == old(self).spec_conversation(),
            final(self).spec_environ() == old(self).spec_environ(),
            final(self).spec_ended() == old(self).spec_ended(),
            final(self).spec_last_return() == old(self).spec_last_return(),
    {
        &mut self.items
    }
}

/// Collects what a transaction needs before it is started.
#[derive(Debug)]
pub struct PamBuilder {
    service_name: Vec<u8>,
    username: Option<Vec<u8>>,
}

impl PamBuilder {
    /// The service name the transaction will be started under.
    pub closed spec fn spec_service_name(&self) -> Seq<u8> {
        self.service_name@
    }

    /// The username the transaction will be started with, if chosen.
    pub closed spec fn spec_username(&self) -> Option<Seq<u8>> {
        match self.username {
            Some(u) => Some(u@),
            None => None,
        }
    }

    /// Starts collecting, from the service name.
    pub fn new(service_name: Vec<u8>) -> (r: PamBuilder)
        requires
            !spec_has_nul(service_name@),
        ensures
            r.spec_service_name() == service_name@,
            r.spec_username() is None,
    {
        PamBuilder { service_name, username: None }
    }

    /// Chooses the username.
    pub fn username(self, username: Vec<u8>) -> (r: PamBuilder)
        requires
            !spec_has_nul(username@),
        ensures
            r.spec_service_name() == self.spec_service_name(),
            r.spec_username() == Some(username@),
    {
        PamBuilder { service_name: self.service_name, username: Some(username) }
    }

    /// Builds the transaction around a conversation, from the collected
    /// names and the native startup outcome, as [`Pam::start`] does.
    pub fn build<C: Conversation>(
        self,
        conv: C,
        native_ret: i32,
        handle_is_null: bool,
    ) -> (r: Result<Pam<C>, ErrorCode>)
        requires
            !spec_has_nul(self.spec_service_name()),
            self.spec_username() matches Some(u) ==> !spec_has_nul(u),
        ensures
            native_ret != 0 ==> r == Err::<Pam<C>, ErrorCode>(
                ErrorCode::spec_from_code(native_ret as int),
            ),
            native_ret == 0 && handle_is_null ==> r == Err::<Pam<C>, ErrorCode>(
                ErrorCode::BufferError,
            ),
            native_ret == 0 && !handle_is_null ==> (r matches Ok(t) && t.wf() && !t.spec_ended()
                && t.spec_last_return() == Ok::<(), ErrorCode>(()) && t.spec_conversation()
                == conv && t.spec_environ().spec_entries().len() == 0
                && t.spec_items().spec_item(ItemType::Service) == Some(self.spec_service_name())
                && t.spec_items().spec_item(ItemType::User) == self.spec_username()),
    {
        Pam::start(self.service_name, self.username, conv, native_ret, handle_is_null)
    }
}

} // verus!
