//! A ready-made adapter that answers every plain prompt with a fixed
//! username and every masked prompt with a fixed password, and the owned
//! conversation wrapper built around it. It has no radio or binary
//! capability: those styles are answered with a conversation error.

use vstd::prelude::*;

use crate::answer::Answers;
use crate::constants::ErrorCode;
use crate::conversation::AnswerView;
use crate::conversation::BinaryData;
use crate::conversation::Conversation;
use crate::conversation::ConversationAdapter;
use crate::conversation::Demux;
use crate::conversation::OwnedConversation;
use crate::conversation::OwnedExchange;
use crate::conversation::Question;
use crate::conversation::QuestionView;

verus! {

/// An adapter with fixed credentials: the username answers every plain
/// prompt, the password every masked prompt, and notices are ignored.
#[derive(Debug)]
pub struct PamConversation {
    username: Vec<u8>,
    password: Vec<u8>,
}

impl PamConversation {
    /// The configured username.
    pub closed spec fn spec_username(&self) -> Seq<u8> {
        self.username@
    }

    /// The configured password.
    pub closed spec fn spec_password(&self) -> Seq<u8> {
        self.password@
    }

    /// Fixes the two credentials the adapter will answer with.
    pub fn new(username: Vec<u8>, password: Vec<u8>) -> (r: PamConversation)
        ensures
            r.spec_username() == username@,
            r.spec_password() == password@,
    {
        PamConversation { username, password }
    }

    /// Answers a batch directly, handling the four base styles only: plain
    /// prompts get the username, masked prompts the password, notices are
    /// acknowledged, and a radio or binary exchange is left exactly as it
    /// came in (its sentinel answer still unwritten).
    pub fn communicate(&self, messages: &mut Vec<OwnedExchange>)
        ensures
            final(messages)@.len() == old(messages)@.len(),
            forall|i: int|
                0 <= i < old(messages)@.len() ==> {
                    let m0 = old(messages)@[i];
                    let m1 = #[trigger] final(messages)@[i];
                    &&& m1.q_view() == m0.q_view()
                    &&& (m0.q_view() matches QuestionView::Plain(q) ==> m1.a_view() == Ok::<
                        AnswerView,
                        ErrorCode,
                    >(AnswerView::Text(self.spec_username())))
                    &&& (m0.q_view() matches QuestionView::Masked(q) ==> m1.a_view() == Ok::<
                        AnswerView,
                        ErrorCode,
                    >(AnswerView::Text(self.spec_password())))
                    &&& (m0.q_view() is InfoNote ==> m1.a_view() == Ok::<
                        AnswerView,
                        ErrorCode,
                    >(AnswerView::Unit))
                    &&& (m0.q_view() is ErrorNote ==> m1.a_view() == Ok::<
                        AnswerView,
                        ErrorCode,
                    >(AnswerView::Unit))
                    &&& (m0.q_view() is Radio ==> m1 == m0)
                    &&& (m0.q_view() is Binary ==> m1 == m0)
                },
    {
        let n: usize = messages.len();
        let mut i: usize = 0;
        while i < n
            invariant
                n == messages@.len(),
                n == old(messages)@.len(),
                0 <= i <= n,
                forall|j: int| i <= j < n ==> messages@[j] == old(messages)@[j],
                forall|j: int|
                    0 <= j < i ==> {
                        let m0 = old(messages)@[j];
                        let m1 = #[trigger] messages@[j];
                        &&& m1.q_view() == m0.q_view()
                        &&& (m0.q_view() matches QuestionView::Plain(q) ==> m1.a_view() == Ok::<
                            AnswerView,
                            ErrorCode,
                        >(AnswerView::Text(self.spec_username())))
                        &&& (m0.q_view() matches QuestionView::Masked(q) ==> m1.a_view() == Ok::<
                            AnswerView,
                            ErrorCode,
                        >(AnswerView::Text(self.spec_password())))
                        &&& (m0.q_view() is InfoNote ==> m1.a_view() == Ok::<
                            AnswerView,
                            ErrorCode,
                        >(AnswerView::Unit))
                        &&& (m0.q_view() is ErrorNote ==> m1.a_view() == Ok::<
                            AnswerView,
                            ErrorCode,
                        >(AnswerView::Unit))
                        &&& (m0.q_view() is Radio ==> m1 == m0)
                        &&& (m0.q_view() is Binary ==> m1 == m0)
                    },
            decreases n - i,
        {
            let ex = &mut messages[i];
            match ex {
                OwnedExchange::Prompt(x) => {
                    x.a = Ok(self.username.clone());
                },
                OwnedExchange::MaskedPrompt(x) => {
                    x.a = Ok(self.password.clone());
                },
                OwnedExchange::Info(x) => {
                    x.a = Ok(());
                },
                OwnedExchange::Error(x) => {
                    x.a = Ok(());
                },
                OwnedExchange::RadioPrompt(x) => {},
                OwnedExchange::BinaryPrompt(x) => {},
            }
            i = i + 1;
        }
    }
}

impl ConversationAdapter for PamConversation {
    closed spec fn prompt_response(&self, request: Seq<u8>) -> Result<Seq<u8>, ErrorCode> {
        Ok(self.username@)
    }

    closed spec fn masked_response(&self, request: Seq<u8>) -> Result<Seq<u8>, ErrorCode> {
        Ok(self.password@)
    }

    closed spec fn radio_response(&self, request: Seq<u8>) -> Result<Seq<u8>, ErrorCode> {
        Err(ErrorCode::ConversationError)
    }

    closed spec fn binary_response(&self, data: Seq<u8>, data_type: u8) -> Result<
        (Seq<u8>, u8),
        ErrorCode,
    > {
        Err(ErrorCode::ConversationError)
    }

    fn prompt(&self, request: &Vec<u8>) -> (r: Result<Vec<u8>, ErrorCode>) {
        Ok(self.username.clone())
    }

    fn masked_prompt(&self, request: &Vec<u8>) -> (r: Result<Vec<u8>, ErrorCode>) {
        Ok(self.password.clone())
    }

    fn error_msg(&self, message: &Vec<u8>) {
    }

    fn info_msg(&self, message: &Vec<u8>) {
    }

    fn radio_prompt(&self, request: &Vec<u8>) -> (r: Result<Vec<u8>, ErrorCode>) {
        Err(ErrorCode::ConversationError)
    }

    fn binary_prompt(&self, query: &BinaryData) -> (r: Result<BinaryData, ErrorCode>) {
        Err(ErrorCode::ConversationError)
    }
}

/// The semantics the fixed-credential adapter gives the batch dispatcher:
/// every plain prompt is answered with the username, every masked prompt
/// with the password, notices succeed, and the optional styles are
/// declined.
pub proof fn lemma_pam_conversation_responses(conv: PamConversation, q: QuestionView)
    ensures
        q matches QuestionView::Plain(s) ==> (Demux { adapter: conv }).response(q) == Ok::<
            AnswerView,
            ErrorCode,
        >(AnswerView::Text(conv.spec_username())),
        q matches QuestionView::Masked(s) ==> (Demux { adapter: conv }).response(q) == Ok::<
            AnswerView,
            ErrorCode,
        >(AnswerView::Text(conv.spec_password())),
        q is InfoNote ==> (Demux { adapter: conv }).response(q) == Ok::<AnswerView, ErrorCode>(
            AnswerView::Unit,
        ),
        q is ErrorNote ==> (Demux { adapter: conv }).response(q) == Ok::<AnswerView, ErrorCode>(
            AnswerView::Unit,
        ),
        q is Radio ==> (Demux { adapter: conv }).response(q) == Err::<AnswerView, ErrorCode>(
            ErrorCode::ConversationError,
        ),
        q is Binary ==> (Demux { adapter: conv }).response(q) == Err::<AnswerView, ErrorCode>(
            ErrorCode::ConversationError,
        ),
{
}

/// The fixed-credential conversation held at its stable address, ready to
/// be registered with a transaction.
#[derive(Debug)]
pub struct PamOwnedConversation {
    inner: OwnedConversation<Demux<PamConversation>>,
}

impl PamOwnedConversation {
    /// The dispatcher this wrapper owns.
    pub closed spec fn spec_demux(&self) -> Demux<PamConversation> {
        self.inner.conversation()
    }

    /// Moves a fixed-credential adapter into its fixed heap slot, behind
    /// the batch dispatcher.
    pub fn new(conv: PamConversation) -> (r: PamOwnedConversation)
        ensures
            r.spec_demux() == (Demux { adapter: conv }),
    {
        PamOwnedConversation { inner: OwnedConversation::new(Demux::new(conv)) }
    }

    /// One whole callback invocation against the fixed credentials, as
    /// [`OwnedConversation::converse`] runs it.
    pub fn converse(&self, questions: &Vec<Question>) -> (r: Result<Answers, ErrorCode>)
        ensures
            !crate::conversation::spec_decodable_batch(questions@) ==> r == Err::<
                Answers,
                ErrorCode,
            >(ErrorCode::ConversationError),
            crate::conversation::spec_decodable_batch(questions@) ==> {
                let expected = crate::answer::spec_build_payloads(
                    self.spec_responses(questions@),
                );
                &&& (r is Ok <==> expected is Ok)
                &&& (r matches Err(e) ==> expected == Err::<Seq<Seq<u8>>, ErrorCode>(e))
                &&& (r matches Ok(ans) ==> expected matches Ok(ps)
                    && ans.records@.len() == questions@.len() && forall|i: int|
                    0 <= i < questions@.len() ==> (#[trigger] ans.records@[i]).return_code == 0
                        && crate::answer::spec_record_data(ans.records@[i]) == Some(ps[i]))
            },
    {
        proof {
            assert(self.spec_responses(questions@) =~= self.inner.spec_responses(questions@));
        }
        self.inner.converse(questions)
    }

    /// The answers the wrapper gives a decodable batch, record by record:
    /// exactly what the owned dispatcher answers each decoded question.
    pub open spec fn spec_responses(&self, qs: Seq<Question>) -> Seq<
        Result<AnswerView, ErrorCode>,
    > {
        Seq::new(
            qs.len(),
            |i: int|
                self.spec_demux().response(
                    crate::conversation::spec_decode_question(
                        qs[i].style as int,
                        qs[i].text@,
                    )->Ok_0,
                ),
        )
    }
}

/// The fixed-credential wrapper answers exactly as the general bridge does
/// when the general bridge holds the same dispatcher: for every batch, the
/// two give the same answers record by record, so their callback outcomes
/// coincide.
pub proof fn lemma_pam_owned_conversation_matches_bridge(
    wrapper: PamOwnedConversation,
    bridge: OwnedConversation<Demux<PamConversation>>,
    qs: Seq<Question>,
)
    requires
        bridge.conversation() == wrapper.spec_demux(),
    ensures
        wrapper.spec_responses(qs) == bridge.spec_responses(qs),
{
    assert(wrapper.spec_responses(qs) =~= bridge.spec_responses(qs));
}

} // verus!
