//! The conversation protocol: question records, owned exchanges carrying one
//! answer slot each, the capability interfaces an embedding application
//! implements, and the per-style dispatch that answers a batch of questions.

use vstd::prelude::*;

use crate::constants::ErrorCode;

verus! {

/// A byte payload with a one-byte type tag, used by the extended
/// binary-exchange style.
#[derive(Clone, Debug)]
pub struct BinaryData {
    pub data: Vec<u8>,
    pub data_type: u8,
}

impl BinaryData {
    /// Packs a byte payload with its type tag.
    pub fn new(data: Vec<u8>, data_type: u8) -> (r: BinaryData)
        ensures
            r.data@ == data@,
            r.data_type == data_type,
    {
        BinaryData { data, data_type }
    }
}

/// The abstract value of one question: its style and its payload.
pub enum QuestionView {
    Masked(Seq<u8>),
    Plain(Seq<u8>),
    ErrorNote(Seq<u8>),
    InfoNote(Seq<u8>),
    Radio(Seq<u8>),
    Binary(Seq<u8>, u8),
}

/// The abstract value of one produced answer: text for the prompt styles,
/// the unit value for notices, data and tag for the binary style.
pub enum AnswerView {
    Text(Seq<u8>),
    Unit,
    Binary(Seq<u8>, u8),
}

/// Lifts an owned text answer to its abstract value.
pub open spec fn spec_text_result(r: Result<Vec<u8>, ErrorCode>) -> Result<Seq<u8>, ErrorCode> {
    match r {
        Ok(v) => Ok(v@),
        Err(e) => Err(e),
    }
}

/// Wraps an abstract text outcome as an answer.
pub open spec fn spec_text_answer(r: Result<Seq<u8>, ErrorCode>) -> Result<
    AnswerView,
    ErrorCode,
> {
    match r {
        Ok(s) => Ok(AnswerView::Text(s)),
        Err(e) => Err(e),
    }
}

/// Lifts an owned binary answer to its abstract value.
pub open spec fn spec_binary_result(r: Result<BinaryData, ErrorCode>) -> Result<
    (Seq<u8>, u8),
    ErrorCode,
> {
    match r {
        Ok(b) => Ok((b.data@, b.data_type)),
        Err(e) => Err(e),
    }
}

/// Wraps an abstract binary outcome as an answer.
pub open spec fn spec_binary_answer(r: Result<(Seq<u8>, u8), ErrorCode>) -> Result<
    AnswerView,
    ErrorCode,
> {
    match r {
        Ok(p) => Ok(AnswerView::Binary(p.0, p.1)),
        Err(e) => Err(e),
    }
}

/// One question of a batch, as an owned plain value.
#[derive(Clone, Debug)]
pub enum Exchange {
    Prompt(Vec<u8>),
    MaskedPrompt(Vec<u8>),
    Error(Vec<u8>),
    Info(Vec<u8>),
    RadioPrompt(Vec<u8>),
    BinaryPrompt(BinaryData),
}

impl Exchange {
    /// The abstract question this record asks.
    pub open spec fn q_view(&self) -> QuestionView {
        match self {
            Exchange::Prompt(q) => QuestionView::Plain(q@),
            Exchange::MaskedPrompt(q) => QuestionView::Masked(q@),
            Exchange::Error(q) => QuestionView::ErrorNote(q@),
            Exchange::Info(q) => QuestionView::InfoNote(q@),
            Exchange::RadioPrompt(q) => QuestionView::Radio(q@),
            Exchange::BinaryPrompt(b) => QuestionView::Binary(b.data@, b.data_type),
        }
    }
}

/// A text question together with its single answer slot.
#[derive(Debug)]
pub struct QAndA {
    pub q: Vec<u8>,
    pub a: Result<Vec<u8>, ErrorCode>,
}

/// A notice (informational or error text) together with its single
/// acknowledgement slot.
#[derive(Debug)]
pub struct Notice {
    pub q: Vec<u8>,
    pub a: Result<(), ErrorCode>,
}

/// A binary question together with its single answer slot.
#[derive(Debug)]
pub struct BinaryQAndA {
    pub q: BinaryData,
    pub a: Result<BinaryData, ErrorCode>,
}

/// A question promoted into locally owned storage so it can carry the answer
/// produced for it. The slot starts at the sentinel "not answered"
/// conversation error, is written at most once by dispatch, and is read once
/// when the output array is built.
#[derive(Debug)]
pub enum OwnedExchange {
    MaskedPrompt(QAndA),
    Prompt(QAndA),
    Info(Notice),
    Error(Notice),
    RadioPrompt(QAndA),
    BinaryPrompt(BinaryQAndA),
}

impl OwnedExchange {
    /// The abstract question this exchange asks.
    pub open spec fn q_view(&self) -> QuestionView {
        match self {
            OwnedExchange::MaskedPrompt(x) => QuestionView::Masked(x.q@),
            OwnedExchange::Prompt(x) => QuestionView::Plain(x.q@),
            OwnedExchange::Info(x) => QuestionView::InfoNote(x.q@),
            OwnedExchange::Error(x) => QuestionView::ErrorNote(x.q@),
            OwnedExchange::RadioPrompt(x) => QuestionView::Radio(x.q@),
            OwnedExchange::BinaryPrompt(x) => QuestionView::Binary(x.q.data@, x.q.data_type),
        }
    }

    /// The abstract value its answer slot holds.
    pub open spec fn a_view(&self) -> Result<AnswerView, ErrorCode> {
        match self {
            OwnedExchange::MaskedPrompt(x) => spec_text_answer(spec_text_result(x.a)),
            OwnedExchange::Prompt(x) => spec_text_answer(spec_text_result(x.a)),
            OwnedExchange::Info(x) => match x.a {
                Ok(u) => Ok(AnswerView::Unit),
                Err(e) => Err(e),
            },
            OwnedExchange::Error(x) => match x.a {
                Ok(u) => Ok(AnswerView::Unit),
                Err(e) => Err(e),
            },
            OwnedExchange::RadioPrompt(x) => spec_text_answer(spec_text_result(x.a)),
            OwnedExchange::BinaryPrompt(x) => spec_binary_answer(spec_binary_result(x.a)),
        }
    }

    /// Promotes a question into an owned exchange whose answer slot holds
    /// the sentinel "not answered" error.
    pub fn new(question: Exchange) -> (r: OwnedExchange)
        ensures
            r.q_view() == question.q_view(),
            r.a_view() == Err::<AnswerView, ErrorCode>(ErrorCode::ConversationError),
    {
        match question {
            Exchange::Prompt(q) => OwnedExchange::Prompt(
                QAndA { q, a: Err(ErrorCode::ConversationError) },
            ),
            Exchange::MaskedPrompt(q) => OwnedExchange::MaskedPrompt(
                QAndA { q, a: Err(ErrorCode::ConversationError) },
            ),
            Exchange::Error(q) => OwnedExchange::Error(
                Notice { q, a: Err(ErrorCode::ConversationError) },
            ),
            Exchange::Info(q) => OwnedExchange::Info(
                Notice { q, a: Err(ErrorCode::ConversationError) },
            ),
            Exchange::RadioPrompt(q) => OwnedExchange::RadioPrompt(
                QAndA { q, a: Err(ErrorCode::ConversationError) },
            ),
            Exchange::BinaryPrompt(b) => OwnedExchange::BinaryPrompt(
                BinaryQAndA { q: b, a: Err(ErrorCode::ConversationError) },
            ),
        }
    }
}

/// A native question record as handed to the bridge: a 4-byte style value
/// and the text copied out of the native-owned payload.
#[derive(Clone, Debug)]
pub struct Question {
    pub style: i32,
    pub text: Vec<u8>,
}

/// Which question a native record carries: the four base styles are
/// recognized; any other style value makes the whole record undecodable.
pub open spec fn spec_decode_question(style: int, text: Seq<u8>) -> Result<
    QuestionView,
    ErrorCode,
> {
    if style == 1 {
        Ok(QuestionView::Masked(text))
    } else if style == 2 {
        Ok(QuestionView::Plain(text))
    } else if style == 3 {
        Ok(QuestionView::ErrorNote(text))
    } else if style == 4 {
        Ok(QuestionView::InfoNote(text))
    } else {
        Err(ErrorCode::ConversationError)
    }
}

impl Question {
    /// Decodes this record into an owned exchange with an unanswered slot;
    /// an unrecognized style is a conversation error.
    pub fn decode(&self) -> (r: Result<OwnedExchange, ErrorCode>)
        ensures
            r matches Ok(ex) ==> spec_decode_question(self.style as int, self.text@) == Ok::<
                QuestionView,
                ErrorCode,
            >(ex.q_view()) && ex.a_view() == Err::<AnswerView, ErrorCode>(
                ErrorCode::ConversationError,
            ),
            r matches Err(e) ==> spec_decode_question(self.style as int, self.text@) == Err::<
                QuestionView,
                ErrorCode,
            >(e),
    {
        let text = self.text.clone();
        match self.style {
            1 => Ok(OwnedExchange::new(Exchange::MaskedPrompt(text))),
            2 => Ok(OwnedExchange::new(Exchange::Prompt(text))),
            3 => Ok(OwnedExchange::new(Exchange::Error(text))),
            4 => Ok(OwnedExchange::new(Exchange::Info(text))),
            _ => Err(ErrorCode::ConversationError),
        }
    }
}

/// The native style value a question encodes to, for the module-side
/// direction; the vendor-extension styles are not encoded.
pub open spec fn spec_encode_style(q: QuestionView) -> Result<int, ErrorCode> {
    match q {
        QuestionView::Masked(t) => Ok(1),
        QuestionView::Plain(t) => Ok(2),
        QuestionView::ErrorNote(t) => Ok(3),
        QuestionView::InfoNote(t) => Ok(4),
        QuestionView::Radio(t) => Err(ErrorCode::ConversationError),
        QuestionView::Binary(d, t) => Err(ErrorCode::ConversationError),
    }
}

/// Encodes a question into a native record: the matching style value and a
/// copy of the text, which must be representable as a nul-terminated string.
pub fn encode_question(ex: &Exchange) -> (r: Result<Question, ErrorCode>)
    requires
        ex matches Exchange::Prompt(t) ==> !crate::helper::spec_has_nul(t@),
        ex matches Exchange::MaskedPrompt(t) ==> !crate::helper::spec_has_nul(t@),
        ex matches Exchange::Error(t) ==> !crate::helper::spec_has_nul(t@),
        ex matches Exchange::Info(t) ==> !crate::helper::spec_has_nul(t@),
    ensures
        r matches Ok(q) ==> spec_encode_style(ex.q_view()) == Ok::<int, ErrorCode>(
            q.style as int,
        ) && spec_decode_question(q.style as int, q.text@) == Ok::<QuestionView, ErrorCode>(
            ex.q_view(),
        ),
        r matches Err(e) ==> spec_encode_style(ex.q_view()) == Err::<int, ErrorCode>(e),
{
    match ex {
        Exchange::MaskedPrompt(t) => Ok(Question { style: 1, text: t.clone() }),
        Exchange::Prompt(t) => Ok(Question { style: 2, text: t.clone() }),
        Exchange::Error(t) => Ok(Question { style: 3, text: t.clone() }),
        Exchange::Info(t) => Ok(Question { style: 4, text: t.clone() }),
        Exchange::RadioPrompt(t) => Err(ErrorCode::ConversationError),
        Exchange::BinaryPrompt(b) => Err(ErrorCode::ConversationError),
    }
}

/// The low-level conversation capability: dispatch one batch of exchanges,
/// producing exactly one answer per record, in array order.
pub trait Conversation: Sized {
    /// The answer this conversation produces for a given question.
    spec fn response(&self, q: QuestionView) -> Result<AnswerView, ErrorCode>;

    /// Answers every exchange of the batch in place: each record keeps its
    /// question and receives exactly the conversation's answer for it, and
    /// the batch keeps its length and order.
    fn communicate(&self, messages: &mut Vec<OwnedExchange>)
        ensures
            final(messages)@.len() == old(messages)@.len(),
            forall|i: int|
                0 <= i < old(messages)@.len() ==> (#[trigger] final(messages)@[i]).q_view()
                    == old(messages)@[i].q_view() && final(messages)@[i].a_view() == self.response(
                    old(messages)@[i].q_view(),
                ),
    ;
}

/// The capability interface an embedding application implements, one method
/// per question style. The radio and binary styles are optional: an adapter
/// that does not support them answers them with a conversation error.
pub trait ConversationAdapter: Sized {
    /// The answer this adapter gives a plain prompt.
    spec fn prompt_response(&self, request: Seq<u8>) -> Result<Seq<u8>, ErrorCode>;

    /// The answer this adapter gives a masked prompt.
    spec fn masked_response(&self, request: Seq<u8>) -> Result<Seq<u8>, ErrorCode>;

    /// The answer this adapter gives a radio-choice prompt; a conversation
    /// error throughout when the capability is absent.
    spec fn radio_response(&self, request: Seq<u8>) -> Result<Seq<u8>, ErrorCode>;

    /// The answer this adapter gives a binary prompt; a conversation error
    /// throughout when the capability is absent.
    spec fn binary_response(&self, data: Seq<u8>, data_type: u8) -> Result<
        (Seq<u8>, u8),
        ErrorCode,
    >;

    /// Asks for a reply to a plain (echoing) prompt.
    fn prompt(&self, request: &Vec<u8>) -> (r: Result<Vec<u8>, ErrorCode>)
        ensures
            spec_text_result(r) == self.prompt_response(request@),
    ;

    /// Asks for a reply to a masked (secret) prompt.
    fn masked_prompt(&self, request: &Vec<u8>) -> (r: Result<Vec<u8>, ErrorCode>)
        ensures
            spec_text_result(r) == self.masked_response(request@),
    ;

    /// Shows an error notice.
    fn error_msg(&self, message: &Vec<u8>);

    /// Shows an informational notice.
    fn info_msg(&self, message: &Vec<u8>);

    /// Asks for a reply to a radio-choice prompt.
    fn radio_prompt(&self, request: &Vec<u8>) -> (r: Result<Vec<u8>, ErrorCode>)
        ensures
            spec_text_result(r) == self.radio_response(request@),
    ;

    /// Asks for a reply to a binary prompt.
    fn binary_prompt(&self, query: &BinaryData) -> (r: Result<BinaryData, ErrorCode>)
        ensures
            spec_binary_result(r) == self.binary_response(query.data@, query.data_type),
    ;
}

/// The text a conversation's answer carries, when it is a text answer; any
/// other successful answer shape counts as a conversation error.
pub open spec fn spec_text_of(r: Result<AnswerView, ErrorCode>) -> Result<Seq<u8>, ErrorCode> {
    match r {
        Ok(AnswerView::Text(t)) => Ok(t),
        Ok(AnswerView::Unit) => Err(ErrorCode::ConversationError),
        Ok(AnswerView::Binary(d, t)) => Err(ErrorCode::ConversationError),
        Err(e) => Err(e),
    }
}

/// The data and tag a conversation's answer carries, when it is a binary
/// answer; any other successful answer shape counts as a conversation
/// error.
pub open spec fn spec_binary_of(r: Result<AnswerView, ErrorCode>) -> Result<
    (Seq<u8>, u8),
    ErrorCode,
> {
    match r {
        Ok(AnswerView::Binary(d, t)) => Ok((d, t)),
        Ok(AnswerView::Text(t)) => Err(ErrorCode::ConversationError),
        Ok(AnswerView::Unit) => Err(ErrorCode::ConversationError),
        Err(e) => Err(e),
    }
}

/// Every batch conversation can also be spoken to one question at a time:
/// each per-style call wraps the question as a one-record batch, dispatches
/// it, and reads the single answer back.
impl<C: Conversation> ConversationAdapter for C {
    open spec fn prompt_response(&self, request: Seq<u8>) -> Result<Seq<u8>, ErrorCode> {
        spec_text_of(self.response(QuestionView::Plain(request)))
    }

    open spec fn masked_response(&self, request: Seq<u8>) -> Result<Seq<u8>, ErrorCode> {
        spec_text_of(self.response(QuestionView::Masked(request)))
    }

    open spec fn radio_response(&self, request: Seq<u8>) -> Result<Seq<u8>, ErrorCode> {
        spec_text_of(self.response(QuestionView::Radio(request)))
    }

    open spec fn binary_response(&self, data: Seq<u8>, data_type: u8) -> Result<
        (Seq<u8>, u8),
        ErrorCode,
    > {
        spec_binary_of(self.response(QuestionView::Binary(data, data_type)))
    }

    fn prompt(&self, request: &Vec<u8>) -> (r: Result<Vec<u8>, ErrorCode>) {
        let mut batch: Vec<OwnedExchange> = Vec::new();
        batch.push(OwnedExchange::new(Exchange::Prompt(request.clone())));
        self.communicate(&mut batch);
        match batch.pop() {
            Some(OwnedExchange::Prompt(x)) => x.a,
            _ => Err(ErrorCode::ConversationError),
        }
    }

    fn masked_prompt(&self, request: &Vec<u8>) -> (r: Result<Vec<u8>, ErrorCode>) {
        let mut batch: Vec<OwnedExchange> = Vec::new();
        batch.push(OwnedExchange::new(Exchange::MaskedPrompt(request.clone())));
        self.communicate(&mut batch);
        match batch.pop() {
            Some(OwnedExchange::MaskedPrompt(x)) => x.a,
            _ => Err(ErrorCode::ConversationError),
        }
    }

    fn error_msg(&self, message: &Vec<u8>) {
        let mut batch: Vec<OwnedExchange> = Vec::new();
        batch.push(OwnedExchange::new(Exchange::Error(message.clone())));
        self.communicate(&mut batch);
    }

    fn info_msg(&self, message: &Vec<u8>) {
        let mut batch: Vec<OwnedExchange> = Vec::new();
        batch.push(OwnedExchange::new(Exchange::Info(message.clone())));
        self.communicate(&mut batch);
    }

    fn radio_prompt(&self, request: &Vec<u8>) -> (r: Result<Vec<u8>, ErrorCode>) {
        let mut batch: Vec<OwnedExchange> = Vec::new();
        batch.push(OwnedExchange::new(Exchange::RadioPrompt(request.clone())));
        self.communicate(&mut batch);
        match batch.pop() {
            Some(OwnedExchange::RadioPrompt(x)) => x.a,
            _ => Err(ErrorCode::ConversationError),
        }
    }

    fn binary_prompt(&self, query: &BinaryData) -> (r: Result<BinaryData, ErrorCode>) {
        let mut batch: Vec<OwnedExchange> = Vec::new();
        batch.push(
            OwnedExchange::new(
                Exchange::BinaryPrompt(BinaryData::new(query.data.clone(), query.data_type)),
            ),
        );
        self.communicate(&mut batch);
        match batch.pop() {
            Some(OwnedExchange::BinaryPrompt(x)) => x.a,
            _ => Err(ErrorCode::ConversationError),
        }
    }
}

/// Adapts any per-style adapter into a batch conversation: each exchange is
/// dispatched on its own to the matching adapter method, in array order, and
/// notices always succeed once the adapter has been shown them.
#[derive(Debug)]
pub struct Demux<CA: ConversationAdapter> {
    pub adapter: CA,
}

impl<CA: ConversationAdapter> Demux<CA> {
    /// Wraps an adapter for batch dispatch.
    pub fn new(adapter: CA) -> (r: Demux<CA>)
        ensures
            r.adapter == adapter,
    {
        Demux { adapter }
    }
}

impl<CA: ConversationAdapter> Conversation for Demux<CA> {
    open spec fn response(&self, q: QuestionView) -> Result<AnswerView, ErrorCode> {
        match q {
            QuestionView::Plain(s) => spec_text_answer(self.adapter.prompt_response(s)),
            QuestionView::Masked(s) => spec_text_answer(self.adapter.masked_response(s)),
            QuestionView::Radio(s) => spec_text_answer(self.adapter.radio_response(s)),
            QuestionView::InfoNote(s) => Ok(AnswerView::Unit),
            QuestionView::ErrorNote(s) => Ok(AnswerView::Unit),
            QuestionView::Binary(d, t) => spec_binary_answer(
                self.adapter.binary_response(d, t),
            ),
        }
    }

    fn communicate(&self, messages: &mut Vec<OwnedExchange>) {
        let n: usize = messages.len();
        let mut i: usize = 0;
        while i < n
            invariant
                n == messages@.len(),
                n == old(messages)@.len(),
                0 <= i <= n,
                forall|j: int| i <= j < n ==> messages@[j] == old(messages)@[j],
                forall|j: int|
                    0 <= j < i ==> (#[trigger] messages@[j]).q_view() == old(
                        messages,
                    )@[j].q_view() && messages@[j].a_view() == self.response(
                        old(messages)@[j].q_view(),
                    ),
            decreases n - i,
        {
            let ex = &mut messages[i];
            match ex {
                OwnedExchange::Prompt(x) => {
                    let r = self.adapter.prompt(&x.q);
                    x.a = r;
                },
                OwnedExchange::MaskedPrompt(x) => {
                    let r = self.adapter.masked_prompt(&x.q);
                    x.a = r;
                },
                OwnedExchange::RadioPrompt(x) => {
                    let r = self.adapter.radio_prompt(&x.q);
                    x.a = r;
                },
                OwnedExchange::Info(x) => {
                    self.adapter.info_msg(&x.q);
                    x.a = Ok(());
                },
                OwnedExchange::Error(x) => {
                    self.adapter.error_msg(&x.q);
                    x.a = Ok(());
                },
                OwnedExchange::BinaryPrompt(x) => {
                    let r = self.adapter.binary_prompt(&x.q);
                    x.a = r;
                },
            }
            i = i + 1;
        }
    }
}

/// A conversation held at one stable heap location for the whole life of a
/// transaction: the native side keeps a raw pointer to it, so it is
/// allocated once on construction and never moved afterwards.
#[derive(Debug)]
pub struct OwnedConversation<C: Conversation> {
    conv: Box<C>,
}

impl<C: Conversation> OwnedConversation<C> {
    /// The conversation this wrapper owns.
    pub closed spec fn conversation(&self) -> C {
        *self.conv
    }

    /// Moves a conversation into its fixed heap slot.
    pub fn new(conv: C) -> (r: OwnedConversation<C>)
        ensures
            r.conversation() == conv,
    {
        OwnedConversation { conv: Box::new(conv) }
    }

    /// Dispatches one batch through the owned conversation.
    pub fn communicate(&self, messages: &mut Vec<OwnedExchange>)
        ensures
            final(messages)@.len() == old(messages)@.len(),
            forall|i: int|
                0 <= i < old(messages)@.len() ==> (#[trigger] final(messages)@[i]).q_view()
                    == old(messages)@[i].q_view() && final(messages)@[i].a_view()
                    == self.conversation().response(old(messages)@[i].q_view()),
    {
        self.conv.communicate(messages)
    }

    /// The answers the owned conversation gives a decodable batch, record by
    /// record.
    pub open spec fn spec_responses(&self, qs: Seq<Question>) -> Seq<
        Result<AnswerView, ErrorCode>,
    > {
        Seq::new(
            qs.len(),
            |i: int|
                self.conversation().response(
                    spec_decode_question(qs[i].style as int, qs[i].text@)->Ok_0,
                ),
        )
    }

    /// One whole callback invocation: decodes every question into an owned
    /// exchange (a batch with any undecodable record is never dispatched),
    /// hands the batch to the conversation in one call, and builds the
    /// answer array sized exactly to the question count. On any failure no
    /// partially built array is handed out.
    pub fn converse(&self, questions: &Vec<Question>) -> (r: Result<
        crate::answer::Answers,
        ErrorCode,
    >)
        ensures
            !spec_decodable_batch(questions@) ==> r == Err::<crate::answer::Answers, ErrorCode>(
                ErrorCode::ConversationError,
            ),
            spec_decodable_batch(questions@) ==> {
                let expected = crate::answer::spec_build_payloads(
                    self.spec_responses(questions@),
                );
                &&& (r is Ok <==> expected is Ok)
                &&& (r matches Err(e) ==> expected == Err::<Seq<Seq<u8>>, ErrorCode>(e))
                &&& (r matches Ok(ans) ==> expected matches Ok(ps)
                    && ans.records@.len() == questions@.len() && forall|i: int|
                    0 <= i < questions@.len() ==> (#[trigger] ans.records@[i]).return_code == 0
                        && crate::answer::spec_record_data(ans.records@[i]) == Some(ps[i]))
            },
    {
        let n: usize = questions.len();
        let mut messages: Vec<OwnedExchange> = Vec::new();
        let mut i: usize = 0;
        while i < n
            invariant
                n == questions@.len(),
                0 <= i <= n,
                messages@.len() == i,
                forall|j: int|
                    0 <= j < i ==> spec_decode_question(
                        (#[trigger] questions@[j]).style as int,
                        questions@[j].text@,
                    ) is Ok,
                forall|j: int|
                    0 <= j < i ==> (#[trigger] messages@[j]).q_view() == spec_decode_question(
                        questions@[j].style as int,
                        questions@[j].text@,
                    )->Ok_0 && messages@[j].a_view() == Err::<AnswerView, ErrorCode>(
                        ErrorCode::ConversationError,
                    ),
            decreases n - i,
        {
            match questions[i].decode() {
                Ok(ex) => {
                    messages.push(ex);
                },
                Err(d) => {
                    proof {
                        assert(!spec_decodable_batch(questions@));
                    }
                    return Err(ErrorCode::ConversationError);
                },
            }
            i = i + 1;
        }
        self.conv.communicate(&mut messages);
        let ghost resp = self.spec_responses(questions@);
        proof {
            assert(crate::answer::spec_answer_views(messages@) =~= resp);
        }
        let ghost dispatched = messages@;
        let r = crate::answer::Answers::build(messages);
        proof {
            if r is Ok {
                assert forall|i: int| 0 <= i < resp.len() implies crate::answer::spec_record_payload(
                    #[trigger] resp[i],
                ) is Ok by {
                    assert(resp[i] == dispatched[i].a_view());
                }
                crate::answer::lemma_build_payloads_all_ok(resp);
                let ps = crate::answer::spec_build_payloads(resp)->Ok_0;
                assert forall|i: int| 0 <= i < questions@.len() implies #[trigger] ps[i]
                    == crate::answer::spec_record_payload(dispatched[i].a_view())->Ok_0 by {
                    assert(resp[i] == dispatched[i].a_view());
                }
            }
        }
        r
    }
}

/// A decodable batch that the conversation answers with representable
/// successes makes the whole callback succeed: the expected array holds one
/// payload per question, in order. Together with the contract of
/// [`OwnedConversation::converse`], this pins the success case — exactly
/// the question count of records, none with an absent payload. A
/// successful answer that cannot be represented (text holding an embedded
/// nul, or binary data over the size cap) is a construction error instead.
pub proof fn lemma_responsive_batch_converses<C: Conversation>(
    conv: OwnedConversation<C>,
    qs: Seq<Question>,
)
    requires
        spec_decodable_batch(qs),
        forall|i: int| 0 <= i < qs.len() ==> (#[trigger] conv.spec_responses(qs)[i]) is Ok,
        forall|i: int|
            0 <= i < qs.len() ==> crate::answer::spec_answer_representable(
                #[trigger] conv.spec_responses(qs)[i],
            ),
    ensures
        crate::answer::spec_build_payloads(conv.spec_responses(qs)) matches Ok(ps) && ps.len()
            == qs.len(),
{
    let views = conv.spec_responses(qs);
    assert forall|j: int| 0 <= j < views.len() implies crate::answer::spec_record_payload(
        #[trigger] views[j],
    ) is Ok by {}
    crate::answer::lemma_build_payloads_all_ok(views);
}

/// Whether every record of a native batch decodes: one malformed record
/// makes the whole batch undispatchable.
pub open spec fn spec_decodable_batch(qs: Seq<Question>) -> bool {
    forall|i: int|
        0 <= i < qs.len() ==> spec_decode_question(
            (#[trigger] qs[i]).style as int,
            qs[i].text@,
        ) is Ok
}

} // verus!
