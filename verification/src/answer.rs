//! Construction of the native-layout answer array: one record per exchange,
//! in batch order, each holding a freshly built payload, with secure erasure
//! of the payload bytes before a buffer is given up on this side.

use vstd::prelude::*;

use crate::constants::ErrorCode;
use crate::conversation::AnswerView;
use crate::conversation::OwnedExchange;
use crate::helper::contains_nul;
use crate::helper::spec_binary_payload;
use crate::helper::spec_has_nul;
use crate::helper::spec_max_binary_size;
use crate::helper::zero_bytes;
use crate::helper::OwnedBinaryPayload;

verus! {

/// One answer record in the native layout: an optional payload buffer
/// (absent stands for the null pointer) and a status code.
#[derive(Debug)]
pub struct AnswerRecord {
    pub data: Option<Vec<u8>>,
    pub return_code: i32,
}

/// The abstract payload of one record.
pub open spec fn spec_record_data(rec: AnswerRecord) -> Option<Seq<u8>> {
    match rec.data {
        Some(v) => Some(v@),
        None => None,
    }
}

/// The payload bytes one answered exchange contributes, or the error that
/// aborts the whole array: a missing or failed answer propagates its error;
/// text answers become a nul-terminated copy (text with an embedded nul
/// cannot be represented and is a construction error); notices contribute an
/// empty string placeholder; binary answers become a length-prefixed buffer,
/// refused when oversized.
pub open spec fn spec_record_payload(a: Result<AnswerView, ErrorCode>) -> Result<
    Seq<u8>,
    ErrorCode,
> {
    match a {
        Err(e) => Err(e),
        Ok(AnswerView::Text(t)) => if spec_has_nul(t) {
            Err(ErrorCode::BufferError)
        } else {
            Ok(t + seq![0u8])
        },
        Ok(AnswerView::Unit) => Ok(seq![0u8]),
        Ok(AnswerView::Binary(d, tag)) => if d.len() > spec_max_binary_size() {
            Err(ErrorCode::BufferError)
        } else {
            Ok(spec_binary_payload(d, tag))
        },
    }
}

/// The answer slots of a batch, in order.
pub open spec fn spec_answer_views(s: Seq<OwnedExchange>) -> Seq<Result<AnswerView, ErrorCode>> {
    Seq::new(s.len(), |i: int| s[i].a_view())
}

/// The payloads of a whole batch, or the first error met in batch order:
/// one failure aborts the whole array.
pub open spec fn spec_build_payloads(s: Seq<Result<AnswerView, ErrorCode>>) -> Result<
    Seq<Seq<u8>>,
    ErrorCode,
>
    decreases s.len(),
{
    if s.len() == 0 {
        Ok(Seq::empty())
    } else {
        match spec_record_payload(s[0]) {
            Err(e) => Err(e),
            Ok(p) => match spec_build_payloads(s.drop_first()) {
                Err(e) => Err(e),
                Ok(rest) => Ok(seq![p] + rest),
            },
        }
    }
}

/// When every record of a batch builds, the whole array builds: one payload
/// per record, in order.
pub proof fn lemma_build_payloads_all_ok(s: Seq<Result<AnswerView, ErrorCode>>)
    requires
        forall|j: int| 0 <= j < s.len() ==> spec_record_payload(#[trigger] s[j]) is Ok,
    ensures
        spec_build_payloads(s) matches Ok(ps) && ps.len() == s.len() && forall|i: int|
            0 <= i < s.len() ==> ps[i] == spec_record_payload(#[trigger] s[i])->Ok_0,
    decreases s.len(),
{
    if s.len() > 0 {
        assert forall|j: int| 0 <= j < s.drop_first().len() implies spec_record_payload(
            #[trigger] s.drop_first()[j],
        ) is Ok by {
            assert(s.drop_first()[j] == s[j + 1]);
        }
        lemma_build_payloads_all_ok(s.drop_first());
        let p = spec_record_payload(s[0])->Ok_0;
        let rest = spec_build_payloads(s.drop_first())->Ok_0;
        let ps = seq![p] + rest;
        assert(spec_build_payloads(s) == Ok::<Seq<Seq<u8>>, ErrorCode>(ps));
        assert forall|i: int| 0 <= i < s.len() implies ps[i] == spec_record_payload(
            #[trigger] s[i],
        )->Ok_0 by {
            if i > 0 {
                assert(ps[i] == rest[i - 1]);
                assert(s.drop_first()[i - 1] == s[i]);
            }
        }
    }
}

/// When every record before index `k` builds and the record at `k` fails,
/// the whole array fails with exactly that record's error.
pub proof fn lemma_build_payloads_first_err(s: Seq<Result<AnswerView, ErrorCode>>, k: int)
    requires
        0 <= k < s.len(),
        forall|j: int| 0 <= j < k ==> spec_record_payload(#[trigger] s[j]) is Ok,
        spec_record_payload(s[k]) is Err,
    ensures
        spec_build_payloads(s) == Err::<Seq<Seq<u8>>, ErrorCode>(
            spec_record_payload(s[k])->Err_0,
        ),
    decreases s.len(),
{
    if k > 0 {
        lemma_build_payloads_first_err(s.drop_first(), k - 1);
    }
}

/// Whether a successful answer can cross the native boundary: text must be
/// free of embedded nuls to become a nul-terminated string, and binary data
/// must fit the wire format's four length bytes; acknowledgements and
/// failures carry nothing that could be refused.
pub open spec fn spec_answer_representable(a: Result<AnswerView, ErrorCode>) -> bool {
    match a {
        Ok(AnswerView::Text(t)) => !spec_has_nul(t),
        Ok(AnswerView::Binary(d, tag)) => d.len() <= spec_max_binary_size(),
        Ok(AnswerView::Unit) => true,
        Err(e) => true,
    }
}

/// A batch in which every answer slot holds a representable success builds
/// into a whole array: one payload per exchange, in batch order, none
/// absent. A successful answer that cannot be represented — text holding an
/// embedded nul, or binary data over the size cap — is a construction
/// error instead, never a truncated record.
pub proof fn lemma_answered_batch_builds(s: Seq<OwnedExchange>)
    requires
        forall|i: int| 0 <= i < s.len() ==> (#[trigger] s[i]).a_view() is Ok,
        forall|i: int|
            0 <= i < s.len() ==> spec_answer_representable((#[trigger] s[i]).a_view()),
    ensures
        spec_build_payloads(spec_answer_views(s)) matches Ok(ps) && ps.len() == s.len(),
{
    let views = spec_answer_views(s);
    assert forall|j: int| 0 <= j < views.len() implies spec_record_payload(
        #[trigger] views[j],
    ) is Ok by {
        assert(views[j] == s[j].a_view());
    }
    lemma_build_payloads_all_ok(views);
}

/// The answer array handed back to the native caller: sized exactly to the
/// question count, one record per exchange in batch order.
#[derive(Debug)]
pub struct Answers {
    pub records: Vec<AnswerRecord>,
}

impl Answers {
    /// How many records the array holds.
    pub fn len(&self) -> (n: usize)
        ensures
            n == self.records@.len(),
    {
        self.records.len()
    }

    /// Builds the whole answer array from a dispatched batch: on success one
    /// record per exchange, in order, each with the exchange's payload and a
    /// zero status; any failure aborts the whole array with the first error
    /// met, and no partially built array is handed out.
    pub fn build(value: Vec<OwnedExchange>) -> (r: Result<Answers, ErrorCode>)
        ensures
            r is Ok <==> spec_build_payloads(spec_answer_views(value@)) is Ok,
            r matches Err(e) ==> spec_build_payloads(spec_answer_views(value@)) == Err::<
                Seq<Seq<u8>>,
                ErrorCode,
            >(e),
            r is Ok ==> forall|i: int|
                0 <= i < value@.len() ==> spec_record_payload(
                    (#[trigger] value@[i]).a_view(),
                ) is Ok,
            r matches Ok(ans) ==> ans.records@.len() == value@.len() && forall|i: int|
                0 <= i < value@.len() ==> (#[trigger] ans.records@[i]).return_code == 0
                    && spec_record_data(ans.records@[i]) == Some(
                    spec_record_payload(value@[i].a_view())->Ok_0,
                ),
    {
        let ghost views = spec_answer_views(value@);
        let n: usize = value.len();
        let mut records: Vec<AnswerRecord> = Vec::new();
        let mut idx: usize = 0;
        while idx < n
            invariant
                n == value@.len(),
                views == spec_answer_views(value@),
                0 <= idx <= n,
                records@.len() == idx,
                forall|j: int|
                    0 <= j < idx ==> spec_record_payload(#[trigger] views[j]) is Ok,
                forall|j: int|
                    0 <= j < idx ==> (#[trigger] records@[j]).return_code == 0
                        && spec_record_data(records@[j]) == Some(
                        spec_record_payload(views[j])->Ok_0,
                    ),
            decreases n - idx,
        {
            proof {
                assert(views[idx as int] == value@[idx as int].a_view());
            }
            let payload: Vec<u8> = match &value[idx] {
                OwnedExchange::MaskedPrompt(x) => match &x.a {
                    Ok(t) => match Self::text_payload(t) {
                        Ok(p) => p,
                        Err(e) => {
                            proof {
                                lemma_build_payloads_first_err(views, idx as int);
                            }
                            return Err(e);
                        },
                    },
                    Err(e) => {
                        proof {
                            lemma_build_payloads_first_err(views, idx as int);
                        }
                        return Err(*e);
                    },
                },
                OwnedExchange::Prompt(x) => match &x.a {
                    Ok(t) => match Self::text_payload(t) {
                        Ok(p) => p,
                        Err(e) => {
                            proof {
                                lemma_build_payloads_first_err(views, idx as int);
                            }
                            return Err(e);
                        },
                    },
                    Err(e) => {
                        proof {
                            lemma_build_payloads_first_err(views, idx as int);
                        }
                        return Err(*e);
                    },
                },
                OwnedExchange::RadioPrompt(x) => match &x.a {
                    Ok(t) => match Self::text_payload(t) {
                        Ok(p) => p,
                        Err(e) => {
                            proof {
                                lemma_build_payloads_first_err(views, idx as int);
                            }
                            return Err(e);
                        },
                    },
                    Err(e) => {
                        proof {
                            lemma_build_payloads_first_err(views, idx as int);
                        }
                        return Err(*e);
                    },
                },
                OwnedExchange::Info(x) => match &x.a {
                    Ok(_) => Self::empty_payload(),
                    Err(e) => {
                        proof {
                            lemma_build_payloads_first_err(views, idx as int);
                        }
                        return Err(*e);
                    },
                },
                OwnedExchange::Error(x) => match &x.a {
                    Ok(_) => Self::empty_payload(),
                    Err(e) => {
                        proof {
                            lemma_build_payloads_first_err(views, idx as int);
                        }
                        return Err(*e);
                    },
                },
                OwnedExchange::BinaryPrompt(x) => match &x.a {
                    Ok(b) => match OwnedBinaryPayload::new(b.data.as_slice(), b.data_type) {
                        Ok(p) => p.into_inner(),
                        Err(_) => {
                            proof {
                                lemma_build_payloads_first_err(views, idx as int);
                            }
                            return Err(ErrorCode::BufferError);
                        },
                    },
                    Err(e) => {
                        proof {
                            lemma_build_payloads_first_err(views, idx as int);
                        }
                        return Err(*e);
                    },
                },
            };
            records.push(AnswerRecord { data: Some(payload), return_code: 0 });
            idx = idx + 1;
        }
        proof {
            assert forall|i: int| 0 <= i < value@.len() implies spec_record_payload(
                (#[trigger] value@[i]).a_view(),
            ) is Ok by {
                assert(views[i] == value@[i].a_view());
            }
            lemma_build_payloads_all_ok(views);
        }
        Ok(Answers { records })
    }

    /// A nul-terminated copy of one answer text; text holding an embedded
    /// nul cannot be represented and aborts the array.
    fn text_payload(t: &Vec<u8>) -> (r: Result<Vec<u8>, ErrorCode>)
        ensures
            r is Ok <==> !spec_has_nul(t@),
            r matches Ok(p) ==> p@ == t@ + seq![0u8],
            r matches Err(e) ==> e == ErrorCode::BufferError,
    {
        if contains_nul(t.as_slice()) {
            return Err(ErrorCode::BufferError);
        }
        let mut p = t.clone();
        p.push(0);
        Ok(p)
    }

    /// The empty-string placeholder payload a notice contributes.
    fn empty_payload() -> (r: Vec<u8>)
        ensures
            r@ == seq![0u8],
    {
        let mut p: Vec<u8> = Vec::new();
        p.push(0);
        p
    }

    /// Overwrites every payload byte of every record with zero, so that the
    /// plaintext of masked answers cannot outlive the array: lengths, record
    /// order and status codes stay as they were.
    pub fn wipe(&mut self)
        ensures
            final(self).records@.len() == old(self).records@.len(),
            forall|i: int|
                0 <= i < old(self).records@.len() ==> {
                    &&& (#[trigger] final(self).records@[i]).return_code == old(
                        self,
                    ).records@[i].return_code
                    &&& (final(self).records@[i].data is Some <==> old(
                        self,
                    ).records@[i].data is Some)
                    &&& (spec_record_data(final(self).records@[i]) matches Some(v) ==> {
                        &&& v.len() == spec_record_data(old(self).records@[i])->0.len()
                        &&& forall|k: int| 0 <= k < v.len() ==> v[k] == 0
                    })
                },
    {
        let n: usize = self.records.len();
        let mut i: usize = 0;
        while i < n
            invariant
                n == self.records@.len(),
                n == old(self).records@.len(),
                0 <= i <= n,
                forall|j: int| i <= j < n ==> self.records@[j] == old(self).records@[j],
                forall|j: int|
                    0 <= j < i ==> {
                        &&& (#[trigger] self.records@[j]).return_code == old(
                            self,
                        ).records@[j].return_code
                        &&& (self.records@[j].data is Some <==> old(
                            self,
                        ).records@[j].data is Some)
                        &&& (spec_record_data(self.records@[j]) matches Some(v) ==> {
                            &&& v.len() == spec_record_data(old(self).records@[j])->0.len()
                            &&& forall|k: int| 0 <= k < v.len() ==> v[k] == 0
                        })
                    },
            decreases n - i,
        {
            let rec = &mut self.records[i];
            match &mut rec.data {
                Some(v) => {
                    zero_bytes(v);
                },
                None => {},
            }
            i = i + 1;
        }
    }
}

} // verus!
