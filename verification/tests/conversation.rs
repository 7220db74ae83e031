//! The conversation protocol: dispatch through the demultiplexer, answer
//! array construction, and the whole callback path.

use authkit::Answers;
use authkit::BinaryData;
use authkit::Conversation;
use authkit::ConversationAdapter;
use authkit::Demux;
use authkit::ErrorCode;
use authkit::Exchange;
use authkit::OwnedConversation;
use authkit::OwnedExchange;
use authkit::PamConversation;
use authkit::PamOwnedConversation;
use authkit::Question;
use authkit::conversation::encode_question;

fn text_answer(ex: &OwnedExchange) -> Result<Vec<u8>, ErrorCode> {
    match ex {
        OwnedExchange::Prompt(x) => x.a.clone(),
        OwnedExchange::MaskedPrompt(x) => x.a.clone(),
        OwnedExchange::RadioPrompt(x) => x.a.clone(),
        _ => panic!("not a text exchange"),
    }
}

#[test]
fn two_question_batch_yields_credentials_in_order() {
    let demux = Demux::new(PamConversation::new(b"alice".to_vec(), b"secret".to_vec()));
    let mut batch = vec![
        OwnedExchange::new(Exchange::Prompt(b"Username:".to_vec())),
        OwnedExchange::new(Exchange::MaskedPrompt(b"Password:".to_vec())),
    ];
    demux.communicate(&mut batch);
    assert_eq!(text_answer(&batch[0]), Ok(b"alice".to_vec()));
    assert_eq!(text_answer(&batch[1]), Ok(b"secret".to_vec()));
}

#[test]
fn adapter_answer_does_not_depend_on_question_text() {
    let demux = Demux::new(PamConversation::new(b"u1".to_vec(), b"p1".to_vec()));
    for text in [b"login: ".to_vec(), b"Who goes there?".to_vec(), b"".to_vec()] {
        let mut batch = vec![OwnedExchange::new(Exchange::Prompt(text.clone()))];
        demux.communicate(&mut batch);
        assert_eq!(text_answer(&batch[0]), Ok(b"u1".to_vec()));
        let mut batch = vec![OwnedExchange::new(Exchange::MaskedPrompt(text))];
        demux.communicate(&mut batch);
        assert_eq!(text_answer(&batch[0]), Ok(b"p1".to_vec()));
    }
}

#[test]
fn unsupported_radio_style_fails_only_its_own_slot() {
    let demux = Demux::new(PamConversation::new(b"alice".to_vec(), b"secret".to_vec()));
    let mut batch = vec![
        OwnedExchange::new(Exchange::Prompt(b"Username:".to_vec())),
        OwnedExchange::new(Exchange::RadioPrompt(b"Pick one:".to_vec())),
        OwnedExchange::new(Exchange::MaskedPrompt(b"Password:".to_vec())),
    ];
    demux.communicate(&mut batch);
    assert_eq!(text_answer(&batch[0]), Ok(b"alice".to_vec()));
    assert_eq!(text_answer(&batch[1]), Err(ErrorCode::ConversationError));
    assert_eq!(text_answer(&batch[2]), Ok(b"secret".to_vec()));
    // ... and the whole answer array is then refused with that error.
    assert!(matches!(Answers::build(batch), Err(ErrorCode::ConversationError)));
}

#[test]
fn unsupported_binary_style_is_declined() {
    let demux = Demux::new(PamConversation::new(b"alice".to_vec(), b"secret".to_vec()));
    let mut batch = vec![
        OwnedExchange::new(Exchange::BinaryPrompt(BinaryData::new(b"blob".to_vec(), 3))),
    ];
    demux.communicate(&mut batch);
    match &batch[0] {
        OwnedExchange::BinaryPrompt(x) => {
            assert!(matches!(x.a, Err(ErrorCode::ConversationError)))
        },
        _ => panic!("style changed"),
    }
}

#[test]
fn notices_are_acknowledged_and_get_placeholder_payloads() {
    let demux = Demux::new(PamConversation::new(b"alice".to_vec(), b"secret".to_vec()));
    let mut batch = vec![
        OwnedExchange::new(Exchange::Info(b"welcome".to_vec())),
        OwnedExchange::new(Exchange::Error(b"bad luck".to_vec())),
    ];
    demux.communicate(&mut batch);
    let answers = Answers::build(batch).unwrap();
    assert_eq!(answers.records.len(), 2);
    for rec in &answers.records {
        assert_eq!(rec.return_code, 0);
        assert_eq!(rec.data.as_ref().unwrap(), &vec![0u8]);
    }
}

#[test]
fn answer_array_has_one_nul_terminated_record_per_question() {
    let owned = OwnedConversation::new(
        Demux::new(PamConversation::new(b"alice".to_vec(), b"secret".to_vec())),
    );
    for n in 0..6usize {
        let questions: Vec<Question> = (0..n)
            .map(|i| Question { style: (i % 4 + 1) as i32, text: b"q".to_vec() })
            .collect();
        let answers = owned.converse(&questions).unwrap();
        assert_eq!(answers.len(), n);
        for (i, rec) in answers.records.iter().enumerate() {
            let data = rec.data.as_ref().expect("payload must not be null");
            assert_eq!(rec.return_code, 0);
            match i % 4 {
                0 => assert_eq!(data, &b"secret\0".to_vec()),
                1 => assert_eq!(data, &b"alice\0".to_vec()),
                _ => assert_eq!(data, &b"\0".to_vec()),
            }
        }
    }
}

#[test]
fn malformed_style_aborts_the_whole_batch() {
    let owned = OwnedConversation::new(
        Demux::new(PamConversation::new(b"alice".to_vec(), b"secret".to_vec())),
    );
    let questions = vec![
        Question { style: 2, text: b"Username:".to_vec() },
        Question { style: 9, text: b"???".to_vec() },
    ];
    assert!(matches!(owned.converse(&questions), Err(ErrorCode::ConversationError)));
}

#[test]
fn answer_with_embedded_nul_cannot_cross_the_boundary() {
    let demux = Demux::new(PamConversation::new(b"al\0ice".to_vec(), b"secret".to_vec()));
    let mut batch = vec![OwnedExchange::new(Exchange::Prompt(b"Username:".to_vec()))];
    demux.communicate(&mut batch);
    assert!(matches!(Answers::build(batch), Err(ErrorCode::BufferError)));
}

#[test]
fn undispatched_batch_reports_the_sentinel_error() {
    let batch = vec![OwnedExchange::new(Exchange::Prompt(b"Username:".to_vec()))];
    assert!(matches!(Answers::build(batch), Err(ErrorCode::ConversationError)));
}

#[test]
fn fixed_credential_wrapper_answers_like_the_dispatcher() {
    let owned = PamOwnedConversation::new(
        PamConversation::new(b"alice".to_vec(), b"secret".to_vec()),
    );
    let questions = vec![
        Question { style: 2, text: b"Username:".to_vec() },
        Question { style: 1, text: b"Password:".to_vec() },
    ];
    let answers = owned.converse(&questions).unwrap();
    assert_eq!(answers.records.len(), 2);
    assert_eq!(answers.records[0].data.as_ref().unwrap(), &b"alice\0".to_vec());
    assert_eq!(answers.records[1].data.as_ref().unwrap(), &b"secret\0".to_vec());
}

#[test]
fn direct_communicate_leaves_optional_styles_untouched() {
    let conv = PamConversation::new(b"alice".to_vec(), b"secret".to_vec());
    let mut batch = vec![
        OwnedExchange::new(Exchange::Prompt(b"Username:".to_vec())),
        OwnedExchange::new(Exchange::RadioPrompt(b"Pick:".to_vec())),
    ];
    conv.communicate(&mut batch);
    assert_eq!(text_answer(&batch[0]), Ok(b"alice".to_vec()));
    assert_eq!(text_answer(&batch[1]), Err(ErrorCode::ConversationError));
}

#[test]
fn a_batch_conversation_can_be_asked_one_question_at_a_time() {
    let demux = Demux::new(PamConversation::new(b"alice".to_vec(), b"secret".to_vec()));
    assert_eq!(demux.prompt(&b"Username:".to_vec()), Ok(b"alice".to_vec()));
    assert_eq!(demux.masked_prompt(&b"Password:".to_vec()), Ok(b"secret".to_vec()));
    assert_eq!(
        demux.radio_prompt(&b"Pick:".to_vec()),
        Err(ErrorCode::ConversationError)
    );
    demux.info_msg(&b"hello".to_vec());
    demux.error_msg(&b"oops".to_vec());
    assert!(demux.binary_prompt(&BinaryData::new(b"blob".to_vec(), 9)).is_err());
}

#[test]
fn question_styles_encode_and_decode() {
    let q = encode_question(&Exchange::MaskedPrompt(b"Password:".to_vec())).unwrap();
    assert_eq!(q.style, 1);
    assert_eq!(q.text, b"Password:".to_vec());
    assert!(matches!(q.decode(), Ok(OwnedExchange::MaskedPrompt(_))));
    assert_eq!(encode_question(&Exchange::Prompt(b"x".to_vec())).unwrap().style, 2);
    assert_eq!(encode_question(&Exchange::Error(b"x".to_vec())).unwrap().style, 3);
    assert_eq!(encode_question(&Exchange::Info(b"x".to_vec())).unwrap().style, 4);
    assert!(matches!(
        encode_question(&Exchange::RadioPrompt(b"x".to_vec())),
        Err(ErrorCode::ConversationError)
    ));
    assert!(matches!(
        encode_question(&Exchange::BinaryPrompt(BinaryData::new(b"x".to_vec(), 1))),
        Err(ErrorCode::ConversationError)
    ));
    let bad = Question { style: 7, text: b"blob".to_vec() };
    assert!(matches!(bad.decode(), Err(ErrorCode::ConversationError)));
}

#[test]
fn wiping_answers_erases_the_plaintext() {
    let demux = Demux::new(PamConversation::new(b"alice".to_vec(), b"secret".to_vec()));
    let mut batch = vec![OwnedExchange::new(Exchange::MaskedPrompt(b"Password:".to_vec()))];
    demux.communicate(&mut batch);
    let mut answers = Answers::build(batch).unwrap();
    assert_eq!(answers.records[0].data.as_ref().unwrap(), &b"secret\0".to_vec());
    answers.wipe();
    let data = answers.records[0].data.as_ref().unwrap();
    assert_eq!(data, &vec![0u8; 7]);
}
