//! A safety layer around a callback-driven authentication-transaction API.
//!
//! The crate models the question/answer bridge of a pluggable-authentication
//! stack: the conversation protocol, the answer-array construction with its
//! wire formats, the flag and result-code translation, and the transaction
//! state (environment, fixed-slot items, cached last result, idempotent
//! teardown). Everything here works on plain values; the process-level
//! launcher and the raw foreign-function edges live outside the library.

pub mod answer;
pub mod constants;
pub mod conversation;
pub mod environ;
pub mod handle;
pub mod helper;
pub mod items;
pub mod launcher;
pub mod pam;

pub use answer::AnswerRecord;
pub use answer::Answers;
pub use constants::AuthnFlags;
pub use constants::AuthtokAction;
pub use constants::AuthtokFlags;
pub use constants::BaseFlags;
pub use constants::CredAction;
pub use constants::ErrorCode;
pub use conversation::BinaryData;
pub use conversation::Conversation;
pub use conversation::ConversationAdapter;
pub use conversation::Demux;
pub use conversation::Exchange;
pub use conversation::OwnedConversation;
pub use conversation::OwnedExchange;
pub use conversation::Question;
pub use environ::PamEnv;
pub use handle::Pam;
pub use handle::PamBuilder;
pub use items::ItemType;
pub use items::PamItems;
pub use pam::PamConversation;
pub use pam::PamOwnedConversation;
