//! A client's handle on the OpenAI sidecar.

use crate::address::Address;
use crate::llm::keyed::ChatResponse;
use crate::llm::openai::Message;
use vstd::prelude::*;

verus! {

/// The key to use and the sidecar to ask.
#[derive(Debug, PartialEq, Eq)]
pub struct OpenaiApi {
    openai_key: String,
    openai_worker: Address,
}

/// What came back from the sidecar, as far as the client reads it.
#[derive(Debug, PartialEq)]
pub enum Answer {
    /// The request could not be sent, or no answer came in time.
    Lost,
    /// The answer could not be decoded.
    Garbled,
    /// A chat response.
    Chat(ChatResponse),
    /// Some other response.
    Other,
}

/// Why a chat with the sidecar gave no message.
#[derive(Debug, Clone, Copy, PartialEq, Eq)]
pub enum ApiError {
    /// The request could not be sent, or no answer came in time.
    SendFailed,
    /// The answer could not be decoded.
    ParseFailed,
    /// The answer was not a chat response.
    WrongResultType,
    /// The chat response holds no completion.
    NoChoice,
}

impl OpenaiApi {
    /// A handle on the sidecar at `openai_worker` that uses `openai_key`.
    pub fn new(openai_key: String, openai_worker: Address) -> (res: Self)
        ensures
            res.key() == openai_key@,
            res.worker() == openai_worker@,
    {
        OpenaiApi { openai_key, openai_worker }
    }

    /// The key that requests carry.
    pub closed spec fn key(&self) -> Seq<char> {
        self.openai_key@
    }

    /// The sidecar that requests go to.
    pub closed spec fn worker(&self) -> crate::address::AddressView {
        self.openai_worker@
    }

    /// The key that requests carry.
    pub fn openai_key(&self) -> (res: &String)
        ensures
            res@ == self.key(),
    {
        &self.openai_key
    }

    /// The sidecar that requests go to.
    pub fn openai_worker(&self) -> (res: &Address)
        ensures
            res@ == self.worker(),
    {
        &self.openai_worker
    }

    /// Reads the sidecar's answer to a chat: the message of the first
    /// completion, or why there is none.
    pub fn read_answer(&self, answer: &Answer) -> (res: Result<Message, ApiError>)
        ensures
            res == match *answer {
                Answer::Lost => Err::<Message, ApiError>(ApiError::SendFailed),
                Answer::Garbled => Err(ApiError::ParseFailed),
                Answer::Other => Err(ApiError::WrongResultType),
                Answer::Chat(chat) => if chat.choices.len() > 0 {
                    Ok(chat.choices[0].message)
                } else {
                    Err(ApiError::NoChoice)
                },
            },
    {
        match answer {
            Answer::Lost => Err(ApiError::SendFailed),
            Answer::Garbled => Err(ApiError::ParseFailed),
            Answer::Other => Err(ApiError::WrongResultType),
            Answer::Chat(chat) => {
                if chat.choices.len() > 0 {
                    Ok(chat.to_message_response())
                } else {
                    Err(ApiError::NoChoice)
                }
            },
        }
    }
}

} // verus!
