//! How a chat-completion exchange is judged: what the reply holds, which
//! error a failed exchange gives, and the assistant message of a good one.
//! Sending the request and reading the reply are the application's.

use vstd::prelude::*;

verus! {

/// A message of a chat: who speaks (`user`, `assistant`, ...) and what.
#[derive(Debug, Clone, PartialEq)]
pub struct GptMessage {
    pub role: String,
    pub content: String,
}

/// Why a chat-completion exchange gave no content.
#[derive(Debug, Clone, PartialEq)]
pub enum GptError {
    /// The request could not be sent; the transport's message.
    Transport(String),
    /// The server answered with a failure status; the status as printed.
    Status(String),
    /// The reply body is not JSON; the parser's message.
    InvalidJson(String),
    /// The user cancelled the request while it ran.
    Cancelled,
    /// The reply has no `choices` array.
    MissingChoices,
    /// The reply's first choice is missing or has no `message`.
    MissingMessage,
}

/// Why asking for an assistant message failed.
#[derive(Debug, Clone, PartialEq)]
pub enum RequestError {
    /// The user cancelled the request.
    Cancelled,
    /// The exchange failed.
    Other(GptError),
}

/// The `content` member of a reply's message: `None` when it is absent or
/// not a string.
#[derive(Debug, Clone, PartialEq)]
pub struct ChatMessageBody {
    pub content: Option<String>,
}

/// A choice of a reply: its `message` member, `None` when absent.
#[derive(Debug, Clone, PartialEq)]
pub struct ChatChoice {
    pub message: Option<ChatMessageBody>,
}

/// What is read of a chat-completion reply: its `choices` array, `None`
/// when absent or not an array.
#[derive(Debug, Clone, PartialEq)]
pub struct ChatReply {
    pub choices: Option<Vec<ChatChoice>>,
}

/// What an exchange with the chat-completion service gave.
#[derive(Debug, PartialEq)]
pub enum GptExchange {
    /// Sending failed, with the transport's message.
    SendFailed(String),
    /// The server answered with a failure status, printed.
    Refused(String),
    /// The server answered with success; the reply body as parsed (or the
    /// parser's message), and whether the user had cancelled by then.
    Answered(Result<ChatReply, String>, bool),
}

/// The content of a reply: the first choice's message content, empty when
/// the message has no string content.
pub open spec fn reply_content(reply: ChatReply) -> Result<Seq<char>, GptError> {
    match reply.choices {
        None => Err(GptError::MissingChoices),
        Some(choices) => if choices@.len() == 0 {
            Err(GptError::MissingMessage)
        } else {
            match choices@[0].message {
                None => Err(GptError::MissingMessage),
                Some(body) => match body.content {
                    Some(c) => Ok(c@),
                    None => Ok(Seq::empty()),
                },
            }
        },
    }
}

/// What an exchange gives: its failure, or the content of its reply.
pub open spec fn exchange_outcome(exchange: GptExchange) -> Result<Seq<char>, GptError> {
    match exchange {
        GptExchange::SendFailed(e) => Err(GptError::Transport(e)),
        GptExchange::Refused(status) => Err(GptError::Status(status)),
        GptExchange::Answered(body, cancelled) => match body {
            Err(e) => Err(GptError::InvalidJson(e)),
            Ok(reply) => if cancelled {
                Err(GptError::Cancelled)
            } else {
                reply_content(reply)
            },
        },
    }
}

/// An answered, uncancelled exchange gives back the first choice's message
/// content whole and unchanged, of any length, and the empty text when that
/// message has no string content; the other choices play no part.
pub proof fn lemma_exchange_gives_first_content(reply: ChatReply)
    requires
        reply.choices matches Some(choices) && choices@.len() > 0 && choices@[0].message is Some,
    ensures
        ({
            let body = reply.choices->0@[0].message->0;
            let outcome = exchange_outcome(GptExchange::Answered(Ok(reply), false));
            &&& body.content matches Some(c) ==> outcome == Ok::<Seq<char>, GptError>(c@)
            &&& body.content is None ==> outcome == Ok::<Seq<char>, GptError>(Seq::empty())
        }),
{
}

/// An answered exchange fails only for a reply without choices or without a
/// first message, or for a cancellation; a failed send, a failure status and
/// a body that is not JSON give their own errors, carrying their text.
pub proof fn lemma_exchange_errors(exchange: GptExchange)
    ensures
        exchange matches GptExchange::SendFailed(e) ==> exchange_outcome(exchange)
            == Err::<Seq<char>, GptError>(GptError::Transport(e)),
        exchange matches GptExchange::Refused(s) ==> exchange_outcome(exchange)
            == Err::<Seq<char>, GptError>(GptError::Status(s)),
        exchange matches GptExchange::Answered(Err(e), _) ==> exchange_outcome(exchange)
            == Err::<Seq<char>, GptError>(GptError::InvalidJson(e)),
        exchange matches GptExchange::Answered(Ok(_), true) ==> exchange_outcome(exchange)
            == Err::<Seq<char>, GptError>(GptError::Cancelled),
        exchange matches GptExchange::Answered(Ok(r), false) ==> (r.choices is None
            <==> exchange_outcome(exchange) == Err::<Seq<char>, GptError>(GptError::MissingChoices)),
{
}

/// Judges an exchange with the chat-completion service: a failed send, a
/// failure status, a body that is not JSON, a cancellation and a reply
/// without choices or message each give their error; otherwise the content
/// of the first choice's message.
pub fn gpt_exchange_outcome(exchange: GptExchange) -> (outcome: Result<String, GptError>)
    ensures
        match (outcome, exchange_outcome(exchange)) {
            (Ok(c), Ok(s)) => c@ == s,
            (Err(e), Err(f)) => e == f,
            _ => false,
        },
{
    match exchange {
        GptExchange::SendFailed(e) => Err(GptError::Transport(e)),
        GptExchange::Refused(status) => Err(GptError::Status(status)),
        GptExchange::Answered(body, cancelled) => match body {
            Err(e) => Err(GptError::InvalidJson(e)),
            Ok(reply) => {
                if cancelled {
                    Err(GptError::Cancelled)
                } else {
                    match reply.choices {
                        None => Err(GptError::MissingChoices),
                        Some(mut choices) => {
                            if choices.len() == 0 {
                                Err(GptError::MissingMessage)
                            } else {
                                let first = choices.remove(0);
                                match first.message {
                                    None => Err(GptError::MissingMessage),
                                    Some(body) => match body.content {
                                        Some(c) => Ok(c),
                                        None => Ok(String::new()),
                                    },
                                }
                            }
                        },
                    }
                }
            },
        },
    }
}

/// The assistant message of a request: a cancellation seen after the
/// exchange wins over its outcome; a failed exchange gives its error; else
/// the content comes back as the assistant's message.
pub fn gpt_request_outcome(cancelled: bool, response: Result<String, GptError>) -> (message:
    Result<GptMessage, RequestError>)
    ensures
        cancelled ==> message == Err::<GptMessage, RequestError>(RequestError::Cancelled),
        !cancelled ==> match response {
            Ok(c) => message matches Ok(m) && m.role@ == "assistant"@ && m.content@ == c@,
            Err(e) => message == Err::<GptMessage, RequestError>(RequestError::Other(e)),
        },
{
    if cancelled {
        return Err(RequestError::Cancelled);
    }
    match response {
        Ok(content) => Ok(GptMessage { role: "assistant".to_owned(), content }),
        Err(e) => Err(RequestError::Other(e)),
    }
}

impl GptError {
    /// The text of the error, as the service client prints it.
    pub fn message(&self) -> (text: String)
        ensures
            text@ == match *self {
                GptError::Transport(e) => e@,
                GptError::Status(s) => "GptError: Request failed with status: "@ + s@,
                GptError::InvalidJson(e) => e@,
                GptError::Cancelled => "GptError: Request cancelled by user..."@,
                GptError::MissingChoices => "GptError: Response doesn't contain 'choices' field"@,
                GptError::MissingMessage => "GptError: Response doesn't contain 'message' field"@,
            },
    {
        match self {
            GptError::Transport(e) => e.clone(),
            GptError::Status(s) => {
                let mut text = "GptError: Request failed with status: ".to_owned();
                text.append(s.as_str());
                text
            },
            GptError::InvalidJson(e) => e.clone(),
            GptError::Cancelled => "GptError: Request cancelled by user...".to_owned(),
            GptError::MissingChoices => "GptError: Response doesn't contain 'choices' field".to_owned(),
            GptError::MissingMessage => "GptError: Response doesn't contain 'message' field".to_owned(),
        }
    }
}

} // verus!
