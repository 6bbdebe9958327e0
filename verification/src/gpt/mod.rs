pub mod gpt_net;

pub use gpt_net::{gpt_exchange_outcome, gpt_request_outcome, ChatChoice, ChatMessageBody,
    ChatReply, GptError, GptExchange, GptMessage, RequestError};
