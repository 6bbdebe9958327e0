use life_tracker::gpt::{gpt_exchange_outcome, gpt_request_outcome, ChatChoice, ChatMessageBody,
    ChatReply, GptError, GptExchange, GptMessage, RequestError};
use life_tracker::routes::gpt_api::RequestParams;

fn reply(content: Option<&str>) -> ChatReply {
    ChatReply {
        choices: Some(vec![ChatChoice {
            message: Some(ChatMessageBody { content: content.map(|c| c.to_string()) }),
        }]),
    }
}

#[test]
fn exchange_gives_first_message_content() {
    let out = gpt_exchange_outcome(GptExchange::Answered(Ok(reply(Some("Hi there"))), false));
    assert_eq!(out, Ok("Hi there".to_string()));
}

#[test]
fn exchange_without_string_content_gives_empty() {
    let out = gpt_exchange_outcome(GptExchange::Answered(Ok(reply(None)), false));
    assert_eq!(out, Ok(String::new()));
}

#[test]
fn exchange_errors() {
    assert_eq!(gpt_exchange_outcome(GptExchange::SendFailed("dns".into())),
        Err(GptError::Transport("dns".into())));
    assert_eq!(gpt_exchange_outcome(GptExchange::Refused("404 Not Found".into())),
        Err(GptError::Status("404 Not Found".into())));
    assert_eq!(gpt_exchange_outcome(GptExchange::Answered(Err("eof".into()), false)),
        Err(GptError::InvalidJson("eof".into())));
    assert_eq!(gpt_exchange_outcome(GptExchange::Answered(Ok(reply(Some("x"))), true)),
        Err(GptError::Cancelled));
    assert_eq!(gpt_exchange_outcome(GptExchange::Answered(Ok(ChatReply { choices: None }), false)),
        Err(GptError::MissingChoices));
    assert_eq!(gpt_exchange_outcome(GptExchange::Answered(Ok(ChatReply { choices: Some(vec![]) }), false)),
        Err(GptError::MissingMessage));
    let no_message = ChatReply { choices: Some(vec![ChatChoice { message: None }]) };
    assert_eq!(gpt_exchange_outcome(GptExchange::Answered(Ok(no_message), false)),
        Err(GptError::MissingMessage));
}

#[test]
fn request_outcome_makes_assistant_message() {
    assert_eq!(gpt_request_outcome(false, Ok("Hello".into())),
        Ok(GptMessage { role: "assistant".into(), content: "Hello".into() }));
    assert_eq!(gpt_request_outcome(true, Ok("Hello".into())), Err(RequestError::Cancelled));
    assert_eq!(gpt_request_outcome(false, Err(GptError::MissingChoices)),
        Err(RequestError::Other(GptError::MissingChoices)));
    assert_eq!(gpt_request_outcome(true, Err(GptError::MissingChoices)), Err(RequestError::Cancelled));
}

#[test]
fn error_messages() {
    assert_eq!(GptError::MissingChoices.message(), "GptError: Response doesn't contain 'choices' field");
    assert_eq!(GptError::MissingMessage.message(), "GptError: Response doesn't contain 'message' field");
    assert_eq!(GptError::Cancelled.message(), "GptError: Request cancelled by user...");
    assert_eq!(GptError::Status("500 Internal Server Error".into()).message(),
        "GptError: Request failed with status: 500 Internal Server Error");
    assert_eq!(GptError::Transport("timeout".into()).message(), "timeout");
}

#[test]
fn request_params_hold_messages() {
    let p = RequestParams { messages: vec![GptMessage { role: "user".into(), content: "Hello, GPT!".into() }] };
    assert_eq!(p.messages.len(), 1);
    assert_eq!(p.messages[0].role, "user");
}
