use vstd::prelude::*;

use crate::api::chat_gpt_35_turbo::{self, full_messages, views, ChatGpt35Turbo, Request};
use crate::api::chat_gpt_text_davinci_003::{self, full_prompt, ChatGptTextDavinci003};
use crate::database::Conversation;
use crate::error::Error;
use crate::text::eq_str;

verus! {

/// The upstream variants, selected once by the configured model name.
#[derive(Debug, Clone, Copy, PartialEq, Eq, Structural)]
pub enum ChatApi {
    TextDavinci003,
    Gpt35Turbo,
}

/// What is sent upstream: a list of messages, or one prompt.
pub enum UpstreamRequest {
    Chat(Request),
    Completion(String),
}

/// The variant a model name selects, by exact match.
pub open spec fn model_of(name: Seq<char>) -> Option<ChatApi> {
    if name == chat_gpt_text_davinci_003::MODEL@ {
        Some(ChatApi::TextDavinci003)
    } else if name == chat_gpt_35_turbo::MODEL@ {
        Some(ChatApi::Gpt35Turbo)
    } else {
        None
    }
}

impl ChatApi {
    /// The variant for a configured model name; any other name is rejected.
    pub fn from_model(name: &String) -> (r: Result<ChatApi, Error>)
        ensures
            match model_of(name@) {
                Some(api) => r == Ok::<ChatApi, Error>(api),
                None => r == Err::<ChatApi, Error>(Error::UnsupportedModel),
            },
    {
        if eq_str(name, chat_gpt_text_davinci_003::MODEL) {
            Ok(ChatApi::TextDavinci003)
        } else if eq_str(name, chat_gpt_35_turbo::MODEL) {
            Ok(ChatApi::Gpt35Turbo)
        } else {
            Err(Error::UnsupportedModel)
        }
    }

    /// The request this variant sends for the earlier turns and the new text.
    pub fn build(&self, context: &Vec<Conversation>, message_from_user: &str) -> (r:
        UpstreamRequest)
        ensures
            match *self {
                ChatApi::Gpt35Turbo => r is Chat && r->Chat_0.model@ == chat_gpt_35_turbo::MODEL@
                    && views(r->Chat_0.messages@) == full_messages(context@, message_from_user@),
                ChatApi::TextDavinci003 => r is Completion && r->Completion_0@ == full_prompt(
                    context@,
                    message_from_user@,
                ),
            },
    {
        match self {
            ChatApi::Gpt35Turbo => UpstreamRequest::Chat(
                ChatGpt35Turbo.build_request(context, message_from_user),
            ),
            ChatApi::TextDavinci003 => UpstreamRequest::Completion(
                ChatGptTextDavinci003.build_prompt(context, message_from_user),
            ),
        }
    }
}

} // verus!
