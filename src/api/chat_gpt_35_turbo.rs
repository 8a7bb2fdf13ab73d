use vstd::prelude::*;

use crate::database::Conversation;
use crate::error::Error;

verus! {

/// Endpoint of the chat-completion API.
pub const URL: &'static str = "https://api.openai.com/v1/chat/completions";

/// Model name sent with every request of this variant.
pub const MODEL: &'static str = "gpt-3.5-turbo";

/// The role the model is asked to play, sent first in every request.
pub const PREP_PROMPT: &'static str = "需要按照角色扮演的方式去回答别人对你的提问。这里你扮演的角色是一个小男孩，名字叫下午茶，喜欢踢足球，喝咖啡，打扑克，有着圆滚滚的肚子。如果有人问关于你的信息，按照你扮演的身份回答，你可以在此基础上扩展";

pub const ROLE_USER: &'static str = "user";

pub const ROLE_SYSTEM: &'static str = "system";

pub const ROLE_ASSISTANT: &'static str = "assistant";

/// The chat-completion variant that sends history as a list of role-tagged messages.
pub struct ChatGpt35Turbo;

/// One role-tagged message of a chat-completion request or reply.
pub struct Message {
    pub role: String,
    pub content: String,
}

impl View for Message {
    type V = (Seq<char>, Seq<char>);

    open spec fn view(&self) -> (Seq<char>, Seq<char>) {
        (self.role@, self.content@)
    }
}

/// Body of a chat-completion request.
pub struct Request {
    pub model: String,
    pub messages: Vec<Message>,
}

/// Token counts reported with a reply.
pub struct Usage {
    pub prompt_tokens: i64,
    pub completion_tokens: i64,
    pub total_tokens: i64,
}

/// One candidate reply.
pub struct Choice {
    pub message: Message,
    pub finish_reason: Option<String>,
    pub index: i64,
}

/// A chat-completion reply.
pub struct ChatCompletion {
    pub id: String,
    pub object: String,
    pub created: i64,
    pub model: String,
    pub usage: Usage,
    pub choices: Vec<Choice>,
}

/// The views of a list of messages.
pub open spec fn views(ms: Seq<Message>) -> Seq<(Seq<char>, Seq<char>)> {
    ms.map_values(|m: Message| m@)
}

/// The messages that replay the earlier turns: for each turn the user's text,
/// then the answer.
pub open spec fn turn_messages(context: Seq<Conversation>) -> Seq<(Seq<char>, Seq<char>)>
    decreases context.len(),
{
    if context.len() == 0 {
        Seq::empty()
    } else {
        let last = context.last();
        turn_messages(context.drop_last()) + seq![
            (ROLE_USER@, last.req_message@),
            (ROLE_ASSISTANT@, last.resp_message@),
        ]
    }
}

/// The full message list of a request: the role prompt, the earlier turns,
/// then the new text.
pub open spec fn full_messages(context: Seq<Conversation>, text: Seq<char>) -> Seq<
    (Seq<char>, Seq<char>),
> {
    seq![(ROLE_SYSTEM@, PREP_PROMPT@)] + turn_messages(context) + seq![(ROLE_USER@, text)]
}

fn text_of(s: &str) -> (r: String)
    ensures
        r@ == s@,
{
    let r = s.to_string();
    proof {
        broadcast use vstd::string::to_string_from_display_ensures_for_str;
    }
    r
}

fn new_message(role: &str, content: &str) -> (r: Message)
    ensures
        r@ == (role@, content@),
{
    Message { role: text_of(role), content: text_of(content) }
}

/// The role prompt as a one-message list.
pub fn get_system_messages() -> (r: Vec<Message>)
    ensures
        views(r@) == seq![(ROLE_SYSTEM@, PREP_PROMPT@)],
{
    let r = vec![new_message(ROLE_SYSTEM, PREP_PROMPT)];
    assert(views(r@) =~= seq![(ROLE_SYSTEM@, PREP_PROMPT@)]);
    r
}

/// The new text as a one-message list.
pub fn get_user_new_message(message_from_user: &str) -> (r: Vec<Message>)
    ensures
        views(r@) == seq![(ROLE_USER@, message_from_user@)],
{
    let r = vec![new_message(ROLE_USER, message_from_user)];
    assert(views(r@) =~= seq![(ROLE_USER@, message_from_user@)]);
    r
}

/// The two messages that replay one turn.
pub fn convert2prompt(context: &Conversation) -> (r: Vec<Message>)
    ensures
        views(r@) == seq![
            (ROLE_USER@, context.req_message@),
            (ROLE_ASSISTANT@, context.resp_message@),
        ],
{
    let r = vec![
        new_message(ROLE_USER, context.req_message.as_str()),
        new_message(ROLE_ASSISTANT, context.resp_message.as_str()),
    ];
    assert(views(r@) =~= seq![
        (ROLE_USER@, context.req_message@),
        (ROLE_ASSISTANT@, context.resp_message@),
    ]);
    r
}

/// The messages that replay all earlier turns, in order.
pub fn convert2prompts(context: &Vec<Conversation>) -> (r: Vec<Message>)
    ensures
        views(r@) == turn_messages(context@),
{
    let mut r: Vec<Message> = Vec::new();
    let mut i: usize = 0;
    while i < context.len()
        invariant
            i <= context@.len(),
            views(r@) == turn_messages(context@.take(i as int)),
        decreases context@.len() - i,
    {
        let mut pair = convert2prompt(&context[i]);
        let ghost before = r@;
        let ghost added = pair@;
        r.append(&mut pair);
        assert(context@.take(i + 1).drop_last() =~= context@.take(i as int));
        assert(views(r@) =~= views(before) + views(added));
        i = i + 1;
    }
    assert(context@.take(context@.len() as int) =~= context@);
    r
}

/// The messages that replay all earlier turns.
pub fn get_content_messages(context: &Vec<Conversation>) -> (r: Vec<Message>)
    ensures
        views(r@) == turn_messages(context@),
{
    convert2prompts(context)
}

/// The full message list: role prompt, earlier turns, new text.
pub fn create_full_message(context: &Vec<Conversation>, message_from_user: &str) -> (r: Vec<
    Message,
>)
    ensures
        views(r@) == full_messages(context@, message_from_user@),
{
    let mut system = get_system_messages();
    let mut content = get_content_messages(context);
    let mut new_message = get_user_new_message(message_from_user);
    let mut merged: Vec<Message> = Vec::new();
    let ghost (a, b, c) = (system@, content@, new_message@);
    merged.append(&mut system);
    merged.append(&mut content);
    merged.append(&mut new_message);
    assert(merged@ =~= a + b + c);
    assert(views(merged@) =~= views(a) + views(b) + views(c));
    merged
}

impl ChatGpt35Turbo {
    /// The request this variant sends for `context` and the new text.
    pub fn build_request(&self, context: &Vec<Conversation>, message_from_user: &str) -> (r:
        Request)
        ensures
            r.model@ == MODEL@,
            views(r.messages@) == full_messages(context@, message_from_user@),
    {
        Request { model: text_of(MODEL), messages: create_full_message(context, message_from_user) }
    }
}

/// What the upstream reply comes to: the content of its first choice.
pub open spec fn reply_of(c: ChatCompletion) -> Result<Seq<char>, ()> {
    if c.choices@.len() > 0 {
        Ok(c.choices@[0].message.content@)
    } else {
        Err(())
    }
}

impl ChatCompletion {
    /// The text of the first choice; a reply without choices is an upstream failure.
    pub fn reply_text(&self) -> (r: Result<String, Error>)
        ensures
            match reply_of(*self) {
                Ok(t) => r is Ok && r->Ok_0@ == t,
                Err(_) => r is Err && r->Err_0 is HttpError,
            },
    {
        if self.choices.len() > 0 {
            Ok(self.choices[0].message.content.clone())
        } else {
            Err(Error::HttpError(text_of("the reply holds no choice")))
        }
    }
}

} // verus!
