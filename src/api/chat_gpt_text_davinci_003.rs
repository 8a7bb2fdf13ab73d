use vstd::prelude::*;

use crate::database::Conversation;
use crate::error::Error;

verus! {

/// The role the model is asked to play, at the head of every prompt.
pub const PREP_PROMPT: &'static str = "假装你是一个小男孩，名字叫下午茶，喜欢踢足球，喝咖啡，打扑克，有着圆滚滚的肚子。后面问到所有你相关的信息，请你都以这个角色角度回答";

/// Model name sent with every request of this variant.
pub const MODEL: &'static str = "text-davinci-003";

/// Marks the start of a user's text in the prompt.
pub const QUESTION_MARK: &'static str = "SNACKQQQQ:";

/// Marks the start of an answer in the prompt.
pub const ANSWER_MARK: &'static str = "SNACKAAAA:";

/// Endpoint of the completion API.
pub const URL: &'static str = "https://api.openai.com/v1/chat/completions";

/// The completion variant that sends history as one marked-up prompt.
pub struct ChatGptTextDavinci003;

/// One earlier turn in prompt form.
pub open spec fn turn_prompt(c: Conversation) -> Seq<char> {
    QUESTION_MARK@ + c.req_message@ + ANSWER_MARK@ + c.resp_message@
}

/// All earlier turns in prompt form, in order.
pub open spec fn turns_prompt(context: Seq<Conversation>) -> Seq<char>
    decreases context.len(),
{
    if context.len() == 0 {
        Seq::empty()
    } else {
        turns_prompt(context.drop_last()) + turn_prompt(context.last())
    }
}

/// The whole prompt: role, earlier turns, then the new text awaiting an answer.
pub open spec fn full_prompt(context: Seq<Conversation>, text: Seq<char>) -> Seq<char> {
    PREP_PROMPT@ + turns_prompt(context) + QUESTION_MARK@ + text + ANSWER_MARK@
}

/// One earlier turn in prompt form.
pub fn convert2prompt(context: &Conversation) -> (r: String)
    ensures
        r@ == turn_prompt(*context),
{
    let mut s = QUESTION_MARK.to_string();
    proof {
        broadcast use vstd::string::to_string_from_display_ensures_for_str;
    }
    s.append(context.req_message.as_str());
    s.append(ANSWER_MARK);
    s.append(context.resp_message.as_str());
    s
}

/// All earlier turns in prompt form.
pub fn convert2prompts(context: &Vec<Conversation>) -> (r: String)
    ensures
        r@ == turns_prompt(context@),
{
    let mut s = String::new();
    let mut i: usize = 0;
    while i < context.len()
        invariant
            i <= context@.len(),
            s@ == turns_prompt(context@.take(i as int)),
        decreases context@.len() - i,
    {
        let p = convert2prompt(&context[i]);
        s.append(p.as_str());
        assert(context@.take(i + 1).drop_last() =~= context@.take(i as int));
        i = i + 1;
    }
    assert(context@.take(context@.len() as int) =~= context@);
    s
}

impl ChatGptTextDavinci003 {
    /// The prompt this variant sends for `context` and the new text.
    pub fn build_prompt(&self, context: &Vec<Conversation>, message_from_user: &str) -> (r: String)
        ensures
            r@ == full_prompt(context@, message_from_user@),
    {
        let mut s = PREP_PROMPT.to_string();
        proof {
            broadcast use vstd::string::to_string_from_display_ensures_for_str;
        }
        let turns = convert2prompts(context);
        s.append(turns.as_str());
        s.append(QUESTION_MARK);
        s.append(message_from_user);
        s.append(ANSWER_MARK);
        s
    }
}

/// The text of the first choice of a completion reply; a reply without
/// choices is an upstream failure.
pub fn first_choice(choices: &Vec<String>) -> (r: Result<String, Error>)
    ensures
        choices@.len() > 0 ==> r == Ok::<String, Error>(choices@[0]),
        choices@.len() == 0 ==> r is Err && r->Err_0 is HttpError,
{
    if choices.len() > 0 {
        Ok(choices[0].clone())
    } else {
        let reason = "the reply holds no choice".to_string();
        Err(Error::HttpError(reason))
    }
}

} // verus!
