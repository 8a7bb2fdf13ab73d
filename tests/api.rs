use chat_bridge::api::chat_gpt::{ChatApi, UpstreamRequest};
use chat_bridge::api::chat_gpt_35_turbo::{
    self, convert2prompts as chat_turns, create_full_message, ChatCompletion, Choice, Message, Usage,
};
use chat_bridge::api::chat_gpt_text_davinci_003::{self, convert2prompt, convert2prompts};
use chat_bridge::api::wechat::{
    bytes_le, signature_matches, signing_input, verify_signature, TextMessage, WeChatRequest,
};
use chat_bridge::database::Conversation;
use chat_bridge::error::Error;

fn conv(q: &str, a: &str) -> Conversation {
    Conversation { req_message: q.to_string(), resp_message: a.to_string() }
}

fn request(signature: &str, timestamp: &str, nonce: &str) -> WeChatRequest {
    WeChatRequest {
        signature: signature.to_string(),
        timestamp: timestamp.to_string(),
        nonce: nonce.to_string(),
        echostr: None,
        message: None,
    }
}

#[test]
fn model_selection_is_exact() {
    assert_eq!(ChatApi::from_model(&"gpt-3.5-turbo".to_string()), Ok(ChatApi::Gpt35Turbo));
    assert_eq!(ChatApi::from_model(&"text-davinci-003".to_string()), Ok(ChatApi::TextDavinci003));
    assert_eq!(ChatApi::from_model(&"gpt-3.5-turbo ".to_string()), Err(Error::UnsupportedModel));
    assert_eq!(ChatApi::from_model(&"not-a-real-model".to_string()), Err(Error::UnsupportedModel));
}

#[test]
fn davinci_prompt_marks_turns() {
    let ctx = vec![conv("q1", "a1"), conv("q2", "a2")];
    assert_eq!(convert2prompt(&ctx[0]), "SNACKQQQQ:q1SNACKAAAA:a1");
    assert_eq!(convert2prompts(&ctx), "SNACKQQQQ:q1SNACKAAAA:a1SNACKQQQQ:q2SNACKAAAA:a2");
    assert_eq!(convert2prompts(&Vec::new()), "");
    match ChatApi::TextDavinci003.build(&ctx, "hi") {
        UpstreamRequest::Completion(p) => {
            let expected = format!(
                "{}SNACKQQQQ:q1SNACKAAAA:a1SNACKQQQQ:q2SNACKAAAA:a2SNACKQQQQ:hiSNACKAAAA:",
                chat_gpt_text_davinci_003::PREP_PROMPT
            );
            assert_eq!(p, expected);
        }
        _ => panic!("expected a prompt"),
    }
}

fn pairs(ms: &[Message]) -> Vec<(String, String)> {
    ms.iter().map(|m| (m.role.clone(), m.content.clone())).collect()
}

#[test]
fn chat_messages_replay_turns() {
    let ctx = vec![conv("q1", "a1")];
    let turns = pairs(&chat_turns(&ctx));
    assert_eq!(turns, vec![
        ("user".to_string(), "q1".to_string()),
        ("assistant".to_string(), "a1".to_string()),
    ]);
    let full = pairs(&create_full_message(&ctx, "hi"));
    assert_eq!(full.len(), 4);
    assert_eq!(full[0], ("system".to_string(), chat_gpt_35_turbo::PREP_PROMPT.to_string()));
    assert_eq!(full[3], ("user".to_string(), "hi".to_string()));
    match ChatApi::Gpt35Turbo.build(&Vec::new(), "hi") {
        UpstreamRequest::Chat(r) => {
            assert_eq!(r.model, "gpt-3.5-turbo");
            assert_eq!(r.messages.len(), 2);
        }
        _ => panic!("expected a chat request"),
    }
}

fn completion(choices: Vec<Choice>) -> ChatCompletion {
    ChatCompletion {
        id: "chatcmpl-6rQVJZd1SxFrmOTEg6b4MEWT7w2eF".to_string(),
        object: "chat.completion".to_string(),
        created: 1678191285,
        model: "gpt-3.5-turbo-0301".to_string(),
        usage: Usage { prompt_tokens: 623, completion_tokens: 160, total_tokens: 783 },
        choices,
    }
}

#[test]
fn reply_text_takes_first_choice() {
    let c = completion(vec![
        Choice {
            message: Message { role: "assistant".to_string(), content: "first".to_string() },
            finish_reason: None,
            index: 0,
        },
        Choice {
            message: Message { role: "assistant".to_string(), content: "second".to_string() },
            finish_reason: None,
            index: 1,
        },
    ]);
    assert_eq!(c.reply_text(), Ok("first".to_string()));
    assert!(matches!(completion(Vec::new()).reply_text(), Err(Error::HttpError(_))));
}

#[test]
fn byte_order_is_lexicographic() {
    assert!(bytes_le(b"abc", b"abd"));
    assert!(bytes_le(b"ab", b"abc"));
    assert!(bytes_le(b"", b""));
    assert!(!bytes_le(b"abc", b"ab"));
    assert!(!bytes_le(b"b", b"abc"));
}

#[test]
fn signing_input_sorts_parts() {
    assert_eq!(signing_input("b", "c", "a"), b"abc".to_vec());
    assert_eq!(signing_input("token", "1700", "nonce"), b"1700noncetoken".to_vec());
}

#[test]
fn signature_matches_lower_hex() {
    assert!(signature_matches(&[0x0f, 0xa0], &"0fa0".to_string()));
    assert!(!signature_matches(&[0x0f, 0xa0], &"0FA0".to_string()));
    assert!(signature_matches(&[], &String::new()));
}

#[test]
fn verify_signature_accepts_sha1_of_sorted_parts() {
    // SHA-1 of "abc".
    let good = request("a9993e364706816aba3e25717850c26c9cd0d89d", "c", "a");
    assert_eq!(verify_signature(&good, "b"), Ok(()));
    let bad = request("a9993e364706816aba3e25717850c26c9cd0d89e", "c", "a");
    assert_eq!(verify_signature(&bad, "b"), Err(Error::InvalidSignature));
}

#[test]
fn text_message_is_text_kind() {
    let m = TextMessage::new("B".to_string(), "A".to_string(), "hello".to_string(), 1_700_000_000);
    assert_eq!(m.to_user_name, "B");
    assert_eq!(m.from_user_name, "A");
    assert_eq!(m.content, "hello");
    assert_eq!(m.msg_type, "text");
    assert_eq!(m.create_time, 1_700_000_000);
}

#[test]
fn completion_takes_first_choice() {
    let texts = vec!["one".to_string(), "two".to_string()];
    assert_eq!(chat_bridge::api::chat_gpt_text_davinci_003::first_choice(&texts), Ok("one".to_string()));
    assert!(matches!(
        chat_bridge::api::chat_gpt_text_davinci_003::first_choice(&Vec::new()),
        Err(Error::HttpError(_))
    ));
}
