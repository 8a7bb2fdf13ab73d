pub mod chat_gpt;
pub mod chat_gpt_35_turbo;
pub mod chat_gpt_text_davinci_003;
pub mod wechat;
