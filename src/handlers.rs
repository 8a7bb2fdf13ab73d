use vstd::prelude::*;

use crate::api::chat_gpt::{model_of, ChatApi};
use crate::cache::{after_lookup, lookup, Cache};
use crate::database::{Conversation, LIMIT_COUNT};
use crate::error::Error;
use crate::settings::ChatGptConfig;
use crate::text::{push_signed_decimal, signed_decimal};

verus! {

/// Prefix of the cache key that marks a message id as claimed.
pub const DEDUP_PREFIX: &'static str = "MSGID_";

/// How long a claim on a message id lasts, in milliseconds.
pub const DEDUP_TTL: u64 = 60000;

/// An inbound text message from the platform.
pub struct WeChatMessage {
    pub to_user_name: String,
    pub from_user_name: String,
    pub create_time: i64,
    pub msg_type: String,
    pub content: String,
    pub msg_id: i64,
}

/// The cache key that claims a message id.
pub open spec fn spec_dedup_key(msg_id: int) -> Seq<char> {
    DEDUP_PREFIX@ + signed_decimal(msg_id)
}

/// The cache key that claims a message id.
pub fn dedup_key(msg_id: i64) -> (r: String)
    ensures
        r@ == spec_dedup_key(msg_id as int),
{
    let mut key = DEDUP_PREFIX.to_string();
    proof {
        broadcast use vstd::string::to_string_from_display_ensures_for_str;
    }
    push_signed_decimal(&mut key, msg_id);
    key
}

/// Whether a message whose key is `key`, arriving at `now`, repeats one
/// that is still claimed.
pub open spec fn is_duplicate(m: Map<Seq<char>, u64>, key: Seq<char>, now: u64) -> bool {
    lookup(m, key, now) is Some
}

/// The cache contents after a message with key `key` arrives at `now`: a
/// fresh message claims its key for `DEDUP_TTL`, a repeat changes nothing.
pub open spec fn claimed(m: Map<Seq<char>, u64>, key: Seq<char>, now: u64) -> Map<Seq<char>, u64> {
    if is_duplicate(m, key, now) {
        m
    } else {
        after_lookup(m, key, now).insert(key, (now + DEDUP_TTL) as u64)
    }
}

/// Where a run of the pipeline stands.
pub enum Stage {
    /// A repeat: waiting for the answer persisted by the first delivery.
    AwaitPersisted,
    /// Fresh: waiting for the earlier turns.
    AwaitHistory,
    /// Waiting for the upstream reply.
    AwaitReply,
    /// Waiting for the store to record the reply, which is kept here.
    AwaitStored(String),
    Done,
    Failed,
}

/// The outcome of the action last asked for.
pub enum Event {
    Persisted(Result<String, Error>),
    History(Result<Vec<Conversation>, Error>),
    Reply(Result<String, Error>),
    Stored(Result<(), Error>),
}

/// What the pipeline asks its caller to do next.
pub enum Action {
    /// Read the answer persisted for this message id.
    LookupPersisted { msg_id: i64 },
    /// Read the most recent turns of this user with this account, oldest first.
    FetchHistory { user_id: String, subscription_id: String, limit: u8 },
    /// Ask the upstream variant for an answer to `text` after `context`.
    CallUpstream { api: ChatApi, context: Vec<Conversation>, text: String },
    /// Record the turn under the message id.
    Persist {
        msg_id: i64,
        user_id: String,
        subscription_id: String,
        request: String,
        response: String,
    },
    /// Send this reply.
    Respond { to_user_name: String, from_user_name: String, content: String },
    /// Answer with this error.
    Fail(Error),
}

/// One run of the pipeline for one inbound message.
pub struct Pipeline {
    pub message: WeChatMessage,
    pub api: ChatApi,
    pub stage: Stage,
}

/// The reply to `m` carrying `content`: addressed back to the sender, from
/// the account the message was sent to.
pub open spec fn respond(m: WeChatMessage, content: String) -> Action {
    Action::Respond { to_user_name: m.from_user_name, from_user_name: m.to_user_name, content }
}

/// Whether `event` answers the action that `stage` waits on.
pub open spec fn accepts(stage: Stage, event: Event) -> bool {
    ||| stage is AwaitPersisted && event is Persisted
    ||| stage is AwaitHistory && event is History
    ||| stage is AwaitReply && event is Reply
    ||| stage is AwaitStored && event is Stored
}

/// The next stage and action of run `p` on `event`. Every failure ends the
/// run with that failure; nothing is retried.
pub open spec fn transition(p: Pipeline, event: Event) -> (Stage, Action) {
    match event {
        Event::Persisted(Ok(text)) => (Stage::Done, respond(p.message, text)),
        Event::History(Ok(rows)) => (
            Stage::AwaitReply,
            Action::CallUpstream { api: p.api, context: rows, text: p.message.content },
        ),
        Event::Reply(Ok(reply)) => (
            Stage::AwaitStored(reply),
            Action::Persist {
                msg_id: p.message.msg_id,
                user_id: p.message.from_user_name,
                subscription_id: p.message.to_user_name,
                request: p.message.content,
                response: reply,
            },
        ),
        Event::Stored(Ok(_)) => (Stage::Done, respond(p.message, p.stage->AwaitStored_0)),
        Event::Persisted(Err(e)) => (Stage::Failed, Action::Fail(e)),
        Event::History(Err(e)) => (Stage::Failed, Action::Fail(e)),
        Event::Reply(Err(e)) => (Stage::Failed, Action::Fail(e)),
        Event::Stored(Err(e)) => (Stage::Failed, Action::Fail(e)),
    }
}

/// Of two runs for the same message id, started at `ta` and at `tb` while
/// the first one's claim lasts, at most one is fresh: if the first is fresh,
/// the second is a repeat.
pub proof fn lemma_claim_once(m: Map<Seq<char>, u64>, key: Seq<char>, ta: u64, tb: u64)
    requires
        ta + DEDUP_TTL <= u64::MAX,
        ta <= tb < ta + DEDUP_TTL,
    ensures
        !is_duplicate(m, key, ta) ==> is_duplicate(claimed(m, key, ta), key, tb),
        !(!is_duplicate(m, key, ta) && !is_duplicate(claimed(m, key, ta), key, tb)),
{
}

/// A repeat never reaches the upstream call: from the lookup of the
/// persisted answer the run only replies or fails, and then ends.
pub proof fn lemma_repeat_never_calls_upstream(p: Pipeline, event: Event)
    requires
        p.stage is AwaitPersisted,
        accepts(p.stage, event),
    ensures
        !(transition(p, event).1 is CallUpstream),
        transition(p, event).1 is Respond || transition(p, event).1 is Fail,
        transition(p, event).0 is Done || transition(p, event).0 is Failed,
{
}

fn copy_message(m: &WeChatMessage) -> (r: WeChatMessage)
    ensures
        r == *m,
{
    WeChatMessage {
        to_user_name: m.to_user_name.clone(),
        from_user_name: m.from_user_name.clone(),
        create_time: m.create_time,
        msg_type: m.msg_type.clone(),
        content: m.content.clone(),
        msg_id: m.msg_id,
    }
}

impl Pipeline {
    /// Begins a run for `message` arriving at `now` (milliseconds). An unknown
    /// model fails at once and touches nothing. Otherwise a message whose id
    /// is still claimed is a repeat and only looks up the persisted answer; a
    /// fresh one claims its id before any slow work and fetches the history.
    pub fn start(cache: &mut Cache, config: &ChatGptConfig, message: WeChatMessage, now: u64) -> (r:
        Result<(Pipeline, Action), Error>)
        requires
            old(cache).wf(),
            now + DEDUP_TTL <= u64::MAX,
        ensures
            final(cache).wf(),
            match model_of(config.model@) {
                None => {
                    &&& r == Err::<(Pipeline, Action), Error>(Error::UnsupportedModel)
                    &&& final(cache)@ == old(cache)@
                },
                Some(api) => {
                    let key = spec_dedup_key(message.msg_id as int);
                    &&& r is Ok
                    &&& r->Ok_0.0.api == api
                    &&& r->Ok_0.0.message == message
                    &&& final(cache)@ == claimed(old(cache)@, key, now)
                    &&& if is_duplicate(old(cache)@, key, now) {
                        &&& r->Ok_0.0.stage is AwaitPersisted
                        &&& r->Ok_0.1 == Action::LookupPersisted { msg_id: message.msg_id }
                    } else {
                        &&& r->Ok_0.0.stage is AwaitHistory
                        &&& r->Ok_0.1 == Action::FetchHistory {
                            user_id: message.from_user_name,
                            subscription_id: message.to_user_name,
                            limit: LIMIT_COUNT,
                        }
                    }
                },
            },
    {
        let api = match ChatApi::from_model(&config.model) {
            Ok(api) => api,
            Err(e) => {
                return Err(e);
            },
        };
        let key = dedup_key(message.msg_id);
        match cache.get(key.as_str(), now) {
            Some(_) => {
                let msg_id = message.msg_id;
                Ok((Pipeline { message, api, stage: Stage::AwaitPersisted }, Action::LookupPersisted { msg_id }))
            },
            None => {
                cache.set(key.as_str(), now, DEDUP_TTL);
                let action = Action::FetchHistory {
                    user_id: message.from_user_name.clone(),
                    subscription_id: message.to_user_name.clone(),
                    limit: LIMIT_COUNT,
                };
                Ok((Pipeline { message, api, stage: Stage::AwaitHistory }, action))
            },
        }
    }

    /// Whether `event` answers the action this run waits on.
    pub fn accepts(&self, event: &Event) -> (r: bool)
        ensures
            r == accepts(self.stage, *event),
    {
        match (&self.stage, event) {
            (Stage::AwaitPersisted, Event::Persisted(_)) => true,
            (Stage::AwaitHistory, Event::History(_)) => true,
            (Stage::AwaitReply, Event::Reply(_)) => true,
            (Stage::AwaitStored(_), Event::Stored(_)) => true,
            _ => false,
        }
    }

    /// Advances the run on the outcome of its last action.
    pub fn step(&mut self, event: Event) -> (r: Action)
        requires
            accepts(old(self).stage, event),
        ensures
            final(self).message == old(self).message,
            final(self).api == old(self).api,
            (final(self).stage, r) == transition(*old(self), event),
    {
        let m = copy_message(&self.message);
        match event {
            Event::Persisted(Ok(text)) => {
                self.stage = Stage::Done;
                Action::Respond { to_user_name: m.from_user_name, from_user_name: m.to_user_name, content: text }
            },
            Event::History(Ok(rows)) => {
                self.stage = Stage::AwaitReply;
                Action::CallUpstream { api: self.api, context: rows, text: m.content }
            },
            Event::Reply(Ok(reply)) => {
                self.stage = Stage::AwaitStored(reply.clone());
                Action::Persist {
                    msg_id: m.msg_id,
                    user_id: m.from_user_name,
                    subscription_id: m.to_user_name,
                    request: m.content,
                    response: reply,
                }
            },
            Event::Stored(Ok(_)) => {
                let reply = match &self.stage {
                    Stage::AwaitStored(reply) => reply.clone(),
                    _ => String::new(),
                };
                self.stage = Stage::Done;
                Action::Respond { to_user_name: m.from_user_name, from_user_name: m.to_user_name, content: reply }
            },
            Event::Persisted(Err(e)) => {
                self.stage = Stage::Failed;
                Action::Fail(e)
            },
            Event::History(Err(e)) => {
                self.stage = Stage::Failed;
                Action::Fail(e)
            },
            Event::Reply(Err(e)) => {
                self.stage = Stage::Failed;
                Action::Fail(e)
            },
            Event::Stored(Err(e)) => {
                self.stage = Stage::Failed;
                Action::Fail(e)
            },
        }
    }
}

} // verus!
