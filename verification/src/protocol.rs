//! The values that a session works on.
use crate::errors::CodexErrorInfo;
use crate::errors::Reason;
use crate::ids::ThreadId;
use crate::text::copy_option;
use vstd::prelude::*;

verus! {

/// One piece of what a user sends.
#[derive(Clone, Debug, PartialEq, Eq)]
pub enum UserInput {
    Text { text: String },
    /// Anything but plain text, in its serialised form.
    Structured { json: String },
}

/// One piece of a message.
#[derive(Clone, Debug, PartialEq, Eq)]
pub enum ContentItem {
    InputText { text: String },
    OutputText { text: String },
    /// Anything but text, in its serialised form.
    Structured { json: String },
}

/// What a tool gave back.
#[derive(Clone, Debug, PartialEq, Eq)]
pub enum FunctionCallOutputBody {
    Text(String),
    /// Content items, in their serialised form.
    ContentItems(String),
}

impl FunctionCallOutputBody {
    /// A copy of this output.
    pub fn copy(&self) -> (res: FunctionCallOutputBody)
        ensures
            res == *self,
    {
        match self {
            FunctionCallOutputBody::Text(text) => FunctionCallOutputBody::Text(text.clone()),
            FunctionCallOutputBody::ContentItems(items) => FunctionCallOutputBody::ContentItems(
                items.clone(),
            ),
        }
    }
}

/// An item of the model's conversation.
///
/// `id` is the item's stable identity where it has one, `turn_id` the turn that it is known to
/// belong to, and `extra` all that the item carries besides, such as the phase of a message, in
/// its serialised form.
#[allow(inconsistent_fields)]
#[derive(Clone, Debug, PartialEq, Eq)]
pub enum ResponseItem {
    Message {
        id: Option<String>,
        turn_id: Option<String>,
        role: String,
        content: Vec<ContentItem>,
        extra: Option<String>,
    },
    FunctionCall {
        id: Option<String>,
        turn_id: Option<String>,
        call_id: String,
        name: String,
        namespace: Option<String>,
        arguments: String,
        extra: Option<String>,
    },
    CustomToolCall {
        id: Option<String>,
        turn_id: Option<String>,
        call_id: String,
        name: String,
        namespace: Option<String>,
        input: String,
        extra: Option<String>,
    },
    FunctionCallOutput {
        id: Option<String>,
        turn_id: Option<String>,
        call_id: Option<String>,
        name: Option<String>,
        namespace: Option<String>,
        output: FunctionCallOutputBody,
        extra: Option<String>,
    },
    CustomToolCallOutput {
        id: Option<String>,
        turn_id: Option<String>,
        call_id: String,
        name: Option<String>,
        output: FunctionCallOutputBody,
        extra: Option<String>,
    },
    /// Any other item, in its serialised form.
    Other { id: Option<String>, turn_id: Option<String>, json: String },
}

impl ResponseItem {
    /// The stable identity of this item.
    pub open spec fn spec_id(self) -> Option<String> {
        match self {
            ResponseItem::Message { id, .. } => id,
            ResponseItem::FunctionCall { id, .. } => id,
            ResponseItem::CustomToolCall { id, .. } => id,
            ResponseItem::FunctionCallOutput { id, .. } => id,
            ResponseItem::CustomToolCallOutput { id, .. } => id,
            ResponseItem::Other { id, .. } => id,
        }
    }

    /// The turn that this item is known to belong to.
    pub open spec fn spec_turn_id(self) -> Option<String> {
        match self {
            ResponseItem::Message { turn_id, .. } => turn_id,
            ResponseItem::FunctionCall { turn_id, .. } => turn_id,
            ResponseItem::CustomToolCall { turn_id, .. } => turn_id,
            ResponseItem::FunctionCallOutput { turn_id, .. } => turn_id,
            ResponseItem::CustomToolCallOutput { turn_id, .. } => turn_id,
            ResponseItem::Other { turn_id, .. } => turn_id,
        }
    }

    /// Whether this item has the identity `id`.
    pub open spec fn has_id(self, id: Seq<char>) -> bool {
        self.spec_id() is Some && self.spec_id()->Some_0@ == id
    }

    pub fn id(&self) -> (res: &Option<String>)
        ensures
            *res == self.spec_id(),
    {
        match self {
            ResponseItem::Message { id, .. } => id,
            ResponseItem::FunctionCall { id, .. } => id,
            ResponseItem::CustomToolCall { id, .. } => id,
            ResponseItem::FunctionCallOutput { id, .. } => id,
            ResponseItem::CustomToolCallOutput { id, .. } => id,
            ResponseItem::Other { id, .. } => id,
        }
    }

    pub fn turn_id(&self) -> (res: &Option<String>)
        ensures
            *res == self.spec_turn_id(),
    {
        match self {
            ResponseItem::Message { turn_id, .. } => turn_id,
            ResponseItem::FunctionCall { turn_id, .. } => turn_id,
            ResponseItem::CustomToolCall { turn_id, .. } => turn_id,
            ResponseItem::FunctionCallOutput { turn_id, .. } => turn_id,
            ResponseItem::CustomToolCallOutput { turn_id, .. } => turn_id,
            ResponseItem::Other { turn_id, .. } => turn_id,
        }
    }
}

/// A message from one agent to another.
#[derive(Clone, Debug, PartialEq, Eq)]
pub struct InterAgentCommunication {
    pub author: String,
    pub recipient: String,
    pub other_recipients: Vec<String>,
    pub content: String,
    /// The content as only the recipient can read it, where it is not sent in plain text.
    pub encrypted_content: Option<String>,
    /// Whether the message asks an idle recipient to start a turn.
    pub trigger_turn: bool,
}

/// What kind of work an active turn does.
#[derive(Clone, Copy, Debug, PartialEq, Eq, Structural)]
pub enum TaskKind {
    Regular,
    Review,
    Compact,
}

/// How an attempt to start a task ended.
#[derive(Clone, Copy, Debug, PartialEq, Eq, Structural)]
pub enum TaskStartOutcome {
    Started,
    RestartRequired,
    /// Another turn has taken the session over meanwhile.
    Superseded,
}

/// The collaboration mode of a session.
#[derive(Clone, Copy, Debug, PartialEq, Eq, Structural)]
pub enum ModeKind {
    Default,
    Plan,
}

/// An item as a client shows it. `content` is all of an item but its identity, in its serialised
/// form.
#[derive(Clone, Debug, PartialEq, Eq)]
pub enum TurnItem {
    UserMessage { id: String, content: String },
    AgentMessage { id: String, content: String },
    Reasoning { id: String, content: String },
    WebSearch { id: String, content: String },
    ImageGeneration { id: String, content: String },
    HookPrompt { id: String, content: String },
    FunctionCallOutput {
        id: String,
        name: String,
        namespace: Option<String>,
        output: FunctionCallOutputBody,
    },
    /// Any other item, in its serialised form.
    Other { id: String, json: String },
}

impl TurnItem {
    pub open spec fn spec_id(self) -> String {
        match self {
            TurnItem::UserMessage { id, .. } => id,
            TurnItem::AgentMessage { id, .. } => id,
            TurnItem::Reasoning { id, .. } => id,
            TurnItem::WebSearch { id, .. } => id,
            TurnItem::ImageGeneration { id, .. } => id,
            TurnItem::HookPrompt { id, .. } => id,
            TurnItem::FunctionCallOutput { id, .. } => id,
            TurnItem::Other { id, .. } => id,
        }
    }

    pub fn id(&self) -> (res: String)
        ensures
            res == self.spec_id(),
    {
        match self {
            TurnItem::UserMessage { id, .. } => id.clone(),
            TurnItem::AgentMessage { id, .. } => id.clone(),
            TurnItem::Reasoning { id, .. } => id.clone(),
            TurnItem::WebSearch { id, .. } => id.clone(),
            TurnItem::ImageGeneration { id, .. } => id.clone(),
            TurnItem::HookPrompt { id, .. } => id.clone(),
            TurnItem::FunctionCallOutput { id, .. } => id.clone(),
            TurnItem::Other { id, .. } => id.clone(),
        }
    }

    /// A copy of this item.
    pub fn copy(&self) -> (res: TurnItem)
        ensures
            res == *self,
    {
        match self {
            TurnItem::UserMessage { id, content } => TurnItem::UserMessage {
                id: id.clone(),
                content: content.clone(),
            },
            TurnItem::AgentMessage { id, content } => TurnItem::AgentMessage {
                id: id.clone(),
                content: content.clone(),
            },
            TurnItem::Reasoning { id, content } => TurnItem::Reasoning {
                id: id.clone(),
                content: content.clone(),
            },
            TurnItem::WebSearch { id, content } => TurnItem::WebSearch {
                id: id.clone(),
                content: content.clone(),
            },
            TurnItem::ImageGeneration { id, content } => TurnItem::ImageGeneration {
                id: id.clone(),
                content: content.clone(),
            },
            TurnItem::HookPrompt { id, content } => TurnItem::HookPrompt {
                id: id.clone(),
                content: content.clone(),
            },
            TurnItem::FunctionCallOutput { id, name, namespace, output } => {
                TurnItem::FunctionCallOutput {
                    id: id.clone(),
                    name: name.clone(),
                    namespace: copy_option(namespace),
                    output: output.copy(),
                }
            },
            TurnItem::Other { id, json } => TurnItem::Other { id: id.clone(), json: json.clone() },
        }
    }
}

/// What a session reports.
#[allow(inconsistent_fields)]
#[derive(Clone, Debug, PartialEq, Eq)]
pub enum EventMsg {
    Error { reason: Reason, info: CodexErrorInfo },
    Warning { reason: Reason },
    TurnStarted {
        turn_id: String,
        root_turn_id: Option<String>,
        trace_id: Option<String>,
        started_at: Option<i64>,
        model_context_window: Option<i64>,
        collaboration_mode_kind: ModeKind,
    },
    ItemCompleted {
        thread_id: ThreadId,
        turn_id: String,
        item: TurnItem,
        started_at_ms: Option<i64>,
        completed_at_ms: i64,
    },
    RawResponseItem { item: ResponseItem },
    ThreadRolledBack { num_turns: u32 },
    /// The settings that now hold, in their serialised form.
    ThreadSettingsApplied { thread_settings: String },
    /// The voices that there are, in their serialised form.
    RealtimeConversationListVoicesResponse { voices: String },
    ShutdownComplete,
    /// Any other report, in its serialised form.
    Other { json: String },
}

/// A report, with the submission or turn that it belongs to.
#[derive(Clone, Debug, PartialEq, Eq)]
pub struct Event {
    pub id: String,
    pub msg: EventMsg,
}

/// A record of a thread's saved history.
#[derive(Clone, Debug, PartialEq, Eq)]
pub enum RolloutItem {
    ResponseItem(ResponseItem),
    Compacted { replacement_history: Option<Vec<ResponseItem>> },
    EventMsg(EventMsg),
    /// Any other record, in its serialised form.
    Other { json: String },
}

/// What started a sub-agent.
#[derive(Clone, Debug, PartialEq, Eq)]
pub enum SubAgentSource {
    Review,
    Compact,
    MemoryConsolidation,
    /// Spawned by the agent of another thread.
    ThreadSpawn { parent_thread_id: ThreadId, depth: i32 },
    Other(String),
}

/// What started a session.
#[derive(Clone, Debug, PartialEq, Eq)]
pub enum SessionSource {
    Cli,
    VSCode,
    Exec,
    Mcp,
    Custom(String),
    Internal(String),
    SubAgent(SubAgentSource),
    Unknown,
}

/// How an agent is doing.
#[derive(Clone, Debug, PartialEq, Eq)]
pub enum AgentStatus {
    PendingInit,
    Running,
    Interrupted,
    /// Done, with the last message of the agent if it left one.
    Completed(Option<String>),
    Errored(String),
    Shutdown,
    NotFound,
}

impl AgentStatus {
    /// A copy of this status.
    pub fn copy(&self) -> (res: AgentStatus)
        ensures
            res == *self,
    {
        match self {
            AgentStatus::PendingInit => AgentStatus::PendingInit,
            AgentStatus::Running => AgentStatus::Running,
            AgentStatus::Interrupted => AgentStatus::Interrupted,
            AgentStatus::Completed(message) => AgentStatus::Completed(copy_option(message)),
            AgentStatus::Errored(message) => AgentStatus::Errored(message.clone()),
            AgentStatus::Shutdown => AgentStatus::Shutdown,
            AgentStatus::NotFound => AgentStatus::NotFound,
        }
    }
}

/// An item is known by the identity that it bears, and belongs to the turn that it names,
/// whatever kind of item it is.
pub proof fn law_items_are_known_by_their_own_identity(item: ResponseItem, id: Seq<char>)
    ensures
        match item {
            ResponseItem::Message { id: own, turn_id, .. } => item.spec_id() == own
                && item.spec_turn_id() == turn_id,
            ResponseItem::FunctionCall { id: own, turn_id, .. } => item.spec_id() == own
                && item.spec_turn_id() == turn_id,
            ResponseItem::CustomToolCall { id: own, turn_id, .. } => item.spec_id() == own
                && item.spec_turn_id() == turn_id,
            ResponseItem::FunctionCallOutput { id: own, turn_id, .. } => item.spec_id() == own
                && item.spec_turn_id() == turn_id,
            ResponseItem::CustomToolCallOutput { id: own, turn_id, .. } => item.spec_id() == own
                && item.spec_turn_id() == turn_id,
            ResponseItem::Other { id: own, turn_id, .. } => item.spec_id() == own
                && item.spec_turn_id() == turn_id,
        },
        item.has_id(id) <==> match item.spec_id() {
            Some(own) => own@ == id,
            None => false,
        },
{
}

/// What is shown of an item bears the identity that it was given.
pub proof fn law_shown_items_bear_their_identity(id: String, text: String, item: TurnItem)
    ensures
        (TurnItem::UserMessage { id, content: text }).spec_id() == id,
        (TurnItem::AgentMessage { id, content: text }).spec_id() == id,
        (TurnItem::Reasoning { id, content: text }).spec_id() == id,
        (TurnItem::WebSearch { id, content: text }).spec_id() == id,
        (TurnItem::ImageGeneration { id, content: text }).spec_id() == id,
        (TurnItem::HookPrompt { id, content: text }).spec_id() == id,
        (TurnItem::Other { id, json: text }).spec_id() == id,
        item matches TurnItem::FunctionCallOutput { id: own, .. } ==> item.spec_id() == own,
{
}

} // verus!
