//! Finding what a live session holds and its saved thread does not, and how that is shown.
use crate::ids::ThreadId;
use crate::ids::hyphenated;
use crate::ids::law_thread_id_text_is_plain;
use crate::ids::recovered_name;
use crate::ids::uuid_of_oid_name;
use crate::protocol::EventMsg;
use crate::protocol::FunctionCallOutputBody;
use crate::protocol::ModeKind;
use crate::protocol::ResponseItem;
use crate::protocol::RolloutItem;
use crate::protocol::TurnItem;
use crate::text::among;
use crate::text::ascii;
use crate::text::ascii_bytes;
use crate::text::copy_option;
use crate::text::decimal;
use crate::text::decimal_text;
use crate::text::is_among;
use crate::text::join2;
use crate::text::join3;
use crate::text::lemma_decimal_is_digits;
use crate::text::same_bytes;
use crate::text::same_text;
use vstd::prelude::*;

verus! {

/// How the history of a thread is kept.
#[derive(Clone, Copy, Debug, PartialEq, Eq, Structural)]
pub enum ThreadHistoryMode {
    Legacy,
    Paginated,
}

/// An item of the live history.
#[derive(Clone, Debug, PartialEq, Eq)]
pub struct LiveItem {
    pub item: ResponseItem,
    /// The item in its serialised form: two items are the same if their keys are.
    pub key: Vec<u8>,
    /// How a client shows the item, where it has a form of its own for it.
    pub shown_as: Option<TurnItem>,
}

/// A tool call of the live history.
#[derive(Clone, Debug, PartialEq, Eq)]
pub struct ToolCall {
    pub call_id: String,
    pub name: String,
    pub namespace: Option<String>,
}

/// A recovered item as a client shows it, in the turn that it is shown in.
#[derive(Clone, Debug, PartialEq, Eq)]
pub struct Presentation {
    pub turn_id: String,
    pub item: TurnItem,
}

/// What has to be saved: the items, and how they are shown.
#[derive(Clone, Debug, PartialEq, Eq)]
pub struct Recovery {
    pub presentations: Vec<Presentation>,
    pub recovered: Vec<RolloutItem>,
}

/// A presentation, with the events that older clients show it by.
#[derive(Clone, Debug, PartialEq, Eq)]
pub struct Presented {
    pub turn_id: String,
    pub item: TurnItem,
    /// Events in their serialised form.
    pub legacy_events: Vec<String>,
}

/// How often `key` stands among `keys`.
pub open spec fn count_key(keys: Seq<Vec<u8>>, key: Seq<u8>) -> nat
    decreases keys.len(),
{
    if keys.len() == 0 {
        0
    } else {
        count_key(keys.drop_last(), key) + if keys.last()@ == key {
            1nat
        } else {
            0nat
        }
    }
}

/// The keys of live items.
pub open spec fn live_keys(live: Seq<LiveItem>) -> Seq<Vec<u8>> {
    Seq::new(live.len(), |i: int| live[i].key)
}

/// How many earlier live items have the key of the `i`-th.
pub open spec fn occurrence(live: Seq<LiveItem>, i: int) -> nat {
    count_key(live_keys(live).take(i), live[i].key@)
}

/// Whether the `i`-th live item is missing from the saved ones: the saved items of its key are
/// used up by earlier live items.
pub open spec fn is_unsaved(saved: Seq<Vec<u8>>, live: Seq<LiveItem>, i: int) -> bool {
    occurrence(live, i) >= count_key(saved, live[i].key@)
}

/// The positions of the first `n` live items that are missing from the saved ones.
pub open spec fn unsaved_positions(saved: Seq<Vec<u8>>, live: Seq<LiveItem>, n: nat) -> Seq<int>
    decreases n,
{
    if n == 0 {
        Seq::empty()
    } else {
        let rest = unsaved_positions(saved, live, (n - 1) as nat);
        if is_unsaved(saved, live, n - 1) {
            rest.push(n - 1)
        } else {
            rest
        }
    }
}

/// Whether a client shows an item: as one of the forms that bear an identity of their own, or as
/// the output of a tool.
pub open spec fn is_presentable(live: LiveItem) -> bool {
    match live.shown_as {
        Some(TurnItem::FunctionCallOutput { .. }) => false,
        Some(TurnItem::Other { .. }) => false,
        Some(_) => true,
        None => live.item is FunctionCallOutput || live.item is CustomToolCallOutput,
    }
}

/// The positions of the first `n` live items that are missing and that a client shows.
pub open spec fn presented_positions(saved: Seq<Vec<u8>>, live: Seq<LiveItem>, n: nat) -> Seq<int>
    decreases n,
{
    if n == 0 {
        Seq::empty()
    } else {
        let rest = presented_positions(saved, live, (n - 1) as nat);
        if is_unsaved(saved, live, n - 1) && is_presentable(live[n - 1]) {
            rest.push(n - 1)
        } else {
            rest
        }
    }
}

/// The tool call that an item is, if it is one.
pub open spec fn tool_call_of(item: ResponseItem) -> Option<ToolCall> {
    match item {
        ResponseItem::FunctionCall { call_id, name, namespace, .. } => Some(
            ToolCall { call_id, name, namespace },
        ),
        ResponseItem::CustomToolCall { call_id, name, namespace, .. } => Some(
            ToolCall { call_id, name, namespace },
        ),
        _ => None,
    }
}

/// The tool calls among live items, in order.
pub open spec fn tool_calls_of(live: Seq<LiveItem>) -> Seq<ToolCall>
    decreases live.len(),
{
    if live.len() == 0 {
        Seq::empty()
    } else {
        let rest = tool_calls_of(live.drop_last());
        match tool_call_of(live.last().item) {
            Some(call) => rest.push(call),
            None => rest,
        }
    }
}

/// The latest call with the identity `call_id`.
pub open spec fn latest_call(calls: Seq<ToolCall>, call_id: Seq<char>) -> Option<ToolCall>
    decreases calls.len(),
{
    if calls.len() == 0 {
        None
    } else if calls.last().call_id@ == call_id {
        Some(calls.last())
    } else {
        latest_call(calls.drop_last(), call_id)
    }
}

/// The call identity, name, namespace and output of a tool's output.
pub open spec fn tool_output_of(item: ResponseItem) -> Option<
    (Option<String>, Option<String>, Option<String>, FunctionCallOutputBody),
> {
    match item {
        ResponseItem::FunctionCallOutput { call_id, name, namespace, output, .. } => Some(
            (call_id, name, namespace, output),
        ),
        ResponseItem::CustomToolCallOutput { call_id, name, output, .. } => Some(
            (Some(call_id), name, None, output),
        ),
        _ => None,
    }
}

/// The name and namespace that a tool's output is shown under: its own, else those of its call.
pub open spec fn tool_name(
    call_id: Option<String>,
    name: Option<String>,
    namespace: Option<String>,
    calls: Seq<ToolCall>,
) -> (Seq<char>, Option<String>) {
    match name {
        Some(name) => (name@, namespace),
        None => {
            let call = match call_id {
                Some(id) => latest_call(calls, id@),
                None => None,
            };
            match call {
                Some(call) => (call.name@, call.namespace),
                None => ("Recovered tool output (name unavailable)"@, namespace),
            }
        },
    }
}

/// `shown` is how `response` is shown under the identity `id`: in the form `shown_as` where there
/// is one, else as the output of a tool, whose success is not judged.
pub open spec fn is_shown(
    response: ResponseItem,
    shown_as: Option<TurnItem>,
    id: Seq<char>,
    calls: Seq<ToolCall>,
    shown: TurnItem,
) -> bool {
    &&& shown.spec_id()@ == id
    &&& match shown_as {
        Some(TurnItem::UserMessage { content, .. }) => shown is UserMessage
            && shown->UserMessage_content == content,
        Some(TurnItem::AgentMessage { content, .. }) => shown is AgentMessage
            && shown->AgentMessage_content == content,
        Some(TurnItem::Reasoning { content, .. }) => shown is Reasoning && shown->Reasoning_content
            == content,
        Some(TurnItem::WebSearch { content, .. }) => shown is WebSearch && shown->WebSearch_content
            == content,
        Some(TurnItem::ImageGeneration { content, .. }) => shown is ImageGeneration
            && shown->ImageGeneration_content == content,
        Some(TurnItem::HookPrompt { content, .. }) => shown is HookPrompt
            && shown->HookPrompt_content == content,
        Some(_) => false,
        None => match tool_output_of(response) {
            Some((call_id, name, namespace, output)) => {
                let named = tool_name(call_id, name, namespace, calls);
                &&& shown is FunctionCallOutput
                &&& shown->FunctionCallOutput_name@ == named.0
                &&& shown->FunctionCallOutput_namespace == named.1
                &&& shown->FunctionCallOutput_output == output
            },
            None => false,
        },
    }
}

/// Finds the latest call with the identity `call_id`.
fn find_call<'a>(calls: &'a Vec<ToolCall>, call_id: &str) -> (res: Option<&'a ToolCall>)
    ensures
        match res {
            Some(call) => latest_call(calls@, call_id@) == Some(*call),
            None => latest_call(calls@, call_id@) is None,
        },
{
    let mut i: usize = calls.len();
    assert(calls@.take(calls.len() as int) =~= calls@);
    while i > 0
        invariant
            i <= calls.len(),
            latest_call(calls@, call_id@) == latest_call(calls@.take(i as int), call_id@),
        decreases i,
    {
        assert(calls@.take(i as int).drop_last() =~= calls@.take(i - 1));
        assert(calls@.take(i as int).last() == calls@[i - 1]);
        i = i - 1;
        if same_text(calls[i].call_id.as_str(), call_id) {
            return Some(&calls[i]);
        }
    }
    None
}

fn name_tool(
    call_id: &Option<String>,
    name: &Option<String>,
    namespace: &Option<String>,
    calls: &Vec<ToolCall>,
) -> (res: (String, Option<String>))
    ensures
        res.0@ == tool_name(*call_id, *name, *namespace, calls@).0,
        res.1 == tool_name(*call_id, *name, *namespace, calls@).1,
{
    match name {
        Some(name) => (name.clone(), copy_option(namespace)),
        None => {
            let call: Option<&ToolCall> = match call_id {
                Some(id) => find_call(calls, id.as_str()),
                None => None,
            };
            match call {
                Some(call) => (call.name.clone(), copy_option(&call.namespace)),
                None => (
                    "Recovered tool output (name unavailable)".to_owned(),
                    copy_option(namespace),
                ),
            }
        },
    }
}

/// How an item is shown under the identity `id`, if it is shown at all. Turn completion and tool
/// success are not inferred.
pub fn recovery_turn_item(
    response: &ResponseItem,
    shown_as: Option<TurnItem>,
    id: String,
    tool_calls: &Vec<ToolCall>,
) -> (res: Option<TurnItem>)
    ensures
        res is Some <==> match shown_as {
            Some(TurnItem::FunctionCallOutput { .. }) => false,
            Some(TurnItem::Other { .. }) => false,
            Some(_) => true,
            None => tool_output_of(*response) is Some,
        },
        res is Some ==> is_shown(*response, shown_as, id@, tool_calls@, res->Some_0),
{
    match shown_as {
        Some(TurnItem::UserMessage { content, .. }) => Some(TurnItem::UserMessage { id, content }),
        Some(TurnItem::AgentMessage { content, .. }) => Some(
            TurnItem::AgentMessage { id, content },
        ),
        Some(TurnItem::Reasoning { content, .. }) => Some(TurnItem::Reasoning { id, content }),
        Some(TurnItem::WebSearch { content, .. }) => Some(TurnItem::WebSearch { id, content }),
        Some(TurnItem::ImageGeneration { content, .. }) => Some(
            TurnItem::ImageGeneration { id, content },
        ),
        Some(TurnItem::HookPrompt { content, .. }) => Some(TurnItem::HookPrompt { id, content }),
        Some(_) => None,
        None => match response {
            ResponseItem::FunctionCallOutput { call_id, name, namespace, output, .. } => {
                let (name, namespace) = name_tool(call_id, name, namespace, tool_calls);
                Some(TurnItem::FunctionCallOutput { id, name, namespace, output: output.copy() })
            },
            ResponseItem::CustomToolCallOutput { call_id, name, output, .. } => {
                let call_id: Option<String> = Some(call_id.clone());
                let (name, namespace) = name_tool(&call_id, name, &None, tool_calls);
                Some(TurnItem::FunctionCallOutput { id, name, namespace, output: output.copy() })
            },
            _ => None,
        },
    }
}

/// What the identity of an item without one is made from, before the item's key.
pub open spec fn identity_seed(thread_id: ThreadId, occurrence: nat) -> Seq<char> {
    thread_id.text() + ":"@ + (decimal(occurrence) + ":"@)
}

/// The identity under which a recovered item is shown: its own, or one that depends only on the
/// thread, the item's key, and how many equal items come before it.
pub open spec fn shown_id(
    thread_id: ThreadId,
    item: ResponseItem,
    occurrence: nat,
    key: Seq<u8>,
) -> Seq<char> {
    match item.spec_id() {
        Some(id) => id@,
        None => "recovered-"@ + hyphenated(
            uuid_of_oid_name(ascii(identity_seed(thread_id, occurrence)) + key),
        ),
    }
}

fn make_shown_id(
    thread_id: ThreadId,
    item: &ResponseItem,
    occurrence: usize,
    key: &Vec<u8>,
) -> (res: String)
    ensures
        res@ == shown_id(thread_id, *item, occurrence as nat, key@),
{
    match item.id() {
        Some(id) => id.clone(),
        None => {
            let tail: String = join2(decimal_text(occurrence as u64).as_str(), ":");
            let seed: String = join3(thread_id.to_text().as_str(), ":", tail.as_str());
            proof {
                reveal_strlit(":");
                law_thread_id_text_is_plain(thread_id);
                lemma_decimal_is_digits(occurrence as nat);
                assert forall|i: int| 0 <= i < seed@.len() implies (#[trigger] seed@[i] as u32)
                    < 128 by {
                    let head = thread_id.text();
                    let digits = decimal(occurrence as nat);
                    if i < head.len() {
                        assert(seed@[i] == head[i]);
                    } else if i == head.len() {
                        assert(seed@[i] == ':');
                    } else if i < head.len() + 1 + digits.len() {
                        assert(seed@[i] == digits[i - head.len() - 1]);
                    } else {
                        assert(seed@[i] == ':');
                    }
                }
            }
            let mut name: Vec<u8> = ascii_bytes(seed.as_str());
            append_bytes(&mut name, key);
            recovered_name(&name)
        },
    }
}

fn append_bytes(bytes: &mut Vec<u8>, more: &Vec<u8>)
    ensures
        final(bytes)@ == old(bytes)@ + more@,
{
    let ghost before = bytes@;
    let mut i: usize = 0;
    while i < more.len()
        invariant
            i <= more.len(),
            bytes@ == before + more@.take(i as int),
        decreases more.len() - i,
    {
        bytes.push(more[i]);
        assert(bytes@ =~= before + more@.take(i + 1));
        i = i + 1;
    }
    assert(more@.take(more.len() as int) =~= more@);
}

/// The turn in which recovered items are shown whose own turn is not known.
pub open spec fn recovery_turn(thread_id: ThreadId) -> Seq<char> {
    "recovered-"@ + thread_id.text()
}

/// The turn in which an item is shown. A legacy history has one turn for all that is recovered.
pub open spec fn shown_turn(
    thread_id: ThreadId,
    mode: ThreadHistoryMode,
    item: ResponseItem,
) -> Seq<char> {
    match (mode, item.spec_turn_id()) {
        (ThreadHistoryMode::Paginated, Some(turn_id)) => turn_id@,
        _ => recovery_turn(thread_id),
    }
}

fn make_shown_turn(thread_id: ThreadId, mode: ThreadHistoryMode, item: &ResponseItem) -> (res: String)
    ensures
        res@ == shown_turn(thread_id, mode, *item),
{
    match (mode, item.turn_id()) {
        (ThreadHistoryMode::Paginated, Some(turn_id)) => turn_id.clone(),
        _ => join2("recovered-", thread_id.to_text().as_str()),
    }
}

/// Counts `key` among `keys`.
fn count(keys: &Vec<Vec<u8>>, key: &Vec<u8>) -> (res: usize)
    ensures
        res == count_key(keys@, key@),
{
    let mut found: usize = 0;
    let mut i: usize = 0;
    while i < keys.len()
        invariant
            i <= keys.len(),
            found == count_key(keys@.take(i as int), key@),
            found <= i,
        decreases keys.len() - i,
    {
        assert(keys@.take(i + 1).drop_last() =~= keys@.take(i as int));
        if same_bytes(&keys[i], key) {
            found = found + 1;
        }
        i = i + 1;
    }
    assert(keys@.take(keys.len() as int) =~= keys@);
    found
}

/// Collects the tool calls among live items.
fn collect_tool_calls(live: &Vec<LiveItem>) -> (res: Vec<ToolCall>)
    ensures
        res@ == tool_calls_of(live@),
{
    let mut calls: Vec<ToolCall> = Vec::new();
    let mut i: usize = 0;
    while i < live.len()
        invariant
            i <= live.len(),
            calls@ == tool_calls_of(live@.take(i as int)),
        decreases live.len() - i,
    {
        assert(live@.take(i + 1).drop_last() =~= live@.take(i as int));
        assert(live@.take(i + 1).last() == live@[i as int]);
        match &live[i].item {
            ResponseItem::FunctionCall { call_id, name, namespace, .. } => {
                calls.push(
                    ToolCall {
                        call_id: call_id.clone(),
                        name: name.clone(),
                        namespace: copy_option(namespace),
                    },
                );
            },
            ResponseItem::CustomToolCall { call_id, name, namespace, .. } => {
                calls.push(
                    ToolCall {
                        call_id: call_id.clone(),
                        name: name.clone(),
                        namespace: copy_option(namespace),
                    },
                );
            },
            _ => {},
        }
        i = i + 1;
    }
    assert(live@.take(live.len() as int) =~= live@);
    calls
}

/// `presentations` shows, in order, the live items at `positions`.
pub open spec fn presents(
    thread_id: ThreadId,
    mode: ThreadHistoryMode,
    live: Seq<LiveItem>,
    positions: Seq<int>,
    presentations: Seq<Presentation>,
) -> bool {
    &&& presentations.len() == positions.len()
    &&& forall|k: int|
        0 <= k < positions.len() ==> {
            let at = #[trigger] positions[k];
            &&& presentations[k].turn_id@ == shown_turn(thread_id, mode, live[at].item)
            &&& is_shown(
                live[at].item,
                live[at].shown_as,
                shown_id(thread_id, live[at].item, occurrence(live, at), live[at].key@),
                tool_calls_of(live),
                presentations[k].item,
            )
        }
}

/// `recovered` are, in order, the live items at `positions`.
pub open spec fn are_items_at(
    live: Seq<LiveItem>,
    positions: Seq<int>,
    recovered: Seq<RolloutItem>,
) -> bool {
    &&& recovered.len() == positions.len()
    &&& forall|k: int|
        0 <= k < positions.len() ==> recovered[k] == RolloutItem::ResponseItem(
            live[#[trigger] positions[k]].item,
        )
}

/// `recovery` is what a saved history with the keys `saved` lacks of the live one: the missing
/// items in the order of the live history, and how they are shown.
pub open spec fn is_recovery(
    thread_id: ThreadId,
    mode: ThreadHistoryMode,
    saved: Seq<Vec<u8>>,
    live: Seq<LiveItem>,
    recovery: Recovery,
) -> bool {
    &&& are_items_at(live, unsaved_positions(saved, live, live.len()), recovery.recovered@)
    &&& presents(
        thread_id,
        mode,
        live,
        presented_positions(saved, live, live.len()),
        recovery.presentations@,
    )
}

/// Compares a live history with the keys of a saved one. What the saved one lacks is recovered,
/// as often as it lacks it and in the order of the live history, together with how it is shown.
pub fn recover(
    thread_id: ThreadId,
    mode: ThreadHistoryMode,
    saved: &Vec<Vec<u8>>,
    live: Vec<LiveItem>,
) -> (res: Recovery)
    ensures
        is_recovery(thread_id, mode, saved@, live@, res),
{
    let ghost all = live@;
    let calls: Vec<ToolCall> = collect_tool_calls(&live);
    let mut rest: Vec<LiveItem> = live;
    let mut seen: Vec<Vec<u8>> = Vec::new();
    let mut presentations: Vec<Presentation> = Vec::new();
    let mut recovered: Vec<RolloutItem> = Vec::new();
    assert(seen@ =~= live_keys(all).take(0));
    while rest.len() > 0
        invariant
            calls@ == tool_calls_of(all),
            seen@.len() + rest@.len() == all.len(),
            rest@ == all.skip(seen@.len() as int),
            seen@ == live_keys(all).take(seen@.len() as int),
            are_items_at(all, unsaved_positions(saved@, all, seen@.len()), recovered@),
            presents(
                thread_id,
                mode,
                all,
                presented_positions(saved@, all, seen@.len()),
                presentations@,
            ),
        decreases rest.len(),
    {
        let ghost at = seen@.len() as int;
        let live_item: LiveItem = rest.remove(0);
        assert(live_item == all[at]);
        let occurrence_here: usize = count(&seen, &live_item.key);
        assert(occurrence_here == occurrence(all, at));
        let saved_here: usize = count(saved, &live_item.key);
        let ghost unsaved_before = unsaved_positions(saved@, all, at as nat);
        let ghost presented_before = presented_positions(saved@, all, at as nat);
        if occurrence_here >= saved_here {
            let id: String = make_shown_id(
                thread_id,
                &live_item.item,
                occurrence_here,
                &live_item.key,
            );
            let shown: Option<TurnItem> = recovery_turn_item(
                &live_item.item,
                live_item.shown_as,
                id,
                &calls,
            );
            if let Some(item) = shown {
                let turn_id: String = make_shown_turn(thread_id, mode, &live_item.item);
                presentations.push(Presentation { turn_id, item });
                assert(presented_positions(saved@, all, (at + 1) as nat) == presented_before.push(
                    at,
                ));
            } else {
                assert(presented_positions(saved@, all, (at + 1) as nat) == presented_before);
            }
            recovered.push(RolloutItem::ResponseItem(live_item.item));
            assert(unsaved_positions(saved@, all, (at + 1) as nat) == unsaved_before.push(at));
        } else {
            assert(presented_positions(saved@, all, (at + 1) as nat) == presented_before);
            assert(unsaved_positions(saved@, all, (at + 1) as nat) == unsaved_before);
        }
        seen.push(live_item.key);
        assert(seen@ =~= live_keys(all).take(at + 1));
        assert(rest@ =~= all.skip(at + 1));
    }
    Recovery { presentations, recovered }
}

/// How many of `positions` have the key `key`.
pub open spec fn count_at(live: Seq<LiveItem>, positions: Seq<int>, key: Seq<u8>) -> nat
    decreases positions.len(),
{
    if positions.len() == 0 {
        0
    } else {
        count_at(live, positions.drop_last(), key) + if live[positions.last()].key@ == key {
            1nat
        } else {
            0nat
        }
    }
}

proof fn lemma_unsaved_count(saved: Seq<Vec<u8>>, live: Seq<LiveItem>, key: Seq<u8>, n: nat)
    requires
        n <= live.len(),
    ensures
        ({
            let held = count_key(live_keys(live).take(n as int), key);
            let kept = count_key(saved, key);
            count_at(live, unsaved_positions(saved, live, n), key) == if held > kept {
                (held - kept) as nat
            } else {
                0
            }
        }),
    decreases n,
{
    if n > 0 {
        lemma_unsaved_count(saved, live, key, (n - 1) as nat);
        let keys = live_keys(live);
        assert(keys.take(n as int).drop_last() =~= keys.take(n - 1));
        assert(keys.take(n as int).last() == live[n - 1].key);
        let before = unsaved_positions(saved, live, (n - 1) as nat);
        assert(before.push(n - 1).drop_last() =~= before);
    } else {
        assert(live_keys(live).take(0) =~= Seq::empty());
    }
}

/// Recovery keeps multiplicity: of items that are alike, exactly as many are recovered as the
/// live history holds more of than the saved one.
pub proof fn law_recovery_keeps_multiplicity(
    saved: Seq<Vec<u8>>,
    live: Seq<LiveItem>,
    key: Seq<u8>,
)
    ensures
        ({
            let held = count_key(live_keys(live), key);
            let kept = count_key(saved, key);
            count_at(live, unsaved_positions(saved, live, live.len()), key) == if held > kept {
                (held - kept) as nat
            } else {
                0
            }
        }),
{
    lemma_unsaved_count(saved, live, key, live.len());
    assert(live_keys(live).take(live.len() as int) =~= live_keys(live));
}

proof fn lemma_positions_ordered(saved: Seq<Vec<u8>>, live: Seq<LiveItem>, n: nat)
    requires
        n <= live.len(),
    ensures
        forall|i: int|
            0 <= i < unsaved_positions(saved, live, n).len() ==> 0 <= #[trigger] unsaved_positions(
                saved,
                live,
                n,
            )[i] < n,
        forall|i: int, j: int|
            0 <= i < j < unsaved_positions(saved, live, n).len() ==> #[trigger] unsaved_positions(
                saved,
                live,
                n,
            )[i] < #[trigger] unsaved_positions(saved, live, n)[j],
    decreases n,
{
    if n > 0 {
        lemma_positions_ordered(saved, live, (n - 1) as nat);
        let head = unsaved_positions(saved, live, (n - 1) as nat);
        let all = unsaved_positions(saved, live, n);
        assert forall|i: int| 0 <= i < all.len() implies 0 <= #[trigger] all[i] < n by {
            if i < head.len() {
                assert(all[i] == head[i]);
            }
        }
        assert forall|i: int, j: int| 0 <= i < j < all.len() implies #[trigger] all[i]
            < #[trigger] all[j] by {
            assert(all[i] == head[i]);
            if j < head.len() {
                assert(all[j] == head[j]);
            }
        }
    }
}

/// Recovered items keep the order of the live history, and none is recovered twice.
pub proof fn law_recovery_keeps_order(saved: Seq<Vec<u8>>, live: Seq<LiveItem>, i: int, j: int)
    requires
        0 <= i < j < unsaved_positions(saved, live, live.len()).len(),
    ensures
        0 <= unsaved_positions(saved, live, live.len())[i] < unsaved_positions(
            saved,
            live,
            live.len(),
        )[j] < live.len(),
{
    lemma_positions_ordered(saved, live, live.len());
}

proof fn lemma_nothing_unsaved(saved: Seq<Vec<u8>>, live: Seq<LiveItem>, n: nat)
    requires
        n <= live.len(),
        forall|key: Seq<u8>|
            #[trigger] count_key(saved, key) >= count_key(live_keys(live), key),
    ensures
        unsaved_positions(saved, live, n).len() == 0,
    decreases n,
{
    if n > 0 {
        lemma_nothing_unsaved(saved, live, (n - 1) as nat);
        let key = live[n - 1].key@;
        let keys = live_keys(live);
        lemma_count_prefix(keys, n as int, key);
        assert(keys.take(n as int).drop_last() =~= keys.take(n - 1));
        assert(keys.take(n as int).last() == live[n - 1].key);
        assert(count_key(saved, key) >= count_key(keys, key));
    }
}

proof fn lemma_count_prefix(keys: Seq<Vec<u8>>, n: int, key: Seq<u8>)
    requires
        0 <= n <= keys.len(),
    ensures
        count_key(keys.take(n), key) <= count_key(keys, key),
    decreases keys.len() - n,
{
    if n < keys.len() {
        lemma_count_prefix(keys, n + 1, key);
        assert(keys.take(n + 1).drop_last() =~= keys.take(n));
    } else {
        assert(keys.take(n) =~= keys);
    }
}

/// Once the saved history holds every item as often as the live one, a further attempt recovers
/// nothing: what an earlier attempt has saved is not saved again.
pub proof fn law_recovery_of_a_saved_history_is_empty(saved: Seq<Vec<u8>>, live: Seq<LiveItem>)
    requires
        forall|key: Seq<u8>|
            #[trigger] count_key(saved, key) >= count_key(live_keys(live), key),
    ensures
        unsaved_positions(saved, live, live.len()).len() == 0,
{
    lemma_nothing_unsaved(saved, live, live.len());
}

/// The keys of the live items at `positions`.
pub open spec fn keys_at(live: Seq<LiveItem>, positions: Seq<int>) -> Seq<Vec<u8>> {
    Seq::new(positions.len(), |k: int| live[positions[k]].key)
}

proof fn lemma_count_keys_at(live: Seq<LiveItem>, positions: Seq<int>, key: Seq<u8>)
    ensures
        count_key(keys_at(live, positions), key) == count_at(live, positions, key),
    decreases positions.len(),
{
    if positions.len() > 0 {
        let head = positions.drop_last();
        lemma_count_keys_at(live, head, key);
        assert(keys_at(live, positions).drop_last() =~= keys_at(live, head));
        assert(keys_at(live, positions).last() == live[positions.last()].key);
    }
}

proof fn lemma_count_concat(a: Seq<Vec<u8>>, b: Seq<Vec<u8>>, key: Seq<u8>)
    ensures
        count_key(a + b, key) == count_key(a, key) + count_key(b, key),
    decreases b.len(),
{
    if b.len() == 0 {
        assert(a + b =~= a);
    } else {
        assert((a + b).drop_last() =~= a + b.drop_last());
        assert((a + b).last() == b.last());
        lemma_count_concat(a, b.drop_last(), key);
    }
}

/// Once what was recovered has been saved, a further attempt recovers nothing.
pub proof fn law_recovered_items_are_not_recovered_again(
    saved: Seq<Vec<u8>>,
    live: Seq<LiveItem>,
)
    ensures
        ({
            let recovered = keys_at(live, unsaved_positions(saved, live, live.len()));
            unsaved_positions(saved + recovered, live, live.len()).len() == 0
        }),
{
    let positions = unsaved_positions(saved, live, live.len());
    let recovered = keys_at(live, positions);
    assert forall|key: Seq<u8>|
        #[trigger] count_key(saved + recovered, key) >= count_key(live_keys(live), key) by {
        law_recovery_keeps_multiplicity(saved, live, key);
        lemma_count_keys_at(live, positions, key);
        lemma_count_concat(saved, recovered, key);
    }
    law_recovery_of_a_saved_history_is_empty(saved + recovered, live);
}

/// Whether a turn is known to exist before the `n`-th item is presented.
pub open spec fn turn_known(
    existing: Seq<String>,
    presented: Seq<Presented>,
    n: int,
    turn_id: Seq<char>,
) -> bool {
    among(existing, turn_id) || exists|j: int|
        0 <= j < n && #[trigger] presented[j].turn_id@ == turn_id
}

/// Serialised events as records.
pub open spec fn legacy_records(events: Seq<String>) -> Seq<RolloutItem> {
    Seq::new(events.len(), |i: int| RolloutItem::EventMsg(EventMsg::Other { json: events[i] }))
}

/// The record of a turn's start, of which nothing is known but the turn.
pub open spec fn start_record(turn_id: String) -> RolloutItem {
    RolloutItem::EventMsg(
        EventMsg::TurnStarted {
            turn_id,
            root_turn_id: None,
            trace_id: None,
            started_at: None,
            model_context_window: None,
            collaboration_mode_kind: ModeKind::Default,
        },
    )
}

/// The records of one presentation: the start of its turn where that is not known, the events for
/// older clients where the history is legacy, and its completion.
pub open spec fn presentation_records(
    thread_id: ThreadId,
    mode: ThreadHistoryMode,
    starts_turn: bool,
    presented: Presented,
    now_ms: i64,
) -> Seq<RolloutItem> {
    let start = if starts_turn {
        seq![start_record(presented.turn_id)]
    } else {
        Seq::empty()
    };
    let legacy = if mode == ThreadHistoryMode::Legacy {
        legacy_records(presented.legacy_events@)
    } else {
        Seq::empty()
    };
    (start + legacy).push(
        RolloutItem::EventMsg(
            EventMsg::ItemCompleted {
                thread_id,
                turn_id: presented.turn_id,
                item: presented.item,
                started_at_ms: None,
                completed_at_ms: now_ms,
            },
        ),
    )
}

/// The records of all presentations, in order.
pub open spec fn all_presentation_records(
    thread_id: ThreadId,
    mode: ThreadHistoryMode,
    existing: Seq<String>,
    presented: Seq<Presented>,
    now_ms: i64,
    n: nat,
) -> Seq<RolloutItem>
    decreases n,
{
    if n == 0 {
        Seq::empty()
    } else {
        all_presentation_records(thread_id, mode, existing, presented, now_ms, (n - 1) as nat)
            + presentation_records(
            thread_id,
            mode,
            !turn_known(existing, presented, n - 1, presented[n - 1].turn_id@),
            presented[n - 1],
            now_ms,
        )
    }
}

/// The turns that `saved` records the start of, in order.
pub open spec fn started_turns(saved: Seq<RolloutItem>) -> Seq<String>
    decreases saved.len(),
{
    if saved.len() == 0 {
        Seq::empty()
    } else {
        let rest = started_turns(saved.drop_last());
        match saved.last() {
            RolloutItem::EventMsg(EventMsg::TurnStarted { turn_id, .. }) => rest.push(turn_id),
            _ => rest,
        }
    }
}

/// The turns that saved records record the start of.
pub fn existing_turns(saved: &Vec<RolloutItem>) -> (res: Vec<String>)
    ensures
        res@ == started_turns(saved@),
{
    let mut turns: Vec<String> = Vec::new();
    let mut i: usize = 0;
    while i < saved.len()
        invariant
            i <= saved.len(),
            turns@ == started_turns(saved@.take(i as int)),
        decreases saved.len() - i,
    {
        assert(saved@.take(i + 1).drop_last() =~= saved@.take(i as int));
        assert(saved@.take(i + 1).last() == saved@[i as int]);
        if let RolloutItem::EventMsg(EventMsg::TurnStarted { turn_id, .. }) = &saved[i] {
            turns.push(turn_id.clone());
        }
        i = i + 1;
    }
    assert(saved@.take(saved.len() as int) =~= saved@);
    turns
}

/// The turns that the first `n` presentations belong to, each once, in the order in which they
/// come up.
pub open spec fn distinct_turns(presentations: Seq<Presentation>, n: nat) -> Seq<String>
    decreases n,
{
    if n == 0 {
        Seq::empty()
    } else {
        let rest = distinct_turns(presentations, (n - 1) as nat);
        if among(rest, presentations[n - 1].turn_id@) {
            rest
        } else {
            rest.push(presentations[n - 1].turn_id)
        }
    }
}

/// The turns that presentations belong to, each once.
pub fn presented_turn_ids(presentations: &Vec<Presentation>) -> (res: Vec<String>)
    ensures
        res@ == distinct_turns(presentations@, presentations@.len()),
        forall|id: Seq<char>|
            #[trigger] among(res@, id) <==> exists|i: int|
                0 <= i < presentations@.len() && #[trigger] presentations@[i].turn_id@ == id,
        forall|i: int, j: int|
            0 <= i < j < res@.len() ==> #[trigger] res@[i]@ != #[trigger] res@[j]@,
{
    let mut ids: Vec<String> = Vec::new();
    let mut i: usize = 0;
    while i < presentations.len()
        invariant
            i <= presentations.len(),
            ids@ == distinct_turns(presentations@, i as nat),
            forall|id: Seq<char>|
                #[trigger] among(ids@, id) <==> exists|k: int|
                    0 <= k < i && #[trigger] presentations@[k].turn_id@ == id,
            forall|a: int, b: int|
                0 <= a < b < ids@.len() ==> #[trigger] ids@[a]@ != #[trigger] ids@[b]@,
        decreases presentations.len() - i,
    {
        let ghost before = ids@;
        let known: bool = is_among(&ids, presentations[i].turn_id.as_str());
        if !known {
            ids.push(presentations[i].turn_id.clone());
            proof {
                lemma_among_push(before, presentations@[i as int].turn_id);
            }
        }
        proof {
            let here = presentations@[i as int].turn_id@;
            assert forall|id: Seq<char>| #[trigger] among(ids@, id) <==> exists|k: int|
                0 <= k < i + 1 && #[trigger] presentations@[k].turn_id@ == id by {
                if among(ids@, id) && !among(before, id) {
                    assert(presentations@[i as int].turn_id@ == id);
                }
                if exists|k: int| 0 <= k < i + 1 && #[trigger] presentations@[k].turn_id@ == id {
                    let k = choose|k: int|
                        0 <= k < i + 1 && #[trigger] presentations@[k].turn_id@ == id;
                    if k < i {
                        assert(among(before, id));
                    } else {
                        assert(among(ids@, here));
                    }
                }
            }
        }
        i = i + 1;
    }
    ids
}

proof fn lemma_among_push(ids: Seq<String>, id: String)
    ensures
        forall|other: Seq<char>|
            #[trigger] among(ids.push(id), other) <==> among(ids, other) || other == id@,
{
    assert forall|other: Seq<char>| #[trigger] among(ids.push(id), other) <==> among(ids, other)
        || other == id@ by {
        let all = ids.push(id);
        if among(all, other) {
            let k = choose|k: int| 0 <= k < all.len() && #[trigger] all[k]@ == other;
            if k < ids.len() {
                assert(ids[k]@ == other);
            }
        }
        if among(ids, other) {
            let k = choose|k: int| 0 <= k < ids.len() && #[trigger] ids[k]@ == other;
            assert(all[k]@ == other);
        }
        assert(all[ids.len() as int] == id);
    }
}

/// Presentations, each with the events that older clients show it by.
pub open spec fn with_legacy_events(
    presentations: Seq<Presentation>,
    legacy_events: Seq<Vec<String>>,
) -> Seq<Presented> {
    Seq::new(
        presentations.len(),
        |i: int|
            Presented {
                turn_id: presentations[i].turn_id,
                item: presentations[i].item,
                legacy_events: legacy_events[i],
            },
    )
}

/// Adds to each presentation the events that older clients show it by.
pub fn add_legacy_events(
    presentations: Vec<Presentation>,
    legacy_events: Vec<Vec<String>>,
) -> (res: Vec<Presented>)
    requires
        presentations@.len() == legacy_events@.len(),
    ensures
        res@ == with_legacy_events(presentations@, legacy_events@),
{
    let ghost all = with_legacy_events(presentations@, legacy_events@);
    let ghost shown = presentations@;
    let ghost legacy = legacy_events@;
    let mut presentations = presentations;
    let mut legacy_events = legacy_events;
    let mut res: Vec<Presented> = Vec::new();
    while presentations.len() > 0
        invariant
            all == with_legacy_events(shown, legacy),
            shown.len() == legacy.len(),
            res@.len() + presentations@.len() == shown.len(),
            presentations@ == shown.skip(res@.len() as int),
            legacy_events@ == legacy.skip(res@.len() as int),
            res@ == all.take(res@.len() as int),
        decreases presentations.len(),
    {
        let next: Presentation = presentations.remove(0);
        let events: Vec<String> = legacy_events.remove(0);
        res.push(Presented { turn_id: next.turn_id, item: next.item, legacy_events: events });
        assert(res@ =~= all.take(res@.len() as int));
    }
    assert(res@ =~= all);
    res
}

/// Turns serialised events into records.
fn into_legacy_records(events: Vec<String>) -> (res: Vec<RolloutItem>)
    ensures
        res@ == legacy_records(events@),
{
    let ghost all = events@;
    let mut events = events;
    let mut res: Vec<RolloutItem> = Vec::new();
    while events.len() > 0
        invariant
            res@.len() + events@.len() == all.len(),
            events@ == all.skip(res@.len() as int),
            res@ == legacy_records(all).take(res@.len() as int),
        decreases events.len(),
    {
        let json: String = events.remove(0);
        res.push(RolloutItem::EventMsg(EventMsg::Other { json }));
    }
    assert(res@ =~= legacy_records(all));
    res
}

/// Turns presentations into records. The start of a turn is recorded once, and only where the
/// turn does not exist yet; completion is dated to the recovery, as the real time is not known.
pub fn presentation_items(
    thread_id: ThreadId,
    mode: ThreadHistoryMode,
    existing: Vec<String>,
    presented: Vec<Presented>,
    now_ms: i64,
) -> (res: Vec<RolloutItem>)
    ensures
        res@ == all_presentation_records(
            thread_id,
            mode,
            existing@,
            presented@,
            now_ms,
            presented@.len(),
        ),
{
    let ghost all = presented@;
    let ghost first = existing@;
    let mut existing = existing;
    let mut rest: Vec<Presented> = presented;
    let mut items: Vec<RolloutItem> = Vec::new();
    let ghost mut n: int = 0;
    assert(rest@ =~= all.skip(0));
    while rest.len() > 0
        invariant
            0 <= n <= all.len(),
            rest@ == all.skip(n),
            items@ == all_presentation_records(thread_id, mode, first, all, now_ms, n as nat),
            forall|id: Seq<char>|
                #[trigger] among(existing@, id) <==> turn_known(first, all, n, id),
        decreases rest.len(),
    {
        let ghost before = existing@;
        let ghost done = items@;
        let next: Presented = rest.remove(0);
        assert(next == all[n]);
        let starts_turn: bool = !is_among(&existing, next.turn_id.as_str());
        assert(starts_turn == !turn_known(first, all, n, all[n].turn_id@));
        let mut records: Vec<RolloutItem> = Vec::new();
        if starts_turn {
            existing.push(next.turn_id.clone());
            records.push(
                RolloutItem::EventMsg(
                    EventMsg::TurnStarted {
                        turn_id: next.turn_id.clone(),
                        root_turn_id: None,
                        trace_id: None,
                        started_at: None,
                        model_context_window: None,
                        collaboration_mode_kind: ModeKind::Default,
                    },
                ),
            );
            proof {
                lemma_among_push(before, next.turn_id);
            }
        }
        if mode == ThreadHistoryMode::Legacy {
            let mut legacy: Vec<RolloutItem> = into_legacy_records(next.legacy_events);
            records.append(&mut legacy);
        }
        records.push(
            RolloutItem::EventMsg(
                EventMsg::ItemCompleted {
                    thread_id,
                    turn_id: next.turn_id,
                    item: next.item,
                    started_at_ms: None,
                    completed_at_ms: now_ms,
                },
            ),
        );
        assert(records@ =~= presentation_records(thread_id, mode, starts_turn, all[n], now_ms));
        items.append(&mut records);
        proof {
            assert forall|id: Seq<char>| #[trigger] among(existing@, id) <==> turn_known(
                first,
                all,
                n + 1,
                id,
            ) by {
                if turn_known(first, all, n, id) || id == all[n].turn_id@ {
                    if !among(first, id) && id != all[n].turn_id@ {
                        let j = choose|j: int| 0 <= j < n && #[trigger] all[j].turn_id@ == id;
                        assert(0 <= j < n + 1);
                    }
                    assert(turn_known(first, all, n + 1, id));
                }
                if turn_known(first, all, n + 1, id) && !among(first, id) {
                    let j = choose|j: int| 0 <= j < n + 1 && #[trigger] all[j].turn_id@ == id;
                    if j < n {
                        assert(turn_known(first, all, n, id));
                    }
                }
            }
            assert(rest@ =~= all.skip(n + 1));
            n = n + 1;
        }
    }
    items
}

/// What is appended to a saved thread: what clients show, then the items themselves, then the
/// checkpoint.
pub open spec fn batch_of(
    presentation: Seq<RolloutItem>,
    recovered: Seq<RolloutItem>,
    checkpoint: Seq<RolloutItem>,
) -> Seq<RolloutItem> {
    presentation + recovered + checkpoint
}

/// What is appended to a saved thread: what clients show before the items themselves, so that an
/// item that was saved in part of the batch has been shown; then the checkpoint.
pub fn recovery_batch(
    presentation: Vec<RolloutItem>,
    recovered: Vec<RolloutItem>,
    checkpoint: Vec<RolloutItem>,
) -> (res: Vec<RolloutItem>)
    ensures
        res@ == batch_of(presentation@, recovered@, checkpoint@),
{
    let mut batch = presentation;
    let mut recovered = recovered;
    let mut checkpoint = checkpoint;
    batch.append(&mut recovered);
    batch.append(&mut checkpoint);
    batch
}

/// The turns that exist already: those that were looked up, else those that `saved` records the
/// start of.
pub open spec fn known_turns(looked_up: Option<Vec<String>>, saved: Seq<RolloutItem>) -> Seq<
    String,
> {
    match looked_up {
        Some(turns) => turns@,
        None => started_turns(saved),
    }
}

/// What a restoration appends to a saved thread.
pub open spec fn restored(
    thread_id: ThreadId,
    mode: ThreadHistoryMode,
    existing: Seq<String>,
    presented: Seq<Presented>,
    recovered: Seq<RolloutItem>,
    checkpoint: Seq<RolloutItem>,
    now_ms: i64,
) -> Seq<RolloutItem> {
    batch_of(
        all_presentation_records(thread_id, mode, existing, presented, now_ms, presented.len()),
        recovered,
        checkpoint,
    )
}

/// What a restoration appends to a saved thread, given the turns that were looked up, where they
/// were.
pub fn restored_batch(
    thread_id: ThreadId,
    mode: ThreadHistoryMode,
    looked_up: Option<Vec<String>>,
    saved: &Vec<RolloutItem>,
    presented: Vec<Presented>,
    recovered: Vec<RolloutItem>,
    checkpoint: Vec<RolloutItem>,
    now_ms: i64,
) -> (res: Vec<RolloutItem>)
    ensures
        res@ == restored(
            thread_id,
            mode,
            known_turns(looked_up, saved@),
            presented@,
            recovered@,
            checkpoint@,
            now_ms,
        ),
{
    let existing: Vec<String> = match looked_up {
        Some(turns) => turns,
        None => existing_turns(saved),
    };
    let shown: Vec<RolloutItem> = presentation_items(
        thread_id,
        mode,
        existing,
        presented,
        now_ms,
    );
    recovery_batch(shown, recovered, checkpoint)
}

/// Whether `record` is the start of the turn `turn_id`.
pub open spec fn starts(record: RolloutItem, turn_id: Seq<char>) -> bool {
    record matches RolloutItem::EventMsg(EventMsg::TurnStarted { turn_id: id, .. }) && id@
        == turn_id
}

proof fn lemma_presentation_records(
    thread_id: ThreadId,
    mode: ThreadHistoryMode,
    existing: Seq<String>,
    presented: Seq<Presented>,
    now_ms: i64,
    n: nat,
)
    requires
        n <= presented.len(),
    ensures
        ({
            let records = all_presentation_records(
                thread_id,
                mode,
                existing,
                presented,
                now_ms,
                n,
            );
            &&& forall|turn_id: Seq<char>|
                #[trigger] turn_known(existing, presented, n as int, turn_id) && !among(
                    existing,
                    turn_id,
                ) ==> exists|j: int|
                    0 <= j < records.len() && starts(#[trigger] records[j], turn_id)
            &&& forall|i: int|
                0 <= i < records.len() ==> #[trigger] is_presentation_record(
                    thread_id,
                    mode,
                    existing,
                    now_ms,
                    records,
                    i,
                )
        }),
    decreases n,
{
    if n > 0 {
        let m = (n - 1) as nat;
        lemma_presentation_records(thread_id, mode, existing, presented, now_ms, m);
        let head = all_presentation_records(thread_id, mode, existing, presented, now_ms, m);
        let last = presented[n - 1];
        let here = last.turn_id@;
        let starts_turn = !turn_known(existing, presented, n - 1, here);
        let more = presentation_records(thread_id, mode, starts_turn, last, now_ms);
        let records = head + more;
        assert(records == all_presentation_records(
            thread_id,
            mode,
            existing,
            presented,
            now_ms,
            n,
        ));
        assert forall|i: int| 0 <= i < head.len() implies #[trigger] records[i] == head[i] by {}
        assert forall|i: int| 0 <= i < more.len() implies records[head.len() + i]
            == #[trigger] more[i] by {}
        assert(starts_turn ==> more[0] == start_record(last.turn_id));
        let known_here = among(existing, here) || exists|j: int|
            0 <= j < records.len() - 1 && starts(#[trigger] records[j], here);
        assert(known_here) by {
            if starts_turn {
                assert(starts(records[head.len() as int], here));
            } else if !among(existing, here) {
                let j = choose|j: int| 0 <= j < head.len() && starts(#[trigger] head[j], here);
                assert(starts(records[j], here));
            }
        }
        assert forall|turn_id: Seq<char>|
            #[trigger] turn_known(existing, presented, n as int, turn_id) && !among(
                existing,
                turn_id,
            ) implies exists|j: int|
            0 <= j < records.len() && starts(#[trigger] records[j], turn_id) by {
            if turn_id != here {
                let k = choose|k: int| 0 <= k < n && #[trigger] presented[k].turn_id@ == turn_id;
                assert(turn_known(existing, presented, m as int, turn_id));
                let j = choose|j: int| 0 <= j < head.len() && starts(#[trigger] head[j], turn_id);
                assert(starts(records[j], turn_id));
            }
        }
        assert forall|i: int| 0 <= i < records.len() implies #[trigger] is_presentation_record(
            thread_id,
            mode,
            existing,
            now_ms,
            records,
            i,
        ) by {
            if i < head.len() {
                assert(is_presentation_record(thread_id, mode, existing, now_ms, head, i));
                if let RolloutItem::EventMsg(EventMsg::ItemCompleted { turn_id, .. }) = records[i] {
                    if !among(existing, turn_id@) {
                        let j = choose|j: int|
                            0 <= j < i && starts(#[trigger] head[j], turn_id@);
                        assert(starts(records[j], turn_id@));
                    }
                }
            } else {
                assert(records[i] == more[i - head.len()]);
            }
        }
    }
}

/// The `i`-th of `records` shows a recovered item: it starts a turn of which no more is claimed,
/// or it completes an item of a turn that exists or was started before, at the time of the
/// recovery and with no time at which it would have begun, or it is an event for older clients.
pub open spec fn is_presentation_record(
    thread_id: ThreadId,
    mode: ThreadHistoryMode,
    existing: Seq<String>,
    now_ms: i64,
    records: Seq<RolloutItem>,
    i: int,
) -> bool {
    match records[i] {
        RolloutItem::EventMsg(EventMsg::TurnStarted { turn_id, .. }) => records[i] == start_record(
            turn_id,
        ),
        RolloutItem::EventMsg(
            EventMsg::ItemCompleted {
                thread_id: thread,
                turn_id,
                started_at_ms,
                completed_at_ms,
                ..
            },
        ) => {
            &&& thread == thread_id
            &&& started_at_ms is None
            &&& completed_at_ms == now_ms
            &&& among(existing, turn_id@) || exists|j: int|
                0 <= j < i && starts(#[trigger] records[j], turn_id@)
        },
        RolloutItem::EventMsg(EventMsg::Other { .. }) => mode == ThreadHistoryMode::Legacy,
        _ => false,
    }
}

/// Recovered items are shown in turns that exist, or were started earlier in the batch. Nothing
/// is claimed of when a turn or an item began, and nothing of how a turn ended.
pub proof fn law_recovered_items_are_shown_in_started_turns(
    thread_id: ThreadId,
    mode: ThreadHistoryMode,
    existing: Seq<String>,
    presented: Seq<Presented>,
    now_ms: i64,
    i: int,
)
    requires
        0 <= i < all_presentation_records(
            thread_id,
            mode,
            existing,
            presented,
            now_ms,
            presented.len(),
        ).len(),
    ensures
        is_presentation_record(
            thread_id,
            mode,
            existing,
            now_ms,
            all_presentation_records(
                thread_id,
                mode,
                existing,
                presented,
                now_ms,
                presented.len(),
            ),
            i,
        ),
{
    lemma_presentation_records(thread_id, mode, existing, presented, now_ms, presented.len());
}

/// The response items of a batch before its checkpoint are exactly the unsaved ones, in the order
/// of the live history: of items that are alike, as many as the live history holds more of than
/// the saved one, the later ones. They stand between what is shown and the checkpoint.
pub proof fn law_batch_holds_exactly_the_missing_items(
    thread_id: ThreadId,
    mode: ThreadHistoryMode,
    saved: Seq<Vec<u8>>,
    live: Seq<LiveItem>,
    recovery: Recovery,
    existing: Seq<String>,
    presented: Seq<Presented>,
    checkpoint: Seq<RolloutItem>,
    now_ms: i64,
    key: Seq<u8>,
)
    requires
        is_recovery(thread_id, mode, saved, live, recovery),
    ensures
        ({
            let missing = unsaved_positions(saved, live, live.len());
            let shown = all_presentation_records(
                thread_id,
                mode,
                existing,
                presented,
                now_ms,
                presented.len(),
            );
            let batch = restored(
                thread_id,
                mode,
                existing,
                presented,
                recovery.recovered@,
                checkpoint,
                now_ms,
            );
            let held = count_key(live_keys(live), key);
            let kept = count_key(saved, key);
            &&& batch.len() == shown.len() + missing.len() + checkpoint.len()
            &&& forall|i: int|
                0 <= i < shown.len() ==> #[trigger] batch[i] == shown[i] && !(batch[i]
                    is ResponseItem)
            &&& forall|k: int|
                0 <= k < missing.len() ==> batch[shown.len() + k] == RolloutItem::ResponseItem(
                    live[#[trigger] missing[k]].item,
                )
            &&& forall|j: int, k: int|
                0 <= j < k < missing.len() ==> 0 <= #[trigger] missing[j] < #[trigger] missing[k]
                    < live.len()
            &&& count_at(live, missing, key) == if held > kept {
                (held - kept) as nat
            } else {
                0
            }
            &&& batch.skip((shown.len() + missing.len()) as int) == checkpoint
        }),
{
    let missing = unsaved_positions(saved, live, live.len());
    let shown = all_presentation_records(
        thread_id,
        mode,
        existing,
        presented,
        now_ms,
        presented.len(),
    );
    let batch = restored(
        thread_id,
        mode,
        existing,
        presented,
        recovery.recovered@,
        checkpoint,
        now_ms,
    );
    law_recovery_keeps_multiplicity(saved, live, key);
    assert forall|j: int, k: int| 0 <= j < k < missing.len() implies 0 <= #[trigger] missing[j]
        < #[trigger] missing[k] < live.len() by {
        law_recovery_keeps_order(saved, live, j, k);
    }
    lemma_presentation_records(thread_id, mode, existing, presented, now_ms, presented.len());
    assert forall|i: int| 0 <= i < shown.len() implies #[trigger] batch[i] == shown[i] && !(batch[i]
        is ResponseItem) by {
        assert(is_presentation_record(thread_id, mode, existing, now_ms, shown, i));
    }
    assert forall|k: int| 0 <= k < missing.len() implies batch[shown.len() + k]
        == RolloutItem::ResponseItem(live[#[trigger] missing[k]].item) by {
        assert(batch[shown.len() + k] == recovery.recovered@[k]);
    }
    assert(batch.skip((shown.len() + missing.len()) as int) =~= checkpoint);
}

/// However much of a batch was saved: if it holds a recovered item, it holds all that clients
/// show, so that a further attempt, which skips the item, leaves nothing unshown.
pub proof fn law_partly_saved_batch_shows_what_it_holds(
    presentation: Seq<RolloutItem>,
    recovered: Seq<RolloutItem>,
    checkpoint: Seq<RolloutItem>,
    n: int,
)
    requires
        0 <= n <= batch_of(presentation, recovered, checkpoint).len(),
    ensures
        n > presentation.len() ==> batch_of(presentation, recovered, checkpoint).take(n).take(
            presentation.len() as int,
        ) == presentation,
        n <= presentation.len() ==> batch_of(presentation, recovered, checkpoint).take(n)
            == presentation.take(n),
{
    let batch = batch_of(presentation, recovered, checkpoint);
    if n > presentation.len() {
        assert(batch.take(n).take(presentation.len() as int) =~= presentation);
    } else {
        assert(batch.take(n) =~= presentation.take(n));
    }
}

/// How often `items` records the start of a turn.
pub open spec fn count_starts(items: Seq<RolloutItem>, turn_id: Seq<char>) -> nat
    decreases items.len(),
{
    if items.len() == 0 {
        0
    } else {
        count_starts(items.drop_last(), turn_id) + match items.last() {
            RolloutItem::EventMsg(EventMsg::TurnStarted { turn_id: id, .. }) => if id@ == turn_id {
                1nat
            } else {
                0nat
            },
            _ => 0nat,
        }
    }
}

proof fn lemma_count_starts_concat(a: Seq<RolloutItem>, b: Seq<RolloutItem>, turn_id: Seq<char>)
    ensures
        count_starts(a + b, turn_id) == count_starts(a, turn_id) + count_starts(b, turn_id),
    decreases b.len(),
{
    if b.len() == 0 {
        assert(a + b =~= a);
    } else {
        assert((a + b).drop_last() =~= a + b.drop_last());
        assert((a + b).last() == b.last());
        lemma_count_starts_concat(a, b.drop_last(), turn_id);
    }
}

proof fn lemma_count_starts_legacy(events: Seq<String>, turn_id: Seq<char>)
    ensures
        count_starts(legacy_records(events), turn_id) == 0,
    decreases events.len(),
{
    if events.len() > 0 {
        assert(legacy_records(events).drop_last() =~= legacy_records(events.drop_last()));
        lemma_count_starts_legacy(events.drop_last(), turn_id);
    }
}

proof fn lemma_count_starts(
    thread_id: ThreadId,
    mode: ThreadHistoryMode,
    existing: Seq<String>,
    presented: Seq<Presented>,
    now_ms: i64,
    n: nat,
    turn_id: Seq<char>,
)
    requires
        n <= presented.len(),
    ensures
        count_starts(
            all_presentation_records(thread_id, mode, existing, presented, now_ms, n),
            turn_id,
        ) == if !among(existing, turn_id) && turn_known(existing, presented, n as int, turn_id) {
            1nat
        } else {
            0nat
        },
    decreases n,
{
    if n > 0 {
        let m = (n - 1) as nat;
        lemma_count_starts(thread_id, mode, existing, presented, now_ms, m, turn_id);
        let head = all_presentation_records(thread_id, mode, existing, presented, now_ms, m);
        let last = presented[n - 1];
        let starts = !turn_known(existing, presented, n - 1, last.turn_id@);
        let records = presentation_records(thread_id, mode, starts, last, now_ms);
        lemma_count_starts_concat(head, records, turn_id);
        let start = if starts {
            seq![start_record(last.turn_id)]
        } else {
            Seq::empty()
        };
        let legacy = if mode == ThreadHistoryMode::Legacy {
            legacy_records(last.legacy_events@)
        } else {
            Seq::empty()
        };
        assert(records.drop_last() =~= start + legacy);
        lemma_count_starts_concat(start, legacy, turn_id);
        lemma_count_starts_legacy(last.legacy_events@, turn_id);
        assert(start.len() > 0 ==> start.drop_last() =~= Seq::empty());
        assert(count_starts(Seq::<RolloutItem>::empty(), turn_id) == 0);
        assert(count_starts(start, turn_id) == if starts && last.turn_id@ == turn_id {
            1nat
        } else {
            0nat
        });
        if turn_known(existing, presented, n as int, turn_id) && !among(existing, turn_id) {
            let j = choose|j: int| 0 <= j < n && #[trigger] presented[j].turn_id@ == turn_id;
            if j < m {
                assert(turn_known(existing, presented, m as int, turn_id));
            }
        }
        if turn_known(existing, presented, m as int, turn_id) && !among(existing, turn_id) {
            let j = choose|j: int| 0 <= j < m && #[trigger] presented[j].turn_id@ == turn_id;
            assert(0 <= j < n);
        }
        assert(last.turn_id@ == turn_id ==> turn_known(existing, presented, n as int, turn_id));
    }
}

/// The start of a turn is recorded once for every turn that is shown and did not exist, and for
/// no other.
pub proof fn law_turn_start_is_recorded_once(
    thread_id: ThreadId,
    mode: ThreadHistoryMode,
    existing: Seq<String>,
    presented: Seq<Presented>,
    now_ms: i64,
    turn_id: Seq<char>,
)
    ensures
        count_starts(
            all_presentation_records(
                thread_id,
                mode,
                existing,
                presented,
                now_ms,
                presented.len(),
            ),
            turn_id,
        ) == if !among(existing, turn_id) && turn_known(
            existing,
            presented,
            presented.len() as int,
            turn_id,
        ) {
            1nat
        } else {
            0nat
        },
{
    lemma_count_starts(
        thread_id,
        mode,
        existing,
        presented,
        now_ms,
        presented.len(),
        turn_id,
    );
}

/// The keys of items, as plain values.
pub open spec fn plain_keys(keys: Seq<Vec<u8>>) -> Seq<Seq<u8>> {
    Seq::new(keys.len(), |i: int| keys[i]@)
}

/// Counting a key is counting with multiplicity: it is how often the key stands in the multiset of
/// the keys.
pub proof fn law_counting_is_by_multiplicity(keys: Seq<Vec<u8>>, key: Seq<u8>)
    ensures
        count_key(keys, key) == plain_keys(keys).to_multiset().count(key),
    decreases keys.len(),
{
    broadcast use vstd::seq_lib::group_to_multiset_ensures;

    if keys.len() == 0 {
        assert(plain_keys(keys) =~= Seq::empty());
        assert(plain_keys(keys).to_multiset().len() == 0);
    } else {
        let head = keys.drop_last();
        law_counting_is_by_multiplicity(head, key);
        assert(plain_keys(keys) =~= plain_keys(head).push(keys.last()@));
    }
}

/// An item of the live history is missing from the saved one exactly when the saved history holds
/// no more of its kind than stand before it in the live one.
pub proof fn law_item_is_missing_when_its_like_are_used_up(
    saved: Seq<Vec<u8>>,
    live: Seq<LiveItem>,
    i: int,
)
    requires
        0 <= i < live.len(),
    ensures
        unsaved_positions(saved, live, live.len()).contains(i) <==> plain_keys(
            live_keys(live).take(i),
        ).to_multiset().count(live[i].key@) >= plain_keys(saved).to_multiset().count(live[i].key@),
{
    lemma_unsaved_contains(saved, live, live.len(), i);
    law_counting_is_by_multiplicity(live_keys(live).take(i), live[i].key@);
    law_counting_is_by_multiplicity(saved, live[i].key@);
}

proof fn lemma_unsaved_contains(saved: Seq<Vec<u8>>, live: Seq<LiveItem>, n: nat, i: int)
    requires
        0 <= i < n <= live.len(),
    ensures
        unsaved_positions(saved, live, n).contains(i) <==> is_unsaved(saved, live, i),
    decreases n,
{
    lemma_positions_ordered(saved, live, (n - 1) as nat);
    let rest = unsaved_positions(saved, live, (n - 1) as nat);
    if i < n - 1 {
        lemma_unsaved_contains(saved, live, (n - 1) as nat, i);
        let all = unsaved_positions(saved, live, n);
        if rest.contains(i) {
            let k = choose|k: int| 0 <= k < rest.len() && rest[k] == i;
            assert(all[k] == i);
        }
        if all.contains(i) {
            let k = choose|k: int| 0 <= k < all.len() && all[k] == i;
            assert(k < rest.len());
            assert(rest[k] == i);
        }
    } else {
        if is_unsaved(saved, live, n - 1) {
            assert(rest.push(n - 1)[rest.len() as int] == i);
        } else if rest.contains(i) {
            let k = choose|k: int| 0 <= k < rest.len() && rest[k] == i;
            assert(rest[k] < n - 1);
        }
    }
}

proof fn lemma_presented_contains(saved: Seq<Vec<u8>>, live: Seq<LiveItem>, n: nat, i: int)
    requires
        n <= live.len(),
    ensures
        presented_positions(saved, live, n).contains(i) <==> 0 <= i < n && is_unsaved(saved, live, i)
            && is_presentable(live[i]),
    decreases n,
{
    if n > 0 {
        let rest = presented_positions(saved, live, (n - 1) as nat);
        lemma_presented_contains(saved, live, (n - 1) as nat, i);
        let all = presented_positions(saved, live, n);
        if rest.contains(i) {
            let k = choose|k: int| 0 <= k < rest.len() && rest[k] == i;
            assert(all[k] == i);
        }
        if all.contains(i) {
            let k = choose|k: int| 0 <= k < all.len() && all[k] == i;
            if k < rest.len() {
                assert(rest[k] == i);
            }
        }
        if is_unsaved(saved, live, n - 1) && is_presentable(live[n - 1]) {
            assert(all[rest.len() as int] == n - 1);
        }
    }
}

proof fn lemma_presented_ordered(saved: Seq<Vec<u8>>, live: Seq<LiveItem>, n: nat)
    requires
        n <= live.len(),
    ensures
        forall|j: int|
            0 <= j < presented_positions(saved, live, n).len() ==> 0
                <= #[trigger] presented_positions(saved, live, n)[j] < n,
        forall|j: int, k: int|
            0 <= j < k < presented_positions(saved, live, n).len()
                ==> #[trigger] presented_positions(saved, live, n)[j]
                < #[trigger] presented_positions(saved, live, n)[k],
    decreases n,
{
    if n > 0 {
        lemma_presented_ordered(saved, live, (n - 1) as nat);
        let rest = presented_positions(saved, live, (n - 1) as nat);
        let all = presented_positions(saved, live, n);
        assert forall|j: int| 0 <= j < all.len() implies 0 <= #[trigger] all[j] < n by {
            if j < rest.len() {
                assert(all[j] == rest[j]);
            }
        }
        assert forall|j: int, k: int| 0 <= j < k < all.len() implies #[trigger] all[j]
            < #[trigger] all[k] by {
            assert(all[j] == rest[j]);
            if k < rest.len() {
                assert(all[k] == rest[k]);
            }
        }
    }
}

/// Every missing item is presented whose form is a user message, an agent message, reasoning, a
/// web search, a generated image or a prompt of a hook, or that has no form and is the output of
/// a tool; and no other item is.
pub proof fn law_every_missing_item_with_a_form_is_presented(
    saved: Seq<Vec<u8>>,
    live: Seq<LiveItem>,
    i: int,
)
    requires
        0 <= i < live.len(),
    ensures
        presented_positions(saved, live, live.len()).contains(i) <==> unsaved_positions(
            saved,
            live,
            live.len(),
        ).contains(i) && match live[i].shown_as {
            Some(TurnItem::UserMessage { .. }) => true,
            Some(TurnItem::AgentMessage { .. }) => true,
            Some(TurnItem::Reasoning { .. }) => true,
            Some(TurnItem::WebSearch { .. }) => true,
            Some(TurnItem::ImageGeneration { .. }) => true,
            Some(TurnItem::HookPrompt { .. }) => true,
            Some(TurnItem::FunctionCallOutput { .. }) => false,
            Some(TurnItem::Other { .. }) => false,
            None => match live[i].item {
                ResponseItem::FunctionCallOutput { .. } => true,
                ResponseItem::CustomToolCallOutput { .. } => true,
                _ => false,
            },
        },
{
    lemma_presented_contains(saved, live, live.len(), i);
    lemma_unsaved_contains(saved, live, live.len(), i);
}

/// Among the presentations of what is missing there is one for every missing item that has a
/// form, in the form that clients have for it and with all of its content; of the output of a tool
/// all that the tool gave back.
pub proof fn law_presentations_show_the_missing_items(
    thread_id: ThreadId,
    mode: ThreadHistoryMode,
    saved: Seq<Vec<u8>>,
    live: Seq<LiveItem>,
    recovery: Recovery,
    i: int,
)
    requires
        is_recovery(thread_id, mode, saved, live, recovery),
        0 <= i < live.len(),
        unsaved_positions(saved, live, live.len()).contains(i),
    ensures
        live[i].shown_as matches Some(TurnItem::UserMessage { content, .. }) ==> exists|k: int|
            0 <= k < recovery.presentations@.len() && ((
            #[trigger] recovery.presentations@[k]).item matches TurnItem::UserMessage {
                content: c,
                ..
            } && c == content),
        live[i].shown_as matches Some(TurnItem::AgentMessage { content, .. }) ==> exists|k: int|
            0 <= k < recovery.presentations@.len() && ((
            #[trigger] recovery.presentations@[k]).item matches TurnItem::AgentMessage {
                content: c,
                ..
            } && c == content),
        live[i].shown_as matches Some(TurnItem::Reasoning { content, .. }) ==> exists|k: int|
            0 <= k < recovery.presentations@.len() && ((
            #[trigger] recovery.presentations@[k]).item matches TurnItem::Reasoning {
                content: c,
                ..
            } && c == content),
        live[i].shown_as matches Some(TurnItem::WebSearch { content, .. }) ==> exists|k: int|
            0 <= k < recovery.presentations@.len() && ((
            #[trigger] recovery.presentations@[k]).item matches TurnItem::WebSearch {
                content: c,
                ..
            } && c == content),
        live[i].shown_as matches Some(TurnItem::ImageGeneration { content, .. }) ==> exists|k: int|
            0 <= k < recovery.presentations@.len() && ((
            #[trigger] recovery.presentations@[k]).item matches TurnItem::ImageGeneration {
                content: c,
                ..
            } && c == content),
        live[i].shown_as matches Some(TurnItem::HookPrompt { content, .. }) ==> exists|k: int|
            0 <= k < recovery.presentations@.len() && ((
            #[trigger] recovery.presentations@[k]).item matches TurnItem::HookPrompt {
                content: c,
                ..
            } && c == content),
        live[i].shown_as is None ==> match live[i].item {
            ResponseItem::FunctionCallOutput { output, .. } => exists|k: int|
                0 <= k < recovery.presentations@.len() && ((
                #[trigger] recovery.presentations@[k]).item matches TurnItem::FunctionCallOutput {
                    output: o,
                    ..
                } && o == output),
            ResponseItem::CustomToolCallOutput { output, .. } => exists|k: int|
                0 <= k < recovery.presentations@.len() && ((
                #[trigger] recovery.presentations@[k]).item matches TurnItem::FunctionCallOutput {
                    output: o,
                    ..
                } && o == output),
            _ => true,
        },
{
    let positions = presented_positions(saved, live, live.len());
    lemma_presented_contains(saved, live, live.len(), i);
    lemma_unsaved_contains(saved, live, live.len(), i);
    if positions.contains(i) {
        let k = choose|k: int| 0 <= k < positions.len() && positions[k] == i;
        let at = positions[k];
        let shown = recovery.presentations@[k];
        assert(is_shown(
            live[at].item,
            live[at].shown_as,
            shown_id(thread_id, live[at].item, occurrence(live, at), live[at].key@),
            tool_calls_of(live),
            shown.item,
        ));
    }
}

/// A presentation stands for a missing item, in that order: its identity is the item's own, or
/// one made from the thread, how many equal items come before it and what it says; its turn is
/// the item's own, or the one for all that is recovered, in which a legacy history shows
/// everything.
pub proof fn law_presentations_are_found_again(
    thread_id: ThreadId,
    mode: ThreadHistoryMode,
    saved: Seq<Vec<u8>>,
    live: Seq<LiveItem>,
    recovery: Recovery,
    k: int,
)
    requires
        is_recovery(thread_id, mode, saved, live, recovery),
        0 <= k < recovery.presentations@.len(),
    ensures
        ({
            let positions = presented_positions(saved, live, live.len());
            let at = positions[k];
            let shown = recovery.presentations@[k];
            let before = plain_keys(live_keys(live).take(at)).to_multiset().count(live[at].key@);
            &&& positions.len() == recovery.presentations@.len()
            &&& 0 <= at < live.len()
            &&& forall|j: int| 0 <= j < k ==> #[trigger] positions[j] < at
            &&& live[at].item.spec_id() matches Some(id) ==> shown.item.spec_id()@ == id@
            &&& live[at].item.spec_id() is None ==> shown.item.spec_id()@ == "recovered-"@
                + hyphenated(
                uuid_of_oid_name(
                    ascii(thread_id.text() + ":"@ + (decimal(before) + ":"@)) + live[at].key@,
                ),
            )
            &&& mode is Paginated && live[at].item.spec_turn_id() is Some ==> shown.turn_id@
                == live[at].item.spec_turn_id()->Some_0@
            &&& mode is Legacy || live[at].item.spec_turn_id() is None ==> shown.turn_id@
                == "recovered-"@ + thread_id.text()
        }),
{
    let positions = presented_positions(saved, live, live.len());
    lemma_presented_ordered(saved, live, live.len());
    let at = positions[k];
    law_counting_is_by_multiplicity(live_keys(live).take(at), live[at].key@);
    assert(is_shown(
        live[at].item,
        live[at].shown_as,
        shown_id(thread_id, live[at].item, occurrence(live, at), live[at].key@),
        tool_calls_of(live),
        recovery.presentations@[k].item,
    ));
}

/// Whether `item` is a call of a tool under the identity `call_id`.
pub open spec fn calls_tool(item: ResponseItem, call_id: Seq<char>) -> bool {
    match item {
        ResponseItem::FunctionCall { call_id: id, .. } => id@ == call_id,
        ResponseItem::CustomToolCall { call_id: id, .. } => id@ == call_id,
        _ => false,
    }
}

/// The tool call that an output belongs to is the last call of the live history with its
/// identity; without such a call there is none.
pub proof fn law_output_belongs_to_the_latest_call(
    live: Seq<LiveItem>,
    call_id: Seq<char>,
    i: int,
)
    requires
        -1 <= i < live.len(),
        i >= 0 ==> calls_tool(live[i].item, call_id),
        forall|j: int| i < j < live.len() ==> !calls_tool((#[trigger] live[j]).item, call_id),
    ensures
        i < 0 ==> latest_call(tool_calls_of(live), call_id) is None,
        i >= 0 ==> match live[i].item {
            ResponseItem::FunctionCall { call_id: id, name, namespace, .. } => latest_call(
                tool_calls_of(live),
                call_id,
            ) == Some(ToolCall { call_id: id, name, namespace }),
            ResponseItem::CustomToolCall { call_id: id, name, namespace, .. } => latest_call(
                tool_calls_of(live),
                call_id,
            ) == Some(ToolCall { call_id: id, name, namespace }),
            _ => false,
        },
    decreases live.len(),
{
    if live.len() > 0 {
        let head = live.drop_last();
        let calls = tool_calls_of(head);
        assert(live[live.len() - 1] == live.last());
        if let Some(call) = tool_call_of(live.last().item) {
            assert(calls.push(call).drop_last() =~= calls);
            assert(calls.push(call).last() == call);
        }
        if i < live.len() - 1 {
            assert forall|j: int| i < j < head.len() implies !calls_tool(
                (#[trigger] head[j]).item,
                call_id,
            ) by {
                assert(head[j] == live[j]);
            }
            law_output_belongs_to_the_latest_call(head, call_id, i);
        }
    }
}

/// `shown` is the output `output` of a tool, under the name that it bears itself, else under that
/// of its call, and under a name that says so where there is neither.
pub open spec fn is_named_output(
    shown: TurnItem,
    id: Seq<char>,
    name: Option<String>,
    namespace: Option<String>,
    call: Option<ToolCall>,
    output: FunctionCallOutputBody,
) -> bool {
    shown matches TurnItem::FunctionCallOutput { id: i, name: n, namespace: s, output: o } && i@
        == id && o == output && match (name, call) {
        (Some(name), _) => n@ == name@ && s == namespace,
        (None, Some(call)) => n@ == call.name@ && s == call.namespace,
        (None, None) => n@ == "Recovered tool output (name unavailable)"@ && s == namespace,
    }
}

/// The output of a tool is shown whole, under its own name and namespace where it has a name,
/// else under those of the call that it belongs to; where there is no such call, under a name
/// that says so. Its success is not judged.
pub proof fn law_tool_output_is_shown_under_its_name(
    response: ResponseItem,
    id: Seq<char>,
    calls: Seq<ToolCall>,
    shown: TurnItem,
)
    requires
        is_shown(response, None, id, calls, shown),
    ensures
        response is FunctionCallOutput || response is CustomToolCallOutput,
        response matches ResponseItem::FunctionCallOutput {
            call_id,
            name,
            namespace,
            output,
            ..
        } ==> is_named_output(
            shown,
            id,
            name,
            namespace,
            match call_id {
                Some(call_id) => latest_call(calls, call_id@),
                None => None,
            },
            output,
        ),
        response matches ResponseItem::CustomToolCallOutput { call_id, name, output, .. }
            ==> is_named_output(shown, id, name, None, latest_call(calls, call_id@), output),
{
}

/// The turns, and the items, that `records` say are completed, in order.
pub open spec fn completions(records: Seq<RolloutItem>) -> Seq<(String, TurnItem)>
    decreases records.len(),
{
    if records.len() == 0 {
        Seq::empty()
    } else {
        let rest = completions(records.drop_last());
        match records.last() {
            RolloutItem::EventMsg(EventMsg::ItemCompleted { turn_id, item, .. }) => rest.push(
                (turn_id, item),
            ),
            _ => rest,
        }
    }
}

/// The events for older clients among `records`, in order.
pub open spec fn legacy_texts(records: Seq<RolloutItem>) -> Seq<String>
    decreases records.len(),
{
    if records.len() == 0 {
        Seq::empty()
    } else {
        let rest = legacy_texts(records.drop_last());
        match records.last() {
            RolloutItem::EventMsg(EventMsg::Other { json }) => rest.push(json),
            _ => rest,
        }
    }
}

/// The events by which older clients show the first `n` presentations, in order.
pub open spec fn all_legacy_events(presented: Seq<Presented>, n: nat) -> Seq<String>
    decreases n,
{
    if n == 0 {
        Seq::empty()
    } else {
        all_legacy_events(presented, (n - 1) as nat) + presented[n - 1].legacy_events@
    }
}

proof fn lemma_records_concat(a: Seq<RolloutItem>, b: Seq<RolloutItem>)
    ensures
        completions(a + b) == completions(a) + completions(b),
        legacy_texts(a + b) == legacy_texts(a) + legacy_texts(b),
    decreases b.len(),
{
    if b.len() == 0 {
        assert(a + b =~= a);
        assert(completions(a) + completions(b) =~= completions(a));
        assert(legacy_texts(a) + legacy_texts(b) =~= legacy_texts(a));
    } else {
        assert((a + b).drop_last() =~= a + b.drop_last());
        assert((a + b).last() == b.last());
        lemma_records_concat(a, b.drop_last());
        assert(completions(a + b) =~= completions(a) + completions(b));
        assert(legacy_texts(a + b) =~= legacy_texts(a) + legacy_texts(b));
    }
}

proof fn lemma_legacy_records(events: Seq<String>)
    ensures
        completions(legacy_records(events)) == Seq::<(String, TurnItem)>::empty(),
        legacy_texts(legacy_records(events)) == events,
    decreases events.len(),
{
    if events.len() > 0 {
        lemma_legacy_records(events.drop_last());
        assert(legacy_records(events).drop_last() =~= legacy_records(events.drop_last()));
        assert(legacy_texts(legacy_records(events)) =~= events);
    } else {
        assert(legacy_texts(legacy_records(events)) =~= events);
    }
}

proof fn lemma_all_are_completed(
    thread_id: ThreadId,
    mode: ThreadHistoryMode,
    existing: Seq<String>,
    presented: Seq<Presented>,
    now_ms: i64,
    n: nat,
)
    requires
        n <= presented.len(),
    ensures
        ({
            let records = all_presentation_records(thread_id, mode, existing, presented, now_ms, n);
            &&& completions(records) == Seq::new(
                n,
                |i: int| (presented[i].turn_id, presented[i].item),
            )
            &&& mode is Legacy ==> legacy_texts(records) == all_legacy_events(presented, n)
            &&& mode is Paginated ==> legacy_texts(records).len() == 0
        }),
    decreases n,
{
    let records = all_presentation_records(thread_id, mode, existing, presented, now_ms, n);
    if n > 0 {
        let m = (n - 1) as nat;
        lemma_all_are_completed(thread_id, mode, existing, presented, now_ms, m);
        let head = all_presentation_records(thread_id, mode, existing, presented, now_ms, m);
        let last = presented[n - 1];
        let starts = !turn_known(existing, presented, n - 1, last.turn_id@);
        let more = presentation_records(thread_id, mode, starts, last, now_ms);
        lemma_records_concat(head, more);
        let start = if starts {
            seq![start_record(last.turn_id)]
        } else {
            Seq::empty()
        };
        let legacy = if mode == ThreadHistoryMode::Legacy {
            legacy_records(last.legacy_events@)
        } else {
            Seq::empty()
        };
        lemma_records_concat(start, legacy);
        lemma_legacy_records(last.legacy_events@);
        assert(more.drop_last() =~= start + legacy);
        assert(start.len() > 0 ==> start.drop_last() =~= Seq::empty());
        assert(completions(Seq::<RolloutItem>::empty()) =~= Seq::empty());
        assert(legacy_texts(Seq::<RolloutItem>::empty()) =~= Seq::empty());
        assert(completions(start) =~= Seq::empty());
        assert(legacy_texts(start) =~= Seq::empty());
        assert(completions(records) =~= Seq::new(
            n,
            |i: int| (presented[i].turn_id, presented[i].item),
        ));
        assert(legacy_texts(more) =~= legacy_texts(legacy));
        assert(legacy_texts(records) =~= legacy_texts(head) + legacy_texts(legacy));
    } else {
        assert(completions(records) =~= Seq::new(
            n,
            |i: int| (presented[i].turn_id, presented[i].item),
        ));
        assert(legacy_texts(records) =~= Seq::empty());
        assert(all_legacy_events(presented, n) =~= Seq::empty());
    }
}

/// Every presentation is recorded as a completed item of its turn, once and in order. A legacy
/// history also records the events that older clients show it by, and a paginated one none.
pub proof fn law_every_presentation_is_recorded(
    thread_id: ThreadId,
    mode: ThreadHistoryMode,
    existing: Seq<String>,
    presented: Seq<Presented>,
    now_ms: i64,
)
    ensures
        ({
            let records = all_presentation_records(
                thread_id,
                mode,
                existing,
                presented,
                now_ms,
                presented.len(),
            );
            &&& completions(records) == Seq::new(
                presented.len(),
                |i: int| (presented[i].turn_id, presented[i].item),
            )
            &&& mode is Legacy ==> legacy_texts(records) == all_legacy_events(
                presented,
                presented.len(),
            )
            &&& mode is Paginated ==> legacy_texts(records).len() == 0
        }),
{
    lemma_all_are_completed(thread_id, mode, existing, presented, now_ms, presented.len());
}

proof fn lemma_started_turns(saved: Seq<RolloutItem>, turn_id: Seq<char>)
    ensures
        among(started_turns(saved), turn_id) <==> exists|i: int|
            0 <= i < saved.len() && starts(#[trigger] saved[i], turn_id),
    decreases saved.len(),
{
    if saved.len() > 0 {
        let head = saved.drop_last();
        lemma_started_turns(head, turn_id);
        assert(saved[saved.len() - 1] == saved.last());
        assert forall|i: int| 0 <= i < head.len() implies #[trigger] saved[i] == head[i] by {}
        if let RolloutItem::EventMsg(EventMsg::TurnStarted { turn_id: id, .. }) = saved.last() {
            lemma_among_push(started_turns(head), id);
        }
        if among(started_turns(head), turn_id) {
            let i = choose|i: int| 0 <= i < head.len() && starts(#[trigger] head[i], turn_id);
            assert(starts(saved[i], turn_id));
        }
        if exists|i: int| 0 <= i < saved.len() && starts(#[trigger] saved[i], turn_id) {
            let i = choose|i: int| 0 <= i < saved.len() && starts(#[trigger] saved[i], turn_id);
            if i < head.len() {
                assert(starts(head[i], turn_id));
            }
        }
    }
}

/// Which turns exist is what was looked up, where it was; else a turn exists exactly if its start
/// is saved.
pub proof fn law_turn_exists_if_its_start_is_saved(
    looked_up: Option<Vec<String>>,
    saved: Seq<RolloutItem>,
    turn_id: Seq<char>,
)
    ensures
        looked_up matches Some(turns) ==> known_turns(looked_up, saved) == turns@,
        looked_up is None ==> (among(known_turns(looked_up, saved), turn_id) <==> exists|i: int|
            0 <= i < saved.len() && ((
            #[trigger] saved[i]) matches RolloutItem::EventMsg(EventMsg::TurnStarted {
                turn_id: id,
                ..
            }) && id@ == turn_id)),
{
    lemma_started_turns(saved, turn_id);
    if looked_up is None {
        if among(started_turns(saved), turn_id) {
            let i = choose|i: int| 0 <= i < saved.len() && starts(#[trigger] saved[i], turn_id);
            assert(saved[i] is EventMsg);
        }
        if exists|i: int|
            0 <= i < saved.len() && ((
            #[trigger] saved[i]) matches RolloutItem::EventMsg(EventMsg::TurnStarted {
                turn_id: id,
                ..
            }) && id@ == turn_id) {
            let i = choose|i: int|
                0 <= i < saved.len() && ((
                #[trigger] saved[i]) matches RolloutItem::EventMsg(EventMsg::TurnStarted {
                    turn_id: id,
                    ..
                }) && id@ == turn_id);
            assert(starts(saved[i], turn_id));
        }
    }
}

/// Presentations keep their turn and their item when they get the events for older clients.
pub proof fn law_legacy_events_are_only_added(
    presentations: Seq<Presentation>,
    legacy_events: Seq<Vec<String>>,
    i: int,
)
    requires
        0 <= i < presentations.len(),
        presentations.len() == legacy_events.len(),
    ensures
        with_legacy_events(presentations, legacy_events).len() == presentations.len(),
        with_legacy_events(presentations, legacy_events)[i].turn_id == presentations[i].turn_id,
        with_legacy_events(presentations, legacy_events)[i].item == presentations[i].item,
        with_legacy_events(presentations, legacy_events)[i].legacy_events == legacy_events[i],
{
}

/// What shows a missing item has its form and its content, one by one and in order.
pub proof fn law_presentations_have_the_form_of_their_items(
    thread_id: ThreadId,
    mode: ThreadHistoryMode,
    saved: Seq<Vec<u8>>,
    live: Seq<LiveItem>,
    recovery: Recovery,
    k: int,
)
    requires
        is_recovery(thread_id, mode, saved, live, recovery),
        0 <= k < recovery.presentations@.len(),
    ensures
        ({
            let item = live[presented_positions(saved, live, live.len())[k]];
            let shown = recovery.presentations@[k].item;
            match item.shown_as {
                Some(TurnItem::UserMessage { content, .. }) => shown is UserMessage
                    && shown->UserMessage_content == content,
                Some(TurnItem::AgentMessage { content, .. }) => shown is AgentMessage
                    && shown->AgentMessage_content == content,
                Some(TurnItem::Reasoning { content, .. }) => shown is Reasoning
                    && shown->Reasoning_content == content,
                Some(TurnItem::WebSearch { content, .. }) => shown is WebSearch
                    && shown->WebSearch_content == content,
                Some(TurnItem::ImageGeneration { content, .. }) => shown is ImageGeneration
                    && shown->ImageGeneration_content == content,
                Some(TurnItem::HookPrompt { content, .. }) => shown is HookPrompt
                    && shown->HookPrompt_content == content,
                Some(TurnItem::FunctionCallOutput { .. }) => false,
                Some(TurnItem::Other { .. }) => false,
                None => match item.item {
                    ResponseItem::FunctionCallOutput {
                        call_id,
                        name,
                        namespace,
                        output,
                        ..
                    } => is_named_output(
                        shown,
                        shown.spec_id()@,
                        name,
                        namespace,
                        match call_id {
                            Some(call_id) => latest_call(tool_calls_of(live), call_id@),
                            None => None,
                        },
                        output,
                    ),
                    ResponseItem::CustomToolCallOutput { call_id, name, output, .. } => {
                        is_named_output(
                            shown,
                            shown.spec_id()@,
                            name,
                            None,
                            latest_call(tool_calls_of(live), call_id@),
                            output,
                        )
                    },
                    _ => false,
                },
            }
        }),
{
    let positions = presented_positions(saved, live, live.len());
    let at = positions[k];
    assert(is_shown(
        live[at].item,
        live[at].shown_as,
        shown_id(thread_id, live[at].item, occurrence(live, at), live[at].key@),
        tool_calls_of(live),
        recovery.presentations@[k].item,
    ));
}

/// The keys of live items are their own, one each and in order.
pub proof fn law_live_items_are_compared_by_their_keys(live: Seq<LiveItem>, i: int)
    requires
        0 <= i < live.len(),
    ensures
        live_keys(live).len() == live.len(),
        live_keys(live)[i] == live[i].key,
{
}

/// A presentation is recorded by the start of its turn where that is new, of which nothing more is
/// claimed, then by the events for older clients where the history is legacy, and at last by its
/// completion at the time of the recovery.
pub proof fn law_presentation_is_recorded_in_order(
    thread_id: ThreadId,
    mode: ThreadHistoryMode,
    starts_turn: bool,
    presented: Presented,
    now_ms: i64,
    i: int,
)
    ensures
        ({
            let records = presentation_records(thread_id, mode, starts_turn, presented, now_ms);
            let first = if starts_turn {
                1int
            } else {
                0int
            };
            &&& starts_turn ==> records[0] == RolloutItem::EventMsg(
                EventMsg::TurnStarted {
                    turn_id: presented.turn_id,
                    root_turn_id: None,
                    trace_id: None,
                    started_at: None,
                    model_context_window: None,
                    collaboration_mode_kind: ModeKind::Default,
                },
            )
            &&& mode is Legacy ==> {
                &&& records.len() == first + presented.legacy_events@.len() + 1
                &&& 0 <= i < presented.legacy_events@.len() ==> records[first + i]
                    == RolloutItem::EventMsg(EventMsg::Other { json: presented.legacy_events@[i] })
            }
            &&& mode is Paginated ==> records.len() == first + 1
            &&& records.last() == RolloutItem::EventMsg(
                EventMsg::ItemCompleted {
                    thread_id,
                    turn_id: presented.turn_id,
                    item: presented.item,
                    started_at_ms: None,
                    completed_at_ms: now_ms,
                },
            )
        }),
{
}

/// The records of one presentation follow those of the one before it. The start of its turn is
/// among them exactly when no turn of that name exists and no earlier presentation has it.
pub proof fn law_presentations_are_recorded_one_after_the_other(
    thread_id: ThreadId,
    mode: ThreadHistoryMode,
    existing: Seq<String>,
    presented: Seq<Presented>,
    now_ms: i64,
    n: nat,
)
    requires
        n < presented.len(),
    ensures
        ({
            let turn = presented[n as int].turn_id@;
            let is_new = !(exists|j: int|
                0 <= j < existing.len() && #[trigger] existing[j]@ == turn) && !(exists|j: int|
                0 <= j < n && (#[trigger] presented[j]).turn_id@ == turn);
            &&& all_presentation_records(thread_id, mode, existing, presented, now_ms, 0).len() == 0
            &&& all_presentation_records(thread_id, mode, existing, presented, now_ms, n + 1)
                == all_presentation_records(thread_id, mode, existing, presented, now_ms, n)
                + presentation_records(thread_id, mode, is_new, presented[n as int], now_ms)
        }),
{
}

/// A comparison of two histories finds what the saved one lacks of the live one.
pub proof fn law_comparison_is_a_recovery(
    thread_id: ThreadId,
    mode: ThreadHistoryMode,
    saved: Vec<Vec<u8>>,
    live: Vec<LiveItem>,
    res: Recovery,
)
    requires
        call_ensures(recover, (thread_id, mode, &saved, live), res),
    ensures
        is_recovery(thread_id, mode, saved@, live@, res),
{
}

/// An item is shown exactly where it has a form that bears an identity of its own, or has none and
/// is the output of a tool; and it is shown under the identity that it is given.
pub proof fn law_item_is_shown_where_it_has_a_form(
    response: ResponseItem,
    shown_as: Option<TurnItem>,
    id: String,
    calls: Vec<ToolCall>,
    res: Option<TurnItem>,
)
    requires
        call_ensures(recovery_turn_item, (&response, shown_as, id, &calls), res),
    ensures
        res is Some <==> match shown_as {
            Some(TurnItem::FunctionCallOutput { .. }) => false,
            Some(TurnItem::Other { .. }) => false,
            Some(_) => true,
            None => response is FunctionCallOutput || response is CustomToolCallOutput,
        },
        res matches Some(shown) ==> shown.spec_id()@ == id@ && is_shown(
            response,
            shown_as,
            id@,
            calls@,
            shown,
        ),
{
}

/// What a restoration appends is what is shown, then what was missing, then the checkpoint, with
/// the turns that were looked up or, where none were, those whose start is saved.
pub proof fn law_restoration_appends_in_order(
    thread_id: ThreadId,
    mode: ThreadHistoryMode,
    looked_up: Option<Vec<String>>,
    saved: Vec<RolloutItem>,
    presented: Vec<Presented>,
    recovered: Vec<RolloutItem>,
    checkpoint: Vec<RolloutItem>,
    now_ms: i64,
    res: Vec<RolloutItem>,
)
    requires
        call_ensures(
            restored_batch,
            (thread_id, mode, looked_up, &saved, presented, recovered, checkpoint, now_ms),
            res,
        ),
    ensures
        res@ == all_presentation_records(
            thread_id,
            mode,
            known_turns(looked_up, saved@),
            presented@,
            now_ms,
            presented@.len(),
        ) + recovered@ + checkpoint@,
{
}

} // verus!
