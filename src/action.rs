//! Actions: the templates a filter is configured with, the concrete actions
//! bound to an event, and which of them may run.

use vstd::prelude::*;
use crate::model::{MessageInfo, ReactionInfo, ReactionType, ReactionView};
use crate::preview::{message_preview, preview_chars};
use crate::text::{chars_of, decimal, decimal_string, replace_all, replace_all_exec, string_of};

verus! {

/// What to do when a filter fails, before it is bound to an event.
#[derive(Debug)]
pub enum MessageFilterAction {
    /// Delete the offending piece of content.
    Delete,
    /// Send a message to a channel; the content is a template.
    SendMessage { channel_id: u64, content: String, requires_armed: bool },
    /// Ban the author; the reason is a template.
    Ban { reason: String, delete_message_seconds: u32 },
    /// Kick the author; the reason is a template.
    Kick { reason: String },
    /// Time the author out for `duration` seconds; the reason is a template.
    Timeout { reason: String, duration: i64 },
    /// Post a report to a moderation channel.
    SendLog { channel_id: u64 },
}

/// An action bound to a message.
#[derive(Debug, PartialEq, Eq)]
pub enum MessageAction {
    Delete { message_id: u64, channel_id: u64 },
    SendMessage { to: u64, content: String, requires_armed: bool },
    Ban { user_id: u64, guild_id: Option<u64>, delete_message_seconds: u32, reason: String },
    Kick { user_id: u64, guild_id: Option<u64>, reason: String },
    Timeout { user_id: u64, guild_id: Option<u64>, reason: String, duration: i64 },
    SendLog {
        to: u64,
        filter_name: String,
        message_channel: u64,
        content: String,
        filter_reason: String,
        author: u64,
        context: String,
    },
}

/// An action bound to a message, with its text as character sequences.
pub enum MessageActionView {
    Delete { message_id: u64, channel_id: u64 },
    SendMessage { to: u64, content: Seq<char>, requires_armed: bool },
    Ban { user_id: u64, guild_id: Option<u64>, delete_message_seconds: u32, reason: Seq<char> },
    Kick { user_id: u64, guild_id: Option<u64>, reason: Seq<char> },
    Timeout { user_id: u64, guild_id: Option<u64>, reason: Seq<char>, duration: i64 },
    SendLog {
        to: u64,
        filter_name: Seq<char>,
        message_channel: u64,
        content: Seq<char>,
        filter_reason: Seq<char>,
        author: u64,
        context: Seq<char>,
    },
}

impl View for MessageAction {
    type V = MessageActionView;

    open spec fn view(&self) -> MessageActionView {
        match self {
            MessageAction::Delete { message_id, channel_id } =>
                MessageActionView::Delete { message_id: *message_id, channel_id: *channel_id },
            MessageAction::SendMessage { to, content, requires_armed } =>
                MessageActionView::SendMessage { to: *to, content: content@, requires_armed: *requires_armed },
            MessageAction::Ban { user_id, guild_id, delete_message_seconds, reason } =>
                MessageActionView::Ban {
                    user_id: *user_id,
                    guild_id: *guild_id,
                    delete_message_seconds: *delete_message_seconds,
                    reason: reason@,
                },
            MessageAction::Kick { user_id, guild_id, reason } =>
                MessageActionView::Kick { user_id: *user_id, guild_id: *guild_id, reason: reason@ },
            MessageAction::Timeout { user_id, guild_id, reason, duration } =>
                MessageActionView::Timeout {
                    user_id: *user_id,
                    guild_id: *guild_id,
                    reason: reason@,
                    duration: *duration,
                },
            MessageAction::SendLog {
                to,
                filter_name,
                message_channel,
                content,
                filter_reason,
                author,
                context,
            } => MessageActionView::SendLog {
                to: *to,
                filter_name: filter_name@,
                message_channel: *message_channel,
                content: content@,
                filter_reason: filter_reason@,
                author: *author,
                context: context@,
            },
        }
    }
}

/// A reaction-bound action.
#[derive(Debug, PartialEq, Eq)]
pub enum ReactionAction {
    Delete { message_id: u64, channel_id: u64, reaction: ReactionType },
    SendMessage { to: u64, content: String, requires_armed: bool },
    Ban { user_id: u64, guild_id: Option<u64>, delete_message_seconds: u32, reason: String },
    Kick { user_id: u64, guild_id: Option<u64>, reason: String },
    Timeout { user_id: u64, guild_id: Option<u64>, reason: String, duration: i64 },
    SendLog {
        to: u64,
        filter_name: String,
        message: u64,
        channel: u64,
        filter_reason: String,
        author: u64,
        reaction: ReactionType,
    },
}

/// A reaction-bound action, with its text as character sequences.
pub enum ReactionActionView {
    Delete { message_id: u64, channel_id: u64, reaction: ReactionView },
    SendMessage { to: u64, content: Seq<char>, requires_armed: bool },
    Ban { user_id: u64, guild_id: Option<u64>, delete_message_seconds: u32, reason: Seq<char> },
    Kick { user_id: u64, guild_id: Option<u64>, reason: Seq<char> },
    Timeout { user_id: u64, guild_id: Option<u64>, reason: Seq<char>, duration: i64 },
    SendLog {
        to: u64,
        filter_name: Seq<char>,
        message: u64,
        channel: u64,
        filter_reason: Seq<char>,
        author: u64,
        reaction: ReactionView,
    },
}

impl View for ReactionAction {
    type V = ReactionActionView;

    open spec fn view(&self) -> ReactionActionView {
        match self {
            ReactionAction::Delete { message_id, channel_id, reaction } =>
                ReactionActionView::Delete {
                    message_id: *message_id,
                    channel_id: *channel_id,
                    reaction: reaction@,
                },
            ReactionAction::SendMessage { to, content, requires_armed } =>
                ReactionActionView::SendMessage { to: *to, content: content@, requires_armed: *requires_armed },
            ReactionAction::Ban { user_id, guild_id, delete_message_seconds, reason } =>
                ReactionActionView::Ban {
                    user_id: *user_id,
                    guild_id: *guild_id,
                    delete_message_seconds: *delete_message_seconds,
                    reason: reason@,
                },
            ReactionAction::Kick { user_id, guild_id, reason } =>
                ReactionActionView::Kick { user_id: *user_id, guild_id: *guild_id, reason: reason@ },
            ReactionAction::Timeout { user_id, guild_id, reason, duration } =>
                ReactionActionView::Timeout {
                    user_id: *user_id,
                    guild_id: *guild_id,
                    reason: reason@,
                    duration: *duration,
                },
            ReactionAction::SendLog { to, filter_name, message, channel, filter_reason, author, reaction } =>
                ReactionActionView::SendLog {
                    to: *to,
                    filter_name: filter_name@,
                    message: *message,
                    channel: *channel,
                    filter_reason: filter_reason@,
                    author: *author,
                    reaction: reaction@,
                },
        }
    }
}

/// A template with `$USER_ID` and then `$FILTER_REASON` substituted.
/// `$USER_ID` becomes the author's numeric id in decimal, not a `<@id>`
/// mention, so that a notice names the offender without pinging them.
pub open spec fn fill_template(template: Seq<char>, author: u64, reason: Seq<char>) -> Seq<char> {
    replace_all(replace_all(template, "$USER_ID"@, decimal(author as nat)), "$FILTER_REASON"@, reason)
}

/// An audit-log reason with `$FILTER_REASON` substituted.
pub open spec fn fill_reason(template: Seq<char>, reason: Seq<char>) -> Seq<char> {
    replace_all(template, "$FILTER_REASON"@, reason)
}

/// `fa` bound to message `m`, which filter `name` failed for `reason`.
pub open spec fn bind_message(
    fa: MessageFilterAction,
    m: MessageInfo,
    name: Seq<char>,
    reason: Seq<char>,
    context: Seq<char>,
) -> MessageActionView {
    match fa {
        MessageFilterAction::Delete =>
            MessageActionView::Delete { message_id: m.id, channel_id: m.channel_id },
        MessageFilterAction::SendMessage { channel_id, content, requires_armed } =>
            MessageActionView::SendMessage {
                to: channel_id,
                content: message_preview(fill_template(content@, m.author_id, reason), m.content@),
                requires_armed,
            },
        MessageFilterAction::Ban { reason: r, delete_message_seconds } => MessageActionView::Ban {
            user_id: m.author_id,
            guild_id: m.guild_id,
            delete_message_seconds,
            reason: fill_reason(r@, reason),
        },
        MessageFilterAction::Kick { reason: r } =>
            MessageActionView::Kick { user_id: m.author_id, guild_id: m.guild_id, reason: fill_reason(r@, reason) },
        MessageFilterAction::Timeout { reason: r, duration } => MessageActionView::Timeout {
            user_id: m.author_id,
            guild_id: m.guild_id,
            reason: fill_reason(r@, reason),
            duration,
        },
        MessageFilterAction::SendLog { channel_id } => MessageActionView::SendLog {
            to: channel_id,
            filter_name: name,
            message_channel: m.channel_id,
            content: m.content@,
            filter_reason: reason,
            author: m.author_id,
            context,
        },
    }
}

/// `fa` bound to reaction `rx`, which filter `name` failed for `reason`.
pub open spec fn bind_reaction(
    fa: MessageFilterAction,
    rx: ReactionInfo,
    name: Seq<char>,
    reason: Seq<char>,
) -> ReactionActionView {
    match fa {
        MessageFilterAction::Delete => ReactionActionView::Delete {
            message_id: rx.message_id,
            channel_id: rx.channel_id,
            reaction: rx.reaction@,
        },
        MessageFilterAction::SendMessage { channel_id, content, requires_armed } =>
            ReactionActionView::SendMessage {
                to: channel_id,
                content: fill_template(content@, rx.author_id, reason),
                requires_armed,
            },
        MessageFilterAction::Ban { reason: r, delete_message_seconds } => ReactionActionView::Ban {
            user_id: rx.author_id,
            guild_id: rx.guild_id,
            delete_message_seconds,
            reason: fill_reason(r@, reason),
        },
        MessageFilterAction::Kick { reason: r } =>
            ReactionActionView::Kick { user_id: rx.author_id, guild_id: rx.guild_id, reason: fill_reason(r@, reason) },
        MessageFilterAction::Timeout { reason: r, duration } => ReactionActionView::Timeout {
            user_id: rx.author_id,
            guild_id: rx.guild_id,
            reason: fill_reason(r@, reason),
            duration,
        },
        MessageFilterAction::SendLog { channel_id } => ReactionActionView::SendLog {
            to: channel_id,
            filter_name: name,
            message: rx.message_id,
            channel: rx.channel_id,
            filter_reason: reason,
            author: rx.author_id,
            reaction: rx.reaction@,
        },
    }
}

fn fill_template_exec(template: &String, author: u64, reason: &str) -> (r: Vec<char>)
    ensures
        r@ == fill_template(template@, author, reason@),
{
    let user = chars_of("$USER_ID");
    let placeholder = chars_of("$FILTER_REASON");
    proof {
        reveal_strlit("$USER_ID");
        reveal_strlit("$FILTER_REASON");
    }
    let step = replace_all_exec(&chars_of(template.as_str()), &user, &decimal_string(author));
    replace_all_exec(&step, &placeholder, &chars_of(reason))
}

fn fill_reason_exec(template: &String, reason: &str) -> (r: String)
    ensures
        r@ == fill_reason(template@, reason@),
{
    let placeholder = chars_of("$FILTER_REASON");
    proof {
        reveal_strlit("$FILTER_REASON");
    }
    string_of(&replace_all_exec(&chars_of(template.as_str()), &placeholder, &chars_of(reason)))
}

/// Binds `filter_action` to `message`, which filter `filter_name` failed for
/// `filter_reason`.
pub fn map_filter_action_to_action(
    filter_action: &MessageFilterAction,
    message: &MessageInfo,
    filter_name: &str,
    filter_reason: &str,
    context: &str,
) -> (r: MessageAction)
    ensures
        r@ == bind_message(*filter_action, *message, filter_name@, filter_reason@, context@),
{
    match filter_action {
        MessageFilterAction::Delete => MessageAction::Delete {
            message_id: message.id,
            channel_id: message.channel_id,
        },
        MessageFilterAction::SendMessage { channel_id, content, requires_armed } => {
            let filled = fill_template_exec(content, message.author_id, filter_reason);
            let preview = preview_chars(&filled, &chars_of(message.content.as_str()));
            MessageAction::SendMessage {
                to: *channel_id,
                content: string_of(&preview),
                requires_armed: *requires_armed,
            }
        },
        MessageFilterAction::Ban { reason, delete_message_seconds } => MessageAction::Ban {
            user_id: message.author_id,
            guild_id: message.guild_id,
            delete_message_seconds: *delete_message_seconds,
            reason: fill_reason_exec(reason, filter_reason),
        },
        MessageFilterAction::Kick { reason } => MessageAction::Kick {
            user_id: message.author_id,
            guild_id: message.guild_id,
            reason: fill_reason_exec(reason, filter_reason),
        },
        MessageFilterAction::Timeout { reason, duration } => MessageAction::Timeout {
            user_id: message.author_id,
            guild_id: message.guild_id,
            reason: fill_reason_exec(reason, filter_reason),
            duration: *duration,
        },
        MessageFilterAction::SendLog { channel_id } => MessageAction::SendLog {
            to: *channel_id,
            filter_name: filter_name.to_owned(),
            message_channel: message.channel_id,
            content: message.content.clone(),
            filter_reason: filter_reason.to_owned(),
            author: message.author_id,
            context: context.to_owned(),
        },
    }
}

/// Binds `filter_action` to `reaction`, which filter `filter_name` failed for
/// `filter_reason`.
pub fn map_filter_action_to_reaction_action(
    filter_action: &MessageFilterAction,
    reaction: &ReactionInfo,
    filter_name: &str,
    filter_reason: &str,
) -> (r: ReactionAction)
    ensures
        r@ == bind_reaction(*filter_action, *reaction, filter_name@, filter_reason@),
{
    match filter_action {
        MessageFilterAction::Delete => ReactionAction::Delete {
            message_id: reaction.message_id,
            channel_id: reaction.channel_id,
            reaction: reaction.reaction.duplicate(),
        },
        MessageFilterAction::SendMessage { channel_id, content, requires_armed } => {
            let filled = fill_template_exec(content, reaction.author_id, filter_reason);
            ReactionAction::SendMessage {
                to: *channel_id,
                content: string_of(&filled),
                requires_armed: *requires_armed,
            }
        },
        MessageFilterAction::Ban { reason, delete_message_seconds } => ReactionAction::Ban {
            user_id: reaction.author_id,
            guild_id: reaction.guild_id,
            delete_message_seconds: *delete_message_seconds,
            reason: fill_reason_exec(reason, filter_reason),
        },
        MessageFilterAction::Kick { reason } => ReactionAction::Kick {
            user_id: reaction.author_id,
            guild_id: reaction.guild_id,
            reason: fill_reason_exec(reason, filter_reason),
        },
        MessageFilterAction::Timeout { reason, duration } => ReactionAction::Timeout {
            user_id: reaction.author_id,
            guild_id: reaction.guild_id,
            reason: fill_reason_exec(reason, filter_reason),
            duration: *duration,
        },
        MessageFilterAction::SendLog { channel_id } => ReactionAction::SendLog {
            to: *channel_id,
            filter_name: filter_name.to_owned(),
            message: reaction.message_id,
            channel: reaction.channel_id,
            filter_reason: filter_reason.to_owned(),
            author: reaction.author_id,
            reaction: reaction.reaction.duplicate(),
        },
    }
}

impl MessageActionView {
    /// Whether running the action needs the system to be armed.
    pub open spec fn needs_armed(self) -> bool {
        match self {
            MessageActionView::SendMessage { requires_armed, .. } => requires_armed,
            MessageActionView::SendLog { .. } => false,
            _ => true,
        }
    }
}

impl ReactionActionView {
    /// Whether running the action needs the system to be armed.
    pub open spec fn needs_armed(self) -> bool {
        match self {
            ReactionActionView::SendMessage { requires_armed, .. } => requires_armed,
            ReactionActionView::SendLog { .. } => false,
            _ => true,
        }
    }
}

impl MessageAction {
    /// Whether running the action needs the system to be armed: deletions and
    /// sanctions always do, a message as configured, a log never.
    pub fn requires_armed(&self) -> (r: bool)
        ensures
            r == self@.needs_armed(),
    {
        match self {
            MessageAction::SendMessage { requires_armed, .. } => *requires_armed,
            MessageAction::SendLog { .. } => false,
            _ => true,
        }
    }

    /// Whether the action deletes content.
    pub fn is_delete(&self) -> (r: bool)
        ensures
            r == self@ is Delete,
    {
        match self {
            MessageAction::Delete { .. } => true,
            _ => false,
        }
    }
}

impl ReactionAction {
    /// Whether running the action needs the system to be armed: deletions and
    /// sanctions always do, a message as configured, a log never.
    pub fn requires_armed(&self) -> (r: bool)
        ensures
            r == self@.needs_armed(),
    {
        match self {
            ReactionAction::SendMessage { requires_armed, .. } => *requires_armed,
            ReactionAction::SendLog { .. } => false,
            _ => true,
        }
    }

    /// Whether the action deletes content.
    pub fn is_delete(&self) -> (r: bool)
        ensures
            r == self@ is Delete,
    {
        match self {
            ReactionAction::Delete { .. } => true,
            _ => false,
        }
    }
}

/// Whether action `i` of a resolved list runs: it is not a deletion after an
/// earlier deletion, and it needs no arming or the system is armed.
pub open spec fn runs(deletes: Seq<bool>, armed_needed: Seq<bool>, armed: bool, i: int) -> bool {
    &&& !(deletes[i] && exists|j: int| 0 <= j < i && #[trigger] deletes[j])
    &&& (armed || !armed_needed[i])
}

/// The indices, ascending, of the actions that run.
pub open spec fn is_run_plan(plan: Seq<usize>, deletes: Seq<bool>, armed_needed: Seq<bool>, armed: bool) -> bool {
    &&& forall|k: int| 0 <= k < plan.len() ==> (#[trigger] plan[k]) < deletes.len()
    &&& forall|k: int, l: int| 0 <= k < l < plan.len() ==> plan[k] < plan[l]
    &&& forall|i: int| 0 <= i < deletes.len() ==>
        (plan.contains(i as usize) <==> runs(deletes, armed_needed, armed, i))
}

/// Picks the actions to run, in order, from flags saying which delete and
/// which need arming.
fn plan_from_flags(deletes: &Vec<bool>, armed_needed: &Vec<bool>, armed: bool) -> (r: Vec<usize>)
    requires
        deletes@.len() == armed_needed@.len(),
    ensures
        is_run_plan(r@, deletes@, armed_needed@, armed),
{
    let mut plan: Vec<usize> = Vec::new();
    let mut deleted = false;
    let mut i: usize = 0;
    while i < deletes.len()
        invariant
            i <= deletes@.len(),
            deletes@.len() == armed_needed@.len(),
            deleted <==> exists|j: int| 0 <= j < i && #[trigger] deletes@[j],
            forall|k: int| 0 <= k < plan@.len() ==> (#[trigger] plan@[k]) < i,
            forall|k: int, l: int| 0 <= k < l < plan@.len() ==> plan@[k] < plan@[l],
            forall|j: int| 0 <= j < i ==>
                (plan@.contains(j as usize) <==> runs(deletes@, armed_needed@, armed, j)),
        decreases deletes.len() - i,
    {
        let skip_duplicate = deletes[i] && deleted;
        let ghost before = plan@;
        if !skip_duplicate && (armed || !armed_needed[i]) {
            plan.push(i);
            assert(plan@[plan@.len() - 1] == i);
        }
        assert forall|j: int| 0 <= j < i + 1 implies
            (plan@.contains(j as usize) <==> runs(deletes@, armed_needed@, armed, j)) by {
            if j < i {
                if before.contains(j as usize) {
                    let k = choose|k: int| 0 <= k < before.len() && before[k] == j as usize;
                    assert(plan@[k] == j as usize);
                }
                if plan@.contains(j as usize) {
                    let k = choose|k: int| 0 <= k < plan@.len() && plan@[k] == j as usize;
                    assert(k < before.len());
                    assert(before[k] == j as usize);
                }
            } else {
                if plan@.contains(j as usize) {
                    let k = choose|k: int| 0 <= k < plan@.len() && plan@[k] == j as usize;
                    assert(k == before.len());
                }
            }
        }
        if deletes[i] {
            deleted = true;
        }
        i = i + 1;
    }
    plan
}

/// The actions of a resolved message batch that run, as ascending indices:
/// at most one deletion, since the content is gone after the first, and no
/// action needing arming while the system is not armed.
pub fn plan_message_actions(actions: &Vec<MessageAction>, armed: bool) -> (r: Vec<usize>)
    ensures
        is_run_plan(
            r@,
            actions@.map_values(|a: MessageAction| a@ is Delete),
            actions@.map_values(|a: MessageAction| a@.needs_armed()),
            armed,
        ),
        forall|k: int, l: int| 0 <= k < l < r@.len() && #[trigger] actions@[r@[k] as int]@ is Delete
            ==> !(#[trigger] actions@[r@[l] as int]@ is Delete),
{
    let mut deletes: Vec<bool> = Vec::new();
    let mut armed_needed: Vec<bool> = Vec::new();
    let mut i: usize = 0;
    while i < actions.len()
        invariant
            i <= actions@.len(),
            deletes@ == actions@.subrange(0, i as int).map_values(|a: MessageAction| a@ is Delete),
            armed_needed@ == actions@.subrange(0, i as int).map_values(|a: MessageAction| a@.needs_armed()),
        decreases actions.len() - i,
    {
        deletes.push(actions[i].is_delete());
        armed_needed.push(actions[i].requires_armed());
        i = i + 1;
        assert(deletes@ =~= actions@.subrange(0, i as int).map_values(|a: MessageAction| a@ is Delete));
        assert(armed_needed@ =~= actions@.subrange(0, i as int).map_values(|a: MessageAction| a@.needs_armed()));
    }
    assert(actions@.subrange(0, i as int) =~= actions@);
    let plan = plan_from_flags(&deletes, &armed_needed, armed);
    proof {
        assert forall|k: int, l: int| 0 <= k < l < plan@.len() && #[trigger] actions@[plan@[k] as int]@ is Delete
            implies !(#[trigger] actions@[plan@[l] as int]@ is Delete) by {
            lemma_plan_runs_one_delete(plan@, deletes@, armed_needed@, armed, k, l);
        }
    }
    plan
}

/// The actions of a resolved reaction batch that run, as ascending indices:
/// at most one deletion, and no action needing arming while the system is not
/// armed.
pub fn plan_reaction_actions(actions: &Vec<ReactionAction>, armed: bool) -> (r: Vec<usize>)
    ensures
        is_run_plan(
            r@,
            actions@.map_values(|a: ReactionAction| a@ is Delete),
            actions@.map_values(|a: ReactionAction| a@.needs_armed()),
            armed,
        ),
        forall|k: int, l: int| 0 <= k < l < r@.len() && #[trigger] actions@[r@[k] as int]@ is Delete
            ==> !(#[trigger] actions@[r@[l] as int]@ is Delete),
{
    let mut deletes: Vec<bool> = Vec::new();
    let mut armed_needed: Vec<bool> = Vec::new();
    let mut i: usize = 0;
    while i < actions.len()
        invariant
            i <= actions@.len(),
            deletes@ == actions@.subrange(0, i as int).map_values(|a: ReactionAction| a@ is Delete),
            armed_needed@ == actions@.subrange(0, i as int).map_values(|a: ReactionAction| a@.needs_armed()),
        decreases actions.len() - i,
    {
        deletes.push(actions[i].is_delete());
        armed_needed.push(actions[i].requires_armed());
        i = i + 1;
        assert(deletes@ =~= actions@.subrange(0, i as int).map_values(|a: ReactionAction| a@ is Delete));
        assert(armed_needed@ =~= actions@.subrange(0, i as int).map_values(|a: ReactionAction| a@.needs_armed()));
    }
    assert(actions@.subrange(0, i as int) =~= actions@);
    let plan = plan_from_flags(&deletes, &armed_needed, armed);
    proof {
        assert forall|k: int, l: int| 0 <= k < l < plan@.len() && #[trigger] actions@[plan@[k] as int]@ is Delete
            implies !(#[trigger] actions@[plan@[l] as int]@ is Delete) by {
            lemma_plan_runs_one_delete(plan@, deletes@, armed_needed@, armed, k, l);
        }
    }
    plan
}

/// Of the actions that a plan runs, at most one is a deletion.
pub proof fn lemma_plan_runs_one_delete(
    plan: Seq<usize>,
    deletes: Seq<bool>,
    armed_needed: Seq<bool>,
    armed: bool,
    k: int,
    l: int,
)
    requires
        is_run_plan(plan, deletes, armed_needed, armed),
        0 <= k < l < plan.len(),
        deletes[plan[k] as int],
    ensures
        !deletes[plan[l] as int],
{
    let i = plan[k] as int;
    let j = plan[l] as int;
    assert(plan[k] < plan[l]);
    assert(plan.contains(plan[l]));
    assert(plan[l] as int == j);
    assert(j as usize == plan[l]);
    assert(runs(deletes, armed_needed, armed, j));
}

/// When a timeout of `duration` seconds started at `now` (seconds since the
/// Unix epoch) ends; `None` when that instant is out of range.
pub fn timeout_expiry(now: i64, duration: i64) -> (r: Option<i64>)
    ensures
        r matches Some(t) ==> t == now + duration,
        r is None <==> !(i64::MIN <= now + duration <= i64::MAX),
{
    now.checked_add(duration)
}

} // verus!
