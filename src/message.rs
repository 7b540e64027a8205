//! The resolution pipeline for messages: the first filter in scope that fails
//! wins, then the spam window; the winner's actions are bound to the message.

use std::collections::VecDeque;
use twilight_mention::Mention as _;
use vstd::prelude::*;
use crate::action::{MessageAction, MessageFilterAction, bind_message, map_filter_action_to_action};
use crate::extract::Extractors;
use crate::filter::{MessageFilter, rules_outcome, rules_text_outcome};
use crate::model::{Mention, MessageInfo};
use crate::text::{chars_of, decimal, replace_all, replace_all_exec, string_of};
use crate::scoping::Scoping;
use crate::spam::{SpamFilter, SpamRecord, check_spam_record, pruned, spam_outcome};

verus! {

/// The name under which the spam window reports.
pub const SPAM_FILTER_NAME: &'static str = "Spam";

/// A message that failed a filter: the filter, and the actions bound to the
/// message.
#[derive(Debug, PartialEq, Eq)]
pub struct MessageFilterFailure {
    pub actions: Vec<MessageAction>,
    pub filter_name: String,
    pub context: String,
}

/// The scoping in force: a filter's own, else the default.
pub open spec fn effective_scoping<'a>(own: &'a Option<Scoping>, default: Option<&'a Scoping>) -> Option<&'a Scoping> {
    match own {
        Some(s) => Some(s),
        None => default,
    }
}

/// Whether an event in `channel` by an author with `roles` is in scope of
/// `scoping`; everything is when there is none.
pub open spec fn in_scope(scoping: Option<&Scoping>, channel: u64, roles: Seq<u64>) -> bool {
    match scoping {
        Some(s) => s.includes(channel, roles),
        None => true,
    }
}

/// The actions in force: a filter's own, else the default, else none.
pub open spec fn effective_actions(
    own: Option<Vec<MessageFilterAction>>,
    default: Option<&Vec<MessageFilterAction>>,
) -> Seq<MessageFilterAction> {
    match own {
        Some(a) => a@,
        None => match default {
            Some(d) => d@,
            None => Seq::empty(),
        },
    }
}

/// Whether filter `f` applies to `m` and fails it.
pub open spec fn filter_fails(f: MessageFilter, ds: Option<&Scoping>, m: &MessageInfo) -> bool {
    in_scope(effective_scoping(&f.scoping, ds), m.channel_id, m.author_roles@)
        && rules_outcome(f.rules@, m, 0) is Err
}

/// The index of the first filter, from `i` on, that applies to `m` and fails it.
pub open spec fn first_failing(filters: Seq<MessageFilter>, ds: Option<&Scoping>, m: &MessageInfo, i: int) -> Option<int>
    decreases filters.len() - i,
{
    if i < 0 || i >= filters.len() {
        None
    } else if filter_fails(filters[i], ds, m) {
        Some(i)
    } else {
        first_failing(filters, ds, m, i + 1)
    }
}

/// Whether `actions` are `templates` bound, in order, to `m`.
pub open spec fn bound_to_message(
    actions: Seq<MessageAction>,
    templates: Seq<MessageFilterAction>,
    m: MessageInfo,
    name: Seq<char>,
    reason: Seq<char>,
    context: Seq<char>,
) -> bool {
    &&& actions.len() == templates.len()
    &&& forall|j: int| 0 <= j < actions.len() ==> (#[trigger] actions[j])@
        == bind_message(templates[j], m, name, reason, context)
}

/// Binds each of `templates`, in order, to `message`.
pub fn synthesize_actions(
    templates: &Vec<MessageFilterAction>,
    message: &MessageInfo,
    filter_name: &str,
    filter_reason: &str,
    context: &str,
) -> (r: Vec<MessageAction>)
    ensures
        bound_to_message(r@, templates@, *message, filter_name@, filter_reason@, context@),
{
    let mut out: Vec<MessageAction> = Vec::new();
    let mut i: usize = 0;
    while i < templates.len()
        invariant
            i <= templates@.len(),
            bound_to_message(out@, templates@.subrange(0, i as int), *message, filter_name@,
                filter_reason@, context@),
        decreases templates.len() - i,
    {
        out.push(map_filter_action_to_action(&templates[i], message, filter_name, filter_reason, context));
        i = i + 1;
    }
    assert(templates@.subrange(0, i as int) =~= templates@);
    out
}

fn resolve_actions<'a>(
    own: &'a Option<Vec<MessageFilterAction>>,
    default: Option<&'a Vec<MessageFilterAction>>,
) -> (r: Option<&'a Vec<MessageFilterAction>>)
    ensures
        match r {
            Some(a) => a@ == effective_actions(*own, default),
            None => effective_actions(*own, default) == Seq::<MessageFilterAction>::empty(),
        },
{
    match own {
        Some(a) => Some(a),
        None => default,
    }
}

/// Runs the filters in order over `message` and stops at the first one in
/// scope that fails it; its actions, or else the default ones, are bound to
/// the message.
pub fn filter_message(
    ex: &Extractors,
    filters: &Vec<MessageFilter>,
    default_scoping: Option<&Scoping>,
    default_actions: Option<&Vec<MessageFilterAction>>,
    message: &MessageInfo,
    context: &str,
) -> (r: Result<(), MessageFilterFailure>)
    requires
        ex.wf(),
    ensures
        r is Ok <==> first_failing(filters@, default_scoping, message, 0) is None,
        r matches Err(f) ==> {
            let k = first_failing(filters@, default_scoping, message, 0)->0;
            let reason = rules_outcome(filters@[k].rules@, message, 0)->Err_0;
            &&& f.filter_name@ == filters@[k].name@
            &&& f.context@ == context@
            &&& bound_to_message(f.actions@, effective_actions(filters@[k].actions, default_actions),
                *message, filters@[k].name@, reason, context@)
        },
{
    let mut i: usize = 0;
    while i < filters.len()
        invariant
            i <= filters@.len(),
            ex.wf(),
            first_failing(filters@, default_scoping, message, 0)
                == first_failing(filters@, default_scoping, message, i as int),
        decreases filters.len() - i,
    {
        let filter = &filters[i];
        let scoping = match &filter.scoping {
            Some(s) => Some(s),
            None => default_scoping,
        };
        let included = match scoping {
            Some(s) => s.is_included(message.channel_id, message.author_roles.as_slice()),
            None => true,
        };
        if included {
            let result = filter.filter_message(ex, message);
            if let Err(reason) = result {
                let actions = match resolve_actions(&filter.actions, default_actions) {
                    Some(templates) => synthesize_actions(templates, message, filter.name.as_str(),
                        reason.as_str(), context),
                    None => Vec::new(),
                };
                assert(first_failing(filters@, default_scoping, message, i as int) == Some(i as int));
                return Err(MessageFilterFailure {
                    actions,
                    filter_name: filter.name.clone(),
                    context: context.to_owned(),
                });
            }
        }
        i = i + 1;
    }
    Ok(())
}

/// When two filters both apply to a message and fail it, the later one never
/// decides the outcome: the earliest failing filter in order does.
pub proof fn lemma_first_filter_wins(
    filters: Seq<MessageFilter>,
    ds: Option<&Scoping>,
    m: &MessageInfo,
    i: int,
    j: int,
)
    requires
        0 <= i < j < filters.len(),
        filter_fails(filters[i], ds, m),
        filter_fails(filters[j], ds, m),
    ensures
        first_failing(filters, ds, m, 0) is Some,
        first_failing(filters, ds, m, 0)->0 <= i,
        first_failing(filters, ds, m, 0)->0 != j,
{
    lemma_first_failing_at_most(filters, ds, m, 0, i);
}

proof fn lemma_first_failing_at_most(filters: Seq<MessageFilter>, ds: Option<&Scoping>, m: &MessageInfo, k: int, i: int)
    requires
        0 <= k <= i < filters.len(),
        filter_fails(filters[i], ds, m),
    ensures
        first_failing(filters, ds, m, k) is Some,
        k <= first_failing(filters, ds, m, k)->0 <= i,
    decreases i - k,
{
    if k < i && !filter_fails(filters[k], ds, m) {
        lemma_first_failing_at_most(filters, ds, m, k + 1, i);
    }
}

/// What the spam stage decides about `m` given the author's window `h`.
pub open spec fn spam_stage_outcome(h: Seq<SpamRecord>, rec: SpamRecord, cfg: SpamFilter, now: u64) -> Result<(), Seq<char>> {
    spam_outcome(pruned(h, now, cfg.interval), rec, cfg)
}

/// Runs the spam window over `message` when it is in scope of the spam
/// configuration (its own scoping, else the default). `history` is the
/// author's window: expired records leave it and the message's record joins
/// it. On a violation the actions, its own or the default ones, are bound to
/// the message under the name of the spam filter.
pub fn spam_check_message(
    ex: &Extractors,
    spam_config: &SpamFilter,
    default_scoping: Option<&Scoping>,
    default_actions: Option<&Vec<MessageFilterAction>>,
    history: &mut VecDeque<SpamRecord>,
    message: &MessageInfo,
    context: &str,
    now: u64,
) -> (r: Result<(), MessageFilterFailure>)
    requires
        ex.wf(),
    ensures
        !in_scope(effective_scoping(&spam_config.scoping, default_scoping), message.channel_id,
            message.author_roles@) ==> r is Ok && final(history)@ == old(history)@,
        in_scope(effective_scoping(&spam_config.scoping, default_scoping), message.channel_id,
            message.author_roles@) ==> {
            let rec = final(history)@.last();
            &&& final(history)@ == pruned(old(history)@, now, spam_config.interval).push(rec)
            &&& rec.records(message)
            &&& (r is Ok <==> spam_stage_outcome(old(history)@, rec, *spam_config, now) is Ok)
            &&& (r matches Err(f) ==> {
                &&& f.filter_name@ == SPAM_FILTER_NAME@
                &&& f.context@ == context@
                &&& bound_to_message(f.actions@, effective_actions(spam_config.actions, default_actions),
                    *message, SPAM_FILTER_NAME@,
                    spam_stage_outcome(old(history)@, rec, *spam_config, now)->Err_0, context@)
            })
        },
{
    let scoping = match &spam_config.scoping {
        Some(s) => Some(s),
        None => default_scoping,
    };
    let included = match scoping {
        Some(s) => s.is_included(message.channel_id, message.author_roles.as_slice()),
        None => true,
    };
    if !included {
        return Ok(());
    }
    let record = SpamRecord::from_message(ex, message);
    let result = check_spam_record(history, record, spam_config, now);
    match result {
        Ok(()) => Ok(()),
        Err(reason) => {
            let actions = match resolve_actions(&spam_config.actions, default_actions) {
                Some(templates) => synthesize_actions(templates, message, SPAM_FILTER_NAME,
                    reason.as_str(), context),
                None => Vec::new(),
            };
            Err(MessageFilterFailure {
                actions,
                filter_name: SPAM_FILTER_NAME.to_owned(),
                context: context.to_owned(),
            })
        },
    }
}

/// Runs the filters over `message`, and the spam window after them when no
/// filter failed it and spam detection is configured.
pub fn filter_and_spam_check_message(
    ex: &Extractors,
    spam_config: Option<&SpamFilter>,
    filters: &Vec<MessageFilter>,
    default_scoping: Option<&Scoping>,
    default_actions: Option<&Vec<MessageFilterAction>>,
    history: &mut VecDeque<SpamRecord>,
    message: &MessageInfo,
    context: &str,
    now: u64,
) -> (r: Result<(), MessageFilterFailure>)
    requires
        ex.wf(),
    ensures
        first_failing(filters@, default_scoping, message, 0) is Some ==> {
            let k = first_failing(filters@, default_scoping, message, 0)->0;
            let reason = rules_outcome(filters@[k].rules@, message, 0)->Err_0;
            &&& final(history)@ == old(history)@
            &&& r is Err
            &&& r->Err_0.filter_name@ == filters@[k].name@
            &&& r->Err_0.context@ == context@
            &&& bound_to_message(r->Err_0.actions@, effective_actions(filters@[k].actions, default_actions),
                *message, filters@[k].name@, reason, context@)
        },
        spam_config is None ==> final(history)@ == old(history)@,
        first_failing(filters@, default_scoping, message, 0) is None && spam_config is None ==> r is Ok,
        first_failing(filters@, default_scoping, message, 0) is None ==> (spam_config matches Some(cfg) ==> {
            let in_window = in_scope(effective_scoping(&cfg.scoping, default_scoping), message.channel_id,
                message.author_roles@);
            let rec = final(history)@.last();
            &&& !in_window ==> r is Ok && final(history)@ == old(history)@
            &&& in_window ==> final(history)@ == pruned(old(history)@, now, cfg.interval).push(rec)
                && rec.records(message)
                && (r is Ok <==> spam_stage_outcome(old(history)@, rec, *cfg, now) is Ok)
                && (r matches Err(f) ==> f.filter_name@ == SPAM_FILTER_NAME@ && f.context@ == context@
                    && bound_to_message(f.actions@, effective_actions(cfg.actions, default_actions),
                        *message, SPAM_FILTER_NAME@,
                        spam_stage_outcome(old(history)@, rec, *cfg, now)->Err_0, context@))
        }),
{
    let result = filter_message(ex, filters, default_scoping, default_actions, message, context);
    match result {
        Ok(()) => match spam_config {
            Some(cfg) => spam_check_message(ex, cfg, default_scoping, default_actions, history, message,
                context, now),
            None => Ok(()),
        },
        Err(f) => Err(f),
    }
}

/// How a user mention is written in message text: `<@`, the id, `>`.
pub open spec fn user_mention_text(id: u64) -> Seq<char> {
    "<@"@ + decimal(id as nat) + ">"@
}

/// Relies on twilight-mention's `Mention` for user ids: `<@`, the id in
/// decimal, `>`.
#[verifier::external_body]
fn user_mention(id: u64) -> (r: String)
    requires
        id != 0,
    ensures
        r@ == user_mention_text(id),
{
    twilight_model::id::Id::<twilight_model::id::marker::UserMarker>::new(id).mention().to_string()
}

/// The name a mention is shown with: the nickname, else the user name.
pub open spec fn display_name(m: Mention) -> Seq<char> {
    match m.nick {
        Some(n) => n@,
        None => m.name@,
    }
}

/// `content` with the mentions of the first `mentions.len()` users replaced,
/// in order, by `@` and their display names.
pub open spec fn cleaned(content: Seq<char>, mentions: Seq<Mention>) -> Seq<char>
    decreases mentions.len(),
{
    if mentions.len() == 0 {
        content
    } else {
        let m = mentions.last();
        replace_all(cleaned(content, mentions.drop_last()), user_mention_text(m.id),
            seq!['@'] + display_name(m))
    }
}

/// Replaces each user mention in `content` with `@` and the user's display
/// name.
pub fn clean_mentions(content: &str, mentions: &[Mention]) -> (r: String)
    requires
        forall|i: int| 0 <= i < mentions@.len() ==> (#[trigger] mentions@[i]).id != 0,
    ensures
        r@ == cleaned(content@, mentions@),
{
    let mut text = chars_of(content);
    let mut i: usize = 0;
    while i < mentions.len()
        invariant
            i <= mentions@.len(),
            forall|k: int| 0 <= k < mentions@.len() ==> (#[trigger] mentions@[k]).id != 0,
            text@ == cleaned(content@, mentions@.subrange(0, i as int)),
        decreases mentions.len() - i,
    {
        let m = &mentions[i];
        let mut shown: Vec<char> = vec!['@'];
        match &m.nick {
            Some(n) => crate::text::extend_chars(&mut shown, &chars_of(n.as_str())),
            None => crate::text::extend_chars(&mut shown, &chars_of(m.name.as_str())),
        }
        let raw = chars_of(user_mention(m.id).as_str());
        proof {
            reveal_strlit("<@");
            assert(raw@.len() > 0) by {
                assert(raw@[0] == '<');
            }
            assert(mentions@.subrange(0, i + 1).drop_last() =~= mentions@.subrange(0, i as int));
            assert(mentions@.subrange(0, i + 1).last() == *m);
            assert(shown@ =~= seq!['@'] + display_name(*m));
        }
        text = replace_all_exec(&text, &raw, &shown);
        i = i + 1;
    }
    assert(mentions@.subrange(0, i as int) =~= mentions@);
    string_of(&text)
}

/// Tests a text against the filters in order, ignoring scoping: the first
/// filter whose rules fail the text, with the reason.
pub fn first_failing_text(ex: &Extractors, filters: &Vec<MessageFilter>, text: &str) -> (r: Option<(usize, String)>)
    requires
        ex.wf(),
    ensures
        r is None <==> forall|k: int| 0 <= k < filters@.len()
            ==> (#[trigger] rules_text_outcome(filters@[k].rules@, text@, 0)) is Ok,
        r matches Some(hit) ==> {
            &&& hit.0 < filters@.len()
            &&& rules_text_outcome(filters@[hit.0 as int].rules@, text@, 0) == Err::<(), Seq<char>>(hit.1@)
            &&& forall|j: int| 0 <= j < hit.0 ==> (#[trigger] rules_text_outcome(filters@[j].rules@, text@, 0)) is Ok
        },
{
    let mut i: usize = 0;
    while i < filters.len()
        invariant
            i <= filters@.len(),
            ex.wf(),
            forall|j: int| 0 <= j < i ==> (#[trigger] rules_text_outcome(filters@[j].rules@, text@, 0)) is Ok,
        decreases filters.len() - i,
    {
        if let Err(reason) = filters[i].filter_text(ex, text) {
            return Some((i, reason));
        }
        i = i + 1;
    }
    None
}

} // verus!
