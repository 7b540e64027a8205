//! Sliding-window spam detection: per-author history of recent messages and
//! the thresholds a new message is held against.

use std::collections::VecDeque;
use vstd::prelude::*;
use crate::action::MessageFilterAction;
use crate::extract::{
    EMOJI_PATTERN, Extractors, LINK_PATTERN, MENTION_PATTERN, SPOILER_PATTERN, match_count,
};
use crate::filter::outcome;
use crate::model::MessageInfo;
use crate::scoping::Scoping;

verus! {

/// What one message contributed to the spam counters.
#[derive(Debug)]
pub struct SpamRecord {
    pub content: String,
    pub emoji: u8,
    pub links: u8,
    pub attachments: u8,
    pub spoilers: u8,
    pub mentions: u8,
    /// When the message was sent, in microseconds since the Unix epoch.
    pub sent_at: i64,
}

/// Spam thresholds of a community.
#[derive(Debug, Default)]
pub struct SpamFilter {
    /// How many emoji in a given interval constitute spam.
    pub emoji: Option<u8>,
    /// How many duplicates in a given interval constitute spam.
    pub duplicates: Option<u8>,
    /// How many links in a given interval constitute spam.
    pub links: Option<u8>,
    /// How many attachments in a given interval constitute spam.
    pub attachments: Option<u8>,
    /// How many spoilers in a given interval constitute spam.
    pub spoilers: Option<u8>,
    /// How many mentions in a given interval constitute spam.
    pub mentions: Option<u8>,
    /// How long, in seconds, to consider messages for spam.
    pub interval: u16,
    /// What actions to take when a message is considered spam.
    pub actions: Option<Vec<MessageFilterAction>>,
    /// Scoping rules to apply to the spam filter.
    pub scoping: Option<Scoping>,
}

/// `n`, capped at the largest `u8`.
pub open spec fn cap_u8(n: nat) -> u8 {
    if n > 255 { 255 } else { n as u8 }
}

fn cap_u8_exec(n: usize) -> (r: u8)
    ensures
        r == cap_u8(n as nat),
{
    if n > 255 { 255 } else { n as u8 }
}

impl SpamRecord {
    /// Whether this record is what `m` contributes, counted with the fixed
    /// patterns, each count capped at 255.
    pub open spec fn records(&self, m: &MessageInfo) -> bool {
        &&& self.content@ == m.content@
        &&& self.emoji == cap_u8(match_count(EMOJI_PATTERN@, false, m.content@))
        &&& self.links == cap_u8(match_count(LINK_PATTERN@, true, m.content@))
        &&& self.attachments == cap_u8(m.attachments@.len())
        &&& self.spoilers == cap_u8(match_count(SPOILER_PATTERN@, false, m.content@))
        &&& self.mentions == cap_u8(match_count(MENTION_PATTERN@, false, m.content@))
        &&& self.sent_at == m.timestamp
    }

    /// Counts what `message` contributes to the spam counters.
    pub fn from_message(ex: &Extractors, message: &MessageInfo) -> (r: SpamRecord)
        requires
            ex.wf(),
        ensures
            r.records(message),
    {
        let content = message.content.as_str();
        SpamRecord {
            content: message.content.clone(),
            emoji: cap_u8_exec(ex.emoji_count(content)),
            links: cap_u8_exec(ex.link_count(content)),
            attachments: cap_u8_exec(message.attachments.len()),
            spoilers: cap_u8_exec(ex.spoiler_count(content)),
            mentions: cap_u8_exec(ex.mention_count(content)),
            sent_at: message.timestamp,
        }
    }
}

/// One of the summed counters.
pub enum Metric {
    Emoji,
    Links,
    Attachments,
    Spoilers,
    Mentions,
}

/// The value of counter `k` in `r`.
pub open spec fn metric(r: SpamRecord, k: Metric) -> u8 {
    match k {
        Metric::Emoji => r.emoji,
        Metric::Links => r.links,
        Metric::Attachments => r.attachments,
        Metric::Spoilers => r.spoilers,
        Metric::Mentions => r.mentions,
    }
}

/// The sum of counter `k` over `h`.
pub open spec fn metric_sum(h: Seq<SpamRecord>, k: Metric) -> nat
    decreases h.len(),
{
    if h.len() == 0 {
        0
    } else {
        metric_sum(h.drop_last(), k) + metric(h.last(), k) as nat
    }
}

/// How many records of `h` hold `content`.
pub open spec fn duplicates(h: Seq<SpamRecord>, content: Seq<char>) -> nat
    decreases h.len(),
{
    if h.len() == 0 {
        0
    } else {
        duplicates(h.drop_last(), content) + if h.last().content@ == content { 1nat } else { 0nat }
    }
}

/// The window total of counter `k`: the current record plus the history,
/// capped at 255.
pub open spec fn window_total(h: Seq<SpamRecord>, cur: SpamRecord, k: Metric) -> u8 {
    cap_u8(metric(cur, k) as nat + metric_sum(h, k))
}

/// Whether a configured threshold is passed by `total` while the current
/// record contributed to it.
pub open spec fn over(limit: Option<u8>, total: u8, own: u8) -> bool {
    match limit {
        Some(t) => total > t && own > 0,
        None => false,
    }
}

/// The outcome of holding `cur` against the thresholds of `cfg` over the
/// window `h`: emoji, links, attachments, spoilers, mentions, duplicates, the
/// first passed one deciding.
pub open spec fn spam_outcome(h: Seq<SpamRecord>, cur: SpamRecord, cfg: SpamFilter) -> Result<(), Seq<char>> {
    if over(cfg.emoji, window_total(h, cur, Metric::Emoji), cur.emoji) {
        Err("sent too many emoji"@)
    } else if over(cfg.links, window_total(h, cur, Metric::Links), cur.links) {
        Err("sent too many links"@)
    } else if over(cfg.attachments, window_total(h, cur, Metric::Attachments), cur.attachments) {
        Err("sent too many attachments"@)
    } else if over(cfg.spoilers, window_total(h, cur, Metric::Spoilers), cur.spoilers) {
        Err("sent too many spoilers"@)
    } else if over(cfg.mentions, window_total(h, cur, Metric::Mentions), cur.mentions) {
        Err("sent too many mentions"@)
    } else if over(cfg.duplicates, cap_u8(1 + duplicates(h, cur.content@)), 1) {
        Err("sent too many duplicate messages"@)
    } else {
        Ok(())
    }
}

fn over_exec(limit: Option<u8>, total: u8, own: u8) -> (r: bool)
    ensures
        r == over(limit, total, own),
{
    match limit {
        Some(t) => total > t && own > 0,
        None => false,
    }
}

/// Holds `current_record` against the thresholds of `config`, summing over
/// `history` and the record itself.
pub fn exceeds_spam_thresholds(
    history: &VecDeque<SpamRecord>,
    current_record: &SpamRecord,
    config: &SpamFilter,
) -> (r: Result<(), String>)
    ensures
        outcome(r) == spam_outcome(history@, *current_record, *config),
{
    let mut emoji = current_record.emoji;
    let mut links = current_record.links;
    let mut attachments = current_record.attachments;
    let mut spoilers = current_record.spoilers;
    let mut mentions = current_record.mentions;
    let mut dups: u8 = 1;
    let mut i: usize = 0;
    while i < history.len()
        invariant
            i <= history@.len(),
            emoji == window_total(history@.subrange(0, i as int), *current_record, Metric::Emoji),
            links == window_total(history@.subrange(0, i as int), *current_record, Metric::Links),
            attachments == window_total(history@.subrange(0, i as int), *current_record, Metric::Attachments),
            spoilers == window_total(history@.subrange(0, i as int), *current_record, Metric::Spoilers),
            mentions == window_total(history@.subrange(0, i as int), *current_record, Metric::Mentions),
            dups == cap_u8(1 + duplicates(history@.subrange(0, i as int), current_record.content@)),
        decreases history.len() - i,
    {
        let r = &history[i];
        assert(history@.subrange(0, i + 1).drop_last() =~= history@.subrange(0, i as int));
        assert(history@.subrange(0, i + 1).last() == *r);
        emoji = emoji.saturating_add(r.emoji);
        links = links.saturating_add(r.links);
        attachments = attachments.saturating_add(r.attachments);
        spoilers = spoilers.saturating_add(r.spoilers);
        mentions = mentions.saturating_add(r.mentions);
        let same = r.content == current_record.content;
        dups = dups.saturating_add(if same { 1 } else { 0 });
        i = i + 1;
    }
    assert(history@.subrange(0, i as int) =~= history@);
    if over_exec(config.emoji, emoji, current_record.emoji) {
        Err("sent too many emoji".to_owned())
    } else if over_exec(config.links, links, current_record.links) {
        Err("sent too many links".to_owned())
    } else if over_exec(config.attachments, attachments, current_record.attachments) {
        Err("sent too many attachments".to_owned())
    } else if over_exec(config.spoilers, spoilers, current_record.spoilers) {
        Err("sent too many spoilers".to_owned())
    } else if over_exec(config.mentions, mentions, current_record.mentions) {
        Err("sent too many mentions".to_owned())
    } else if over_exec(config.duplicates, dups, 1) {
        Err("sent too many duplicate messages".to_owned())
    } else {
        Ok(())
    }
}

/// Whether `r` is older than the window of `interval` seconds ending at `now`
/// (microseconds since the Unix epoch).
pub open spec fn expired(r: SpamRecord, now: u64, interval: u16) -> bool {
    now as int - r.sent_at as int > interval as int * 1_000_000
}

/// `h` without its expired records, the others kept in order.
pub open spec fn pruned(h: Seq<SpamRecord>, now: u64, interval: u16) -> Seq<SpamRecord>
    decreases h.len(),
{
    if h.len() == 0 {
        h
    } else if expired(h.last(), now, interval) {
        pruned(h.drop_last(), now, interval)
    } else {
        pruned(h.drop_last(), now, interval).push(h.last())
    }
}

/// Drops every expired record from `history`, holds `record` against the
/// thresholds of `config` over what is left, and appends `record` whatever
/// the outcome.
pub fn check_spam_record(
    history: &mut VecDeque<SpamRecord>,
    record: SpamRecord,
    config: &SpamFilter,
    now: u64,
) -> (r: Result<(), String>)
    ensures
        outcome(r) == spam_outcome(pruned(old(history)@, now, config.interval), record, *config),
        final(history)@ == pruned(old(history)@, now, config.interval).push(record),
        forall|i: int| 0 <= i < final(history)@.len() - 1
            ==> !expired(#[trigger] final(history)@[i], now, config.interval),
{
    let ghost h0 = history@;
    let limit: i128 = (config.interval as i128) * 1_000_000;
    let n = history.len();
    let mut i: usize = 0;
    while i < n
        invariant
            i <= n,
            n == h0.len(),
            limit == config.interval as int * 1_000_000,
            history@ == h0.subrange(i as int, n as int) + pruned(h0.subrange(0, i as int), now, config.interval),
        decreases n - i,
    {
        let ghost before = history@;
        assert(before[0] == h0[i as int]);
        let front = history.pop_front();
        let ghost kept = pruned(h0.subrange(0, i as int), now, config.interval);
        assert(h0.subrange(0, i + 1).drop_last() =~= h0.subrange(0, i as int));
        assert(h0.subrange(0, i + 1).last() == h0[i as int]);
        match front {
            Some(rec) => {
                if (now as i128) - (rec.sent_at as i128) <= limit {
                    history.push_back(rec);
                    assert(history@ =~= h0.subrange(i + 1, n as int)
                        + pruned(h0.subrange(0, i + 1), now, config.interval));
                } else {
                    assert(history@ =~= h0.subrange(i + 1, n as int)
                        + pruned(h0.subrange(0, i + 1), now, config.interval));
                }
            },
            None => {},
        }
        i = i + 1;
    }
    assert(h0.subrange(n as int, n as int) + pruned(h0.subrange(0, n as int), now, config.interval)
        =~= pruned(h0, now, config.interval)) by {
        assert(h0.subrange(0, n as int) =~= h0);
    }
    proof {
        lemma_window_holds_no_expired(h0, now, config.interval);
    }
    let result = exceeds_spam_thresholds(history, &record, config);
    history.push_back(record);
    result
}

/// No record left in a pruned window is older than the interval: an expired
/// record never reaches a threshold sum.
pub proof fn lemma_window_holds_no_expired(h: Seq<SpamRecord>, now: u64, interval: u16)
    ensures
        forall|i: int| 0 <= i < pruned(h, now, interval).len()
            ==> !expired(#[trigger] pruned(h, now, interval)[i], now, interval),
    decreases h.len(),
{
    if h.len() > 0 {
        lemma_window_holds_no_expired(h.drop_last(), now, interval);
        let p = pruned(h.drop_last(), now, interval);
        if !expired(h.last(), now, interval) {
            assert forall|i: int| 0 <= i < p.push(h.last()).len() implies
                !expired(#[trigger] p.push(h.last())[i], now, interval) by {
                if i < p.len() {
                    assert(p.push(h.last())[i] == p[i]);
                }
            }
        }
    }
}

/// Pruning keeps every record still inside the window, in order: the window
/// is exactly the records of `h` that are not expired.
pub proof fn lemma_window_keeps_live(h: Seq<SpamRecord>, now: u64, interval: u16)
    ensures
        pruned(h, now, interval) == h.filter(|r: SpamRecord| !expired(r, now, interval)),
    decreases h.len(),
{
    reveal(Seq::filter);
    if h.len() > 0 {
        lemma_window_keeps_live(h.drop_last(), now, interval);
    }
}

} // verus!
