//! The resolution pipeline for reactions: the first filter in scope that fails
//! the reaction wins, and its actions are bound to the reaction.

use vstd::prelude::*;
use crate::action::{
    MessageFilterAction, ReactionAction, bind_reaction, map_filter_action_to_reaction_action,
};
use crate::filter::{ReactionFilter, reaction_rules_outcome};
use crate::message::{effective_actions, effective_scoping, in_scope};
use crate::model::ReactionInfo;
use crate::scoping::Scoping;

verus! {

/// A reaction that failed a filter: the filter, and the actions bound to the
/// reaction.
#[derive(Debug, PartialEq, Eq)]
pub struct ReactionFilterFailure {
    pub filter_name: String,
    pub actions: Vec<ReactionAction>,
}

/// Whether filter `f` applies to `rx` and fails it.
pub open spec fn reaction_filter_fails(f: ReactionFilter, ds: Option<&Scoping>, rx: &ReactionInfo) -> bool {
    in_scope(effective_scoping(&f.scoping, ds), rx.channel_id, rx.author_roles@)
        && reaction_rules_outcome(f.rules@, rx.reaction@, 0) is Err
}

/// The index of the first filter, from `i` on, that applies to `rx` and fails it.
pub open spec fn first_failing_reaction(
    filters: Seq<ReactionFilter>,
    ds: Option<&Scoping>,
    rx: &ReactionInfo,
    i: int,
) -> Option<int>
    decreases filters.len() - i,
{
    if i < 0 || i >= filters.len() {
        None
    } else if reaction_filter_fails(filters[i], ds, rx) {
        Some(i)
    } else {
        first_failing_reaction(filters, ds, rx, i + 1)
    }
}

/// Whether `actions` are `templates` bound, in order, to `rx`.
pub open spec fn bound_to_reaction(
    actions: Seq<ReactionAction>,
    templates: Seq<MessageFilterAction>,
    rx: ReactionInfo,
    name: Seq<char>,
    reason: Seq<char>,
) -> bool {
    &&& actions.len() == templates.len()
    &&& forall|j: int| 0 <= j < actions.len() ==> (#[trigger] actions[j])@
        == bind_reaction(templates[j], rx, name, reason)
}

/// Runs the filters in order over `reaction` and stops at the first one in
/// scope that fails it; its actions, or else the default ones, are bound to
/// the reaction.
pub fn filter_reaction(
    filters: &Vec<ReactionFilter>,
    default_scoping: Option<&Scoping>,
    default_actions: Option<&Vec<MessageFilterAction>>,
    reaction: &ReactionInfo,
) -> (r: Result<(), ReactionFilterFailure>)
    ensures
        r is Ok <==> first_failing_reaction(filters@, default_scoping, reaction, 0) is None,
        r matches Err(f) ==> {
            let k = first_failing_reaction(filters@, default_scoping, reaction, 0)->0;
            let reason = reaction_rules_outcome(filters@[k].rules@, reaction.reaction@, 0)->Err_0;
            &&& f.filter_name@ == filters@[k].name@
            &&& bound_to_reaction(f.actions@, effective_actions(filters@[k].actions, default_actions),
                *reaction, filters@[k].name@, reason)
        },
{
    let mut i: usize = 0;
    while i < filters.len()
        invariant
            i <= filters@.len(),
            first_failing_reaction(filters@, default_scoping, reaction, 0)
                == first_failing_reaction(filters@, default_scoping, reaction, i as int),
        decreases filters.len() - i,
    {
        let filter = &filters[i];
        let scoping = match &filter.scoping {
            Some(s) => Some(s),
            None => default_scoping,
        };
        let included = match scoping {
            Some(s) => s.is_included(reaction.channel_id, reaction.author_roles.as_slice()),
            None => true,
        };
        if included {
            if let Err(reason) = filter.filter_reaction(&reaction.reaction) {
                let ghost templates = effective_actions(filter.actions, default_actions);
                let mut actions: Vec<ReactionAction> = Vec::new();
                let own_or_default = match &filter.actions {
                    Some(a) => Some(a),
                    None => default_actions,
                };
                if let Some(list) = own_or_default {
                    let mut j: usize = 0;
                    while j < list.len()
                        invariant
                            j <= list@.len(),
                            list@ == templates,
                            bound_to_reaction(actions@, templates.subrange(0, j as int), *reaction,
                                filter.name@, reason@),
                        decreases list.len() - j,
                    {
                        actions.push(map_filter_action_to_reaction_action(&list[j], reaction,
                            filter.name.as_str(), reason.as_str()));
                        j = j + 1;
                    }
                    assert(templates.subrange(0, j as int) =~= templates);
                }
                assert(first_failing_reaction(filters@, default_scoping, reaction, i as int) == Some(i as int));
                return Err(ReactionFilterFailure { filter_name: filter.name.clone(), actions });
            }
        }
        i = i + 1;
    }
    Ok(())
}

} // verus!
