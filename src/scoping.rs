//! Which channels and authors a filter applies to.

use vstd::prelude::*;

verus! {

/// Channel and role restrictions of a filter.
#[derive(Debug, Default)]
pub struct Scoping {
    /// Which channels to exclude.
    pub exclude_channels: Option<Vec<u64>>,
    /// Which channels to include; all others are excluded.
    pub include_channels: Option<Vec<u64>>,
    /// Authors holding any of these roles are excluded.
    pub exclude_roles: Option<Vec<u64>>,
}

impl Scoping {
    /// Whether an event in `channel` by an author with `roles` is in scope.
    pub open spec fn includes(&self, channel: u64, roles: Seq<u64>) -> bool {
        let channel_listed = match &self.include_channels {
            Some(inc) => inc@.contains(channel),
            None => true,
        };
        let channel_excluded = match &self.exclude_channels {
            Some(exc) => exc@.contains(channel),
            None => false,
        };
        let role_excluded = match &self.exclude_roles {
            Some(exr) => exists|i: int| 0 <= i < exr@.len() && roles.contains(#[trigger] exr@[i]),
            None => false,
        };
        channel_listed && !channel_excluded && !role_excluded
    }

    /// Decides whether an event in `channel` by an author with `author_roles`
    /// is in scope.
    pub fn is_included(&self, channel: u64, author_roles: &[u64]) -> (r: bool)
        ensures
            r == self.includes(channel, author_roles@),
    {
        if let Some(inc) = &self.include_channels {
            if !contains_id(inc.as_slice(), channel) {
                return false;
            }
        }
        if let Some(exc) = &self.exclude_channels {
            if contains_id(exc.as_slice(), channel) {
                return false;
            }
        }
        if let Some(exr) = &self.exclude_roles {
            let mut i: usize = 0;
            while i < exr.len()
                invariant
                    i <= exr@.len(),
                    self.exclude_roles == Some(*exr),
                    forall|j: int| 0 <= j < i ==> !author_roles@.contains(#[trigger] exr@[j]),
                decreases exr.len() - i,
            {
                if contains_id(author_roles, exr[i]) {
                    assert(author_roles@.contains(exr@[i as int]));
                    assert(exists|k: int| 0 <= k < exr@.len() && author_roles@.contains(#[trigger] exr@[k]));
                    assert(self.exclude_roles->0@ == exr@);
                    return false;
                }
                i = i + 1;
            }
        }
        true
    }
}

/// Whether `ids` holds `id`.
pub fn contains_id(ids: &[u64], id: u64) -> (r: bool)
    ensures
        r == ids@.contains(id),
{
    let mut i: usize = 0;
    while i < ids.len()
        invariant
            i <= ids@.len(),
            forall|j: int| 0 <= j < i ==> ids@[j] != id,
        decreases ids.len() - i,
    {
        if ids[i] == id {
            assert(ids@[i as int] == id);
            return true;
        }
        i = i + 1;
    }
    false
}

} // verus!
