//! Who may use a feature: the roles that a configuration admits, and the
//! check of a sender's badges against them.

use vstd::prelude::*;
use crate::chat::Badge;
use crate::chat::BadgeView;
use crate::strings::str_eq;

verus! {

/// The roles that a feature admits besides the broadcaster, who is always
/// admitted.
#[derive(Clone, Copy, Debug, PartialEq, Eq, Structural)]
pub struct PermitedRoles {
    pub subs: bool,
    pub vips: bool,
    pub mods: bool,
}

/// Whether a badge of the set `set_id` admits its bearer under `roles`.
pub open spec fn badge_permits(set_id: Seq<char>, roles: PermitedRoles) -> bool {
    ||| (set_id == "subscriber"@ || set_id == "founder"@) && roles.subs
    ||| set_id == "vip"@ && roles.vips
    ||| set_id == "moderator"@ && roles.mods
    ||| set_id == "broadcaster"@
}

/// Whether a sender with `badges` is admitted under `roles`: some badge of
/// theirs admits them.
pub open spec fn permitted(badges: Seq<BadgeView>, roles: PermitedRoles) -> bool {
    exists|i: int| 0 <= i < badges.len() && badge_permits(#[trigger] badges[i].set_id, roles)
}

impl PermitedRoles {
    /// Roles with the given flags.
    pub fn new(subs: bool, vips: bool, mods: bool) -> (r: PermitedRoles)
        ensures
            r == (PermitedRoles { subs, vips, mods }),
    {
        PermitedRoles { subs, vips, mods }
    }

    /// Whether a badge of the set `set_id` admits its bearer.
    pub fn permits_badge(&self, set_id: &str) -> (r: bool)
        ensures
            r == badge_permits(set_id@, *self),
    {
        ((str_eq(set_id, "subscriber") || str_eq(set_id, "founder")) && self.subs) || (str_eq(
            set_id,
            "vip",
        ) && self.vips) || (str_eq(set_id, "moderator") && self.mods) || str_eq(
            set_id,
            "broadcaster",
        )
    }

    /// Whether a sender with `badges` is admitted.
    pub fn permits(&self, badges: &Vec<Badge>) -> (r: bool)
        ensures
            r == permitted(badges.deep_view(), *self),
    {
        let mut i: usize = 0;
        while i < badges.len()
            invariant
                i <= badges.len(),
                forall|k: int|
                    0 <= k < i ==> !badge_permits(#[trigger] badges.deep_view()[k].set_id, *self),
            decreases badges.len() - i,
        {
            assert(badges.deep_view()[i as int].set_id == badges[i as int].set_id@);
            if self.permits_badge(badges[i].set_id.as_str()) {
                return true;
            }
            i += 1;
        }
        false
    }
}

/// A sender whose badges all belong to the set `subscriber` is admitted
/// exactly when subscribers are.
pub proof fn lemma_subscriber_follows_flag(badges: Seq<BadgeView>, roles: PermitedRoles)
    requires
        badges.len() > 0,
        forall|i: int| 0 <= i < badges.len() ==> (#[trigger] badges[i]).set_id == "subscriber"@,
    ensures
        permitted(badges, roles) == roles.subs,
{
    reveal_strlit("subscriber");
    reveal_strlit("founder");
    reveal_strlit("vip");
    reveal_strlit("moderator");
    reveal_strlit("broadcaster");
    assert("subscriber"@.len() == 10);
    assert("subscriber"@[0] == 's');
    assert("broadcaster"@.len() == 11);
    assert("vip"@.len() == 3);
    assert("moderator"@.len() == 9);
    if roles.subs {
        assert(badge_permits(badges[0].set_id, roles));
    }
}

/// A sender with a badge of the set `broadcaster` is admitted whatever the
/// flags are.
pub proof fn lemma_broadcaster_always_permitted(badges: Seq<BadgeView>, roles: PermitedRoles)
    requires
        exists|i: int| 0 <= i < badges.len() && (#[trigger] badges[i]).set_id == "broadcaster"@,
    ensures
        permitted(badges, roles),
{
    let i = choose|i: int| 0 <= i < badges.len() && (#[trigger] badges[i]).set_id == "broadcaster"@;
    assert(badge_permits(badges[i].set_id, roles));
}

/// A sender without badges is never admitted.
pub proof fn lemma_no_badges_not_permitted(roles: PermitedRoles)
    ensures
        !permitted(Seq::<BadgeView>::empty(), roles),
{
}

} // verus!
