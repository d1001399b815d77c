use vstd::prelude::*;
use vstd::string::*;
use std::collections::HashMap;
use crate::dice::random_index;
use crate::text::{escape_markdown, spec_escape_markdown};
use crate::time::cooldown_left;
use crate::clock::in_utc_range;

verus! {

broadcast use vstd::std_specs::hash::group_hash_axioms;

/// The title a server rank earns.
pub open spec fn spec_fun_title_by_rank(rank: int) -> Seq<char> {
    if rank == 1 {
        "GOD OF SCHLONGS"@
    } else if rank == 2 {
        "Legendary Organ"@
    } else if rank == 3 {
        "Impressive Member"@
    } else if 4 <= rank <= 10 {
        "Rising Star"@
    } else {
        "Tiny but Mighty"@
    }
}

/// The title of the player at server rank `rank` (1 is the longest).
pub fn get_fun_title_by_rank(rank: usize) -> (r: &'static str)
    ensures
        r@ == spec_fun_title_by_rank(rank as int),
{
    if rank == 1 {
        "GOD OF SCHLONGS"
    } else if rank == 2 {
        "Legendary Organ"
    } else if rank == 3 {
        "Impressive Member"
    } else if 4 <= rank && rank <= 10 {
        "Rising Star"
    } else {
        "Tiny but Mighty"
    }
}

/// The medal in front of leaderboard line `index` (0 is the first).
pub open spec fn spec_leaderboard_medal(index: int) -> Seq<char> {
    if index == 0 {
        "🥇"@
    } else if index == 1 {
        "🥈"@
    } else if index == 2 {
        "🥉"@
    } else {
        "🔹"@
    }
}

/// The medal of a leaderboard line.
pub fn leaderboard_medal(index: usize) -> (r: &'static str)
    ensures
        r@ == spec_leaderboard_medal(index as int),
{
    if index == 0 {
        "🥇"
    } else if index == 1 {
        "🥈"
    } else if index == 2 {
        "🥉"
    } else {
        "🔹"
    }
}

/// The emoji before a name on the server leaderboard.
pub open spec fn spec_leaderboard_emoji(index: int, length: int) -> Seq<char> {
    if index == 0 {
        "🍆 "@
    } else if length <= 0 {
        "🥜 "@
    } else if length > 30 {
        "🌵 "@
    } else {
        Seq::empty()
    }
}

/// The emoji before a name on the server leaderboard.
pub fn leaderboard_emoji(index: usize, length: i64) -> (r: &'static str)
    ensures
        r@ == spec_leaderboard_emoji(index as int, length as int),
{
    if index == 0 {
        "🍆 "
    } else if length <= 0 {
        "🥜 "
    } else if length > 30 {
        "🌵 "
    } else {
        proof {
            reveal_strlit("");
        }
        ""
    }
}

/// The leader's line always gets the eggplant, whatever the length; every
/// other line gets the peanut at 0 cm or less, the cactus above 30 cm and
/// nothing in between.
pub proof fn lemma_leader_gets_the_eggplant(index: int, length: int)
    ensures
        index == 0 ==> spec_leaderboard_emoji(index, length) == "🍆 "@,
        index != 0 && length <= 0 ==> spec_leaderboard_emoji(index, length) == "🥜 "@,
        index != 0 && length > 30 ==> spec_leaderboard_emoji(index, length) == "🌵 "@,
        index != 0 && 0 < length <= 30 ==> spec_leaderboard_emoji(index, length).len() == 0,
{
}

/// The remark on the server leader, by the leader's length.
#[derive(Clone, Copy, Debug, PartialEq, Eq, Structural)]
pub enum LeaderRemark {
    /// Over 50 cm.
    ZipCode,
    /// Over 30 cm.
    LethalWeapon,
    /// Over 15 cm.
    MostImpressive,
    /// Over 0 cm.
    GoldStar,
    /// 0 cm or less.
    Microscope,
}

/// The remark on a server leader of `length` cm.
pub fn leader_remark(length: i64) -> (r: LeaderRemark)
    ensures
        r == (if length > 50 {
            LeaderRemark::ZipCode
        } else if length > 30 {
            LeaderRemark::LethalWeapon
        } else if length > 15 {
            LeaderRemark::MostImpressive
        } else if length > 0 {
            LeaderRemark::GoldStar
        } else {
            LeaderRemark::Microscope
        }),
{
    if length > 50 {
        LeaderRemark::ZipCode
    } else if length > 30 {
        LeaderRemark::LethalWeapon
    } else if length > 15 {
        LeaderRemark::MostImpressive
    } else if length > 0 {
        LeaderRemark::GoldStar
    } else {
        LeaderRemark::Microscope
    }
}

/// How many remarks the global leaderboard chooses from.
pub const GLOBAL_CHAMPION_REMARKS: usize = 4;

/// Picks one of the global champion remarks uniformly.
pub fn pick_global_champion_remark() -> (r: usize)
    ensures
        r < GLOBAL_CHAMPION_REMARKS,
{
    random_index(GLOBAL_CHAMPION_REMARKS)
}

/// How long a server's name is kept before it is fetched again, in seconds.
pub const GUILD_NAME_CACHE_DURATION: u64 = 43200;

/// A server name and when it was fetched (Unix seconds).
#[derive(Clone, Debug)]
pub struct GuildNameCache {
    pub name: String,
    pub cached_at: u64,
}

/// Remembered server names, by server id.
pub struct GuildNames {
    pub entries: HashMap<u64, GuildNameCache>,
}

/// Seconds from `then` to `now`, counted modulo 2^64 as unsigned seconds.
pub open spec fn elapsed_since(then: u64, now: u64) -> int {
    if now >= then {
        now - then
    } else {
        now + 0x1_0000_0000_0000_0000 - then
    }
}

/// The name shown for a server on the global leaderboard: its escaped name
/// for a community server, "private server" otherwise.
pub open spec fn spec_guild_display_name(is_community: bool, name: Seq<char>) -> Seq<char> {
    if is_community {
        spec_escape_markdown(name)
    } else {
        "private server"@
    }
}

/// The name shown for a server on the global leaderboard.
pub fn guild_display_name(is_community: bool, name: &str) -> (r: String)
    ensures
        r@ == spec_guild_display_name(is_community, name@),
{
    if is_community {
        escape_markdown(name)
    } else {
        String::from_str("private server")
    }
}

impl GuildNames {
    /// No remembered names.
    pub fn new() -> (g: GuildNames)
        ensures
            g.entries@ == Map::<u64, GuildNameCache>::empty(),
    {
        GuildNames { entries: HashMap::new() }
    }

    /// The remembered name of `guild_id`, if it was fetched less than
    /// `GUILD_NAME_CACHE_DURATION` seconds before `now`.
    pub fn fresh_name(&self, guild_id: u64, now: u64) -> (r: Option<String>)
        ensures
            !self.entries@.contains_key(guild_id) ==> r is None,
            self.entries@.contains_key(guild_id) ==> {
                let c = self.entries@[guild_id];
                if elapsed_since(c.cached_at, now) < GUILD_NAME_CACHE_DURATION {
                    r matches Some(n) && n@ == c.name@
                } else {
                    r is None
                }
            },
    {
        match self.entries.get(&guild_id) {
            Some(c) => {
                let elapsed_fresh = if now >= c.cached_at {
                    now - c.cached_at < GUILD_NAME_CACHE_DURATION
                } else {
                    (u64::MAX - c.cached_at) + now + 1 < GUILD_NAME_CACHE_DURATION
                };
                if elapsed_fresh {
                    Some(c.name.clone())
                } else {
                    None
                }
            },
            None => None,
        }
    }

    /// Remembers `name` for `guild_id`, fetched at `now`.
    pub fn remember(&mut self, guild_id: u64, name: String, now: u64)
        ensures
            final(self).entries@ == old(self).entries@.insert(
                guild_id,
                GuildNameCache { name, cached_at: now },
            ),
    {
        self.entries.insert(guild_id, GuildNameCache { name, cached_at: now });
    }
}

/// How a player's /grow cooldown shows on a stats card.
#[derive(Clone, Copy, Debug, PartialEq, Eq, Structural)]
pub enum GrowthStatus {
    /// The viewer's own card, cooldown over.
    CanGrowNow,
    /// The viewer's own card: the next /grow is allowed at this Unix time.
    NextGrowthAt(i64),
    /// Someone else's card, cooldown over.
    OtherCanGrow,
    /// Someone else's card, cooldown running.
    OtherAlreadyGrew,
}

/// The cooldown line of a stats card at `now` for a player who last grew at
/// `last_grow`, with the 60-minute cooldown.
pub fn growth_status(is_self: bool, last_grow: i64, now: i64) -> (r: GrowthStatus)
    requires
        in_utc_range(last_grow as int),
        in_utc_range(now as int),
    ensures
        ({
            let left = cooldown_left(last_grow as int, now as int, crate::grow::DEFAULT_GROW_COOLDOWN_MINUTES as int);
            r == (if is_self {
                if left == 0 {
                    GrowthStatus::CanGrowNow
                } else {
                    GrowthStatus::NextGrowthAt((now + left) as i64)
                }
            } else if left == 0 {
                GrowthStatus::OtherCanGrow
            } else {
                GrowthStatus::OtherAlreadyGrew
            })
        }),
{
    let left = crate::time::cooldown_remaining_at(last_grow, now, crate::grow::DEFAULT_GROW_COOLDOWN_MINUTES);
    if is_self {
        if left == 0 {
            GrowthStatus::CanGrowNow
        } else {
            GrowthStatus::NextGrowthAt(now + left)
        }
    } else if left == 0 {
        GrowthStatus::OtherCanGrow
    } else {
        GrowthStatus::OtherAlreadyGrew
    }
}

/// The professional assessment of a length on a stats card.
pub open spec fn spec_length_comment(length: int, is_self: bool) -> Seq<char> {
    if length <= 0 {
        if is_self {
            "Your dick is practically an innie at this point. Keep trying!"@
        } else {
            "Their dick is practically an innie at this point. Tragic!"@
        }
    } else if length < 50 {
        "It's... cute? At least that's what they'll say to be nice."@
    } else if length < 100 {
        "Not bad! In the average zone. But who wants to be average?"@
    } else if length < 150 {
        "Impressive length! That's some serious heat down there."@
    } else if length < 200 {
        "WOW! That's a third leg, not a dick! Special pants required?"@
    } else {
        "LEGENDARY! Scientists want to study this mutation. BEWARE!"@
    }
}

/// The assessment of `length` shown on a stats card.
pub fn length_comment(length: i64, is_self: bool) -> (r: &'static str)
    ensures
        r@ == spec_length_comment(length as int, is_self),
{
    if length <= 0 {
        if is_self {
            "Your dick is practically an innie at this point. Keep trying!"
        } else {
            "Their dick is practically an innie at this point. Tragic!"
        }
    } else if length < 50 {
        "It's... cute? At least that's what they'll say to be nice."
    } else if length < 100 {
        "Not bad! In the average zone. But who wants to be average?"
    } else if length < 150 {
        "Impressive length! That's some serious heat down there."
    } else if length < 200 {
        "WOW! That's a third leg, not a dick! Special pants required?"
    } else {
        "LEGENDARY! Scientists want to study this mutation. BEWARE!"
    }
}

} // verus!
