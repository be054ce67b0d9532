//! Cache hit and miss counters: their fields, totals and per-kind summaries.
use vstd::prelude::*;
use crate::text::str_eq;

verus! {

/// Hit and miss counters of each kind of cached data.
#[derive(Debug, Clone, Copy, Default)]
pub struct CacheMetrics {
    pub channels_hits: i64,
    pub channels_misses: i64,
    pub channel_members_hits: i64,
    pub channel_members_misses: i64,
    pub dms_hits: i64,
    pub dms_misses: i64,
    pub dm_participants_hits: i64,
    pub dm_participants_misses: i64,
    pub users_hits: i64,
    pub users_misses: i64,
    pub messages_hits: i64,
    pub messages_misses: i64,
    pub read_status_hits: i64,
    pub read_status_misses: i64,
    pub notifications_hits: i64,
    pub notifications_misses: i64,
    pub organizations_hits: i64,
    pub organizations_misses: i64,
    pub tokens_hits: i64,
    pub tokens_misses: i64,
}

/// The kinds of cached data that the counters track.
#[derive(Debug, Clone, Copy, PartialEq, Eq)]
pub enum CacheType {
    Channels,
    ChannelMembers,
    Dms,
    DmParticipants,
    Users,
    Messages,
    ReadStatus,
    Notifications,
    Organizations,
    Tokens,
}

/// The sum of a sequence of counters.
pub open spec fn sum_of(s: Seq<i64>) -> int
    decreases s.len(),
{
    if s.len() == 0 {
        0
    } else {
        sum_of(s.drop_last()) + s.last()
    }
}

/// Adding the counters from left to right never leaves the range of `i64`.
pub open spec fn sums_fit(s: Seq<i64>) -> bool {
    forall|k: int| 0 <= k <= s.len() ==> i64::MIN <= #[trigger] sum_of(s.take(k)) <= i64::MAX
}

/// The hit counters, in the order in which they are added up.
pub open spec fn hits_seq(m: CacheMetrics) -> Seq<i64> {
    seq![m.channels_hits, m.channel_members_hits, m.dms_hits, m.dm_participants_hits, m.users_hits, m.messages_hits, m.read_status_hits, m.notifications_hits, m.organizations_hits, m.tokens_hits]
}

/// The miss counters, in the order in which they are added up.
pub open spec fn misses_seq(m: CacheMetrics) -> Seq<i64> {
    seq![m.channels_misses, m.channel_members_misses, m.dms_misses, m.dm_participants_misses, m.users_misses, m.organizations_misses, m.messages_misses, m.read_status_misses, m.notifications_misses, m.tokens_misses]
}

fn sum_checked(vals: &[i64; 10]) -> (r: i64)
    requires
        sums_fit(vals@),
    ensures
        r == sum_of(vals@),
{
    let mut acc: i64 = 0;
    let mut i: usize = 0;
    assert(vals@.take(0) =~= Seq::<i64>::empty());
    while i < 10
        invariant
            i <= 10,
            vals@.len() == 10,
            sums_fit(vals@),
            acc == sum_of(vals@.take(i as int)),
        decreases 10 - i,
    {
        assert(vals@.take(i + 1).drop_last() =~= vals@.take(i as int));
        assert(vals@.take(i + 1).last() == vals@[i as int]);
        assert(i64::MIN <= sum_of(vals@.take(i + 1)) <= i64::MAX);
        acc = acc + vals[i];
        i = i + 1;
    }
    assert(vals@.take(10) =~= vals@);
    acc
}

impl CacheMetrics {
    /// Total hits across all cache types.
    pub fn total_hits(&self) -> (r: i64)
        requires
            sums_fit(hits_seq(*self)),
        ensures
            r == sum_of(hits_seq(*self)),
            r == self.channels_hits + self.channel_members_hits + self.dms_hits
                + self.dm_participants_hits + self.users_hits + self.messages_hits
                + self.read_status_hits + self.notifications_hits + self.organizations_hits
                + self.tokens_hits,
    {
        proof {
            law_totals_count_every_kind(*self);
        }
        let vals: [i64; 10] = [self.channels_hits, self.channel_members_hits, self.dms_hits, self.dm_participants_hits, self.users_hits, self.messages_hits, self.read_status_hits, self.notifications_hits, self.organizations_hits, self.tokens_hits];
        assert(vals@ =~= hits_seq(*self));
        sum_checked(&vals)
    }

    /// Total misses across all cache types.
    pub fn total_misses(&self) -> (r: i64)
        requires
            sums_fit(misses_seq(*self)),
        ensures
            r == sum_of(misses_seq(*self)),
            r == self.channels_misses + self.channel_members_misses + self.dms_misses
                + self.dm_participants_misses + self.users_misses + self.messages_misses
                + self.read_status_misses + self.notifications_misses + self.organizations_misses
                + self.tokens_misses,
    {
        proof {
            law_totals_count_every_kind(*self);
        }
        let vals: [i64; 10] = [self.channels_misses, self.channel_members_misses, self.dms_misses, self.dm_participants_misses, self.users_misses, self.organizations_misses, self.messages_misses, self.read_status_misses, self.notifications_misses, self.tokens_misses];
        assert(vals@ =~= misses_seq(*self));
        sum_checked(&vals)
    }

    /// Total operations: hits plus misses.
    pub fn total_operations(&self) -> (r: i64)
        requires
            sums_fit(hits_seq(*self)),
            sums_fit(misses_seq(*self)),
            i64::MIN <= sum_of(hits_seq(*self)) + sum_of(misses_seq(*self)) <= i64::MAX,
        ensures
            r == sum_of(hits_seq(*self)) + sum_of(misses_seq(*self)),
    {
        self.total_hits() + self.total_misses()
    }
}

/// The hit (`hit`) or miss counter of a kind of cached data.
pub open spec fn counter_of(m: CacheMetrics, t: CacheType, hit: bool) -> i64 {
    match t {
        CacheType::Channels => if hit { m.channels_hits } else { m.channels_misses },
        CacheType::ChannelMembers => if hit { m.channel_members_hits } else { m.channel_members_misses },
        CacheType::Dms => if hit { m.dms_hits } else { m.dms_misses },
        CacheType::DmParticipants => if hit { m.dm_participants_hits } else { m.dm_participants_misses },
        CacheType::Users => if hit { m.users_hits } else { m.users_misses },
        CacheType::Messages => if hit { m.messages_hits } else { m.messages_misses },
        CacheType::ReadStatus => if hit { m.read_status_hits } else { m.read_status_misses },
        CacheType::Notifications => if hit { m.notifications_hits } else { m.notifications_misses },
        CacheType::Organizations => if hit { m.organizations_hits } else { m.organizations_misses },
        CacheType::Tokens => if hit { m.tokens_hits } else { m.tokens_misses },
    }
}

/// The name of the Redis hash field that counts hits (`hit`) or misses of a kind.
pub open spec fn field_name_of(t: CacheType, hit: bool) -> Seq<char> {
    match t {
        CacheType::Channels => if hit { "channels_hits"@ } else { "channels_misses"@ },
        CacheType::ChannelMembers => if hit { "channel_members_hits"@ } else { "channel_members_misses"@ },
        CacheType::Dms => if hit { "dms_hits"@ } else { "dms_misses"@ },
        CacheType::DmParticipants => if hit { "dm_participants_hits"@ } else { "dm_participants_misses"@ },
        CacheType::Users => if hit { "users_hits"@ } else { "users_misses"@ },
        CacheType::Messages => if hit { "messages_hits"@ } else { "messages_misses"@ },
        CacheType::ReadStatus => if hit { "read_status_hits"@ } else { "read_status_misses"@ },
        CacheType::Notifications => if hit { "notifications_hits"@ } else { "notifications_misses"@ },
        CacheType::Organizations => if hit { "organizations_hits"@ } else { "organizations_misses"@ },
        CacheType::Tokens => if hit { "tokens_hits"@ } else { "tokens_misses"@ },
    }
}

/// The Redis hash field counting hits (`hit`) or misses of a kind of cached data
/// (the field that recording a hit or a miss increments).
pub fn metric_field(cache_type: CacheType, hit: bool) -> (f: &'static str)
    ensures
        f@ == field_name_of(cache_type, hit),
{
    match cache_type {
        CacheType::Channels => if hit { "channels_hits" } else { "channels_misses" },
        CacheType::ChannelMembers => if hit { "channel_members_hits" } else { "channel_members_misses" },
        CacheType::Dms => if hit { "dms_hits" } else { "dms_misses" },
        CacheType::DmParticipants => if hit { "dm_participants_hits" } else { "dm_participants_misses" },
        CacheType::Users => if hit { "users_hits" } else { "users_misses" },
        CacheType::Messages => if hit { "messages_hits" } else { "messages_misses" },
        CacheType::ReadStatus => if hit { "read_status_hits" } else { "read_status_misses" },
        CacheType::Notifications => if hit { "notifications_hits" } else { "notifications_misses" },
        CacheType::Organizations => if hit { "organizations_hits" } else { "organizations_misses" },
        CacheType::Tokens => if hit { "tokens_hits" } else { "tokens_misses" },
    }
}

/// The counters with the field named `name` set to `value`; an unknown name changes nothing.
pub open spec fn with_field(m: CacheMetrics, name: Seq<char>, value: i64) -> CacheMetrics {
    if name == "channels_hits"@ {
        CacheMetrics { channels_hits: value, ..m }
    } else if name == "channels_misses"@ {
        CacheMetrics { channels_misses: value, ..m }
    } else if name == "channel_members_hits"@ {
        CacheMetrics { channel_members_hits: value, ..m }
    } else if name == "channel_members_misses"@ {
        CacheMetrics { channel_members_misses: value, ..m }
    } else if name == "dms_hits"@ {
        CacheMetrics { dms_hits: value, ..m }
    } else if name == "dms_misses"@ {
        CacheMetrics { dms_misses: value, ..m }
    } else if name == "dm_participants_hits"@ {
        CacheMetrics { dm_participants_hits: value, ..m }
    } else if name == "dm_participants_misses"@ {
        CacheMetrics { dm_participants_misses: value, ..m }
    } else if name == "users_hits"@ {
        CacheMetrics { users_hits: value, ..m }
    } else if name == "users_misses"@ {
        CacheMetrics { users_misses: value, ..m }
    } else if name == "messages_hits"@ {
        CacheMetrics { messages_hits: value, ..m }
    } else if name == "messages_misses"@ {
        CacheMetrics { messages_misses: value, ..m }
    } else if name == "read_status_hits"@ {
        CacheMetrics { read_status_hits: value, ..m }
    } else if name == "read_status_misses"@ {
        CacheMetrics { read_status_misses: value, ..m }
    } else if name == "notifications_hits"@ {
        CacheMetrics { notifications_hits: value, ..m }
    } else if name == "notifications_misses"@ {
        CacheMetrics { notifications_misses: value, ..m }
    } else if name == "organizations_hits"@ {
        CacheMetrics { organizations_hits: value, ..m }
    } else if name == "organizations_misses"@ {
        CacheMetrics { organizations_misses: value, ..m }
    } else if name == "tokens_hits"@ {
        CacheMetrics { tokens_hits: value, ..m }
    } else if name == "tokens_misses"@ {
        CacheMetrics { tokens_misses: value, ..m }
    } else {
        m
    }
}

/// The counters read from the pairs of a Redis hash, each pair applied in turn.
pub open spec fn from_fields(m: CacheMetrics, pairs: Seq<(Seq<char>, i64)>) -> CacheMetrics
    decreases pairs.len(),
{
    if pairs.len() == 0 {
        m
    } else {
        with_field(from_fields(m, pairs.drop_last()), pairs.last().0, pairs.last().1)
    }
}

/// All counters zero.
pub open spec fn zero_metrics() -> CacheMetrics {
    CacheMetrics { channels_hits: 0, channels_misses: 0, channel_members_hits: 0, channel_members_misses: 0, dms_hits: 0, dms_misses: 0, dm_participants_hits: 0, dm_participants_misses: 0, users_hits: 0, users_misses: 0, messages_hits: 0, messages_misses: 0, read_status_hits: 0, read_status_misses: 0, notifications_hits: 0, notifications_misses: 0, organizations_hits: 0, organizations_misses: 0, tokens_hits: 0, tokens_misses: 0 }
}

/// Sets the counter named `name` to `value`; an unknown name is ignored.
pub fn set_field(m: &mut CacheMetrics, name: &str, value: i64)
    ensures
        *final(m) == with_field(*old(m), name@, value),
{
    if str_eq(name, "channels_hits") {
        m.channels_hits = value;
    } else if str_eq(name, "channels_misses") {
        m.channels_misses = value;
    } else if str_eq(name, "channel_members_hits") {
        m.channel_members_hits = value;
    } else if str_eq(name, "channel_members_misses") {
        m.channel_members_misses = value;
    } else if str_eq(name, "dms_hits") {
        m.dms_hits = value;
    } else if str_eq(name, "dms_misses") {
        m.dms_misses = value;
    } else if str_eq(name, "dm_participants_hits") {
        m.dm_participants_hits = value;
    } else if str_eq(name, "dm_participants_misses") {
        m.dm_participants_misses = value;
    } else if str_eq(name, "users_hits") {
        m.users_hits = value;
    } else if str_eq(name, "users_misses") {
        m.users_misses = value;
    } else if str_eq(name, "messages_hits") {
        m.messages_hits = value;
    } else if str_eq(name, "messages_misses") {
        m.messages_misses = value;
    } else if str_eq(name, "read_status_hits") {
        m.read_status_hits = value;
    } else if str_eq(name, "read_status_misses") {
        m.read_status_misses = value;
    } else if str_eq(name, "notifications_hits") {
        m.notifications_hits = value;
    } else if str_eq(name, "notifications_misses") {
        m.notifications_misses = value;
    } else if str_eq(name, "organizations_hits") {
        m.organizations_hits = value;
    } else if str_eq(name, "organizations_misses") {
        m.organizations_misses = value;
    } else if str_eq(name, "tokens_hits") {
        m.tokens_hits = value;
    } else if str_eq(name, "tokens_misses") {
        m.tokens_misses = value;
    }
}

/// The counters held by the pairs of the Redis metrics hash, in the order read;
/// a later pair for the same field wins and unknown fields are ignored.
pub fn metrics_from_fields(pairs: &Vec<(String, i64)>) -> (m: CacheMetrics)
    ensures
        m == from_fields(zero_metrics(), pairs@.map_values(|p: (String, i64)| (p.0@, p.1))),
{
    let ghost view = pairs@.map_values(|p: (String, i64)| (p.0@, p.1));
    let mut m = CacheMetrics { channels_hits: 0, channels_misses: 0, channel_members_hits: 0, channel_members_misses: 0, dms_hits: 0, dms_misses: 0, dm_participants_hits: 0, dm_participants_misses: 0, users_hits: 0, users_misses: 0, messages_hits: 0, messages_misses: 0, read_status_hits: 0, read_status_misses: 0, notifications_hits: 0, notifications_misses: 0, organizations_hits: 0, organizations_misses: 0, tokens_hits: 0, tokens_misses: 0 };
    let mut i: usize = 0;
    while i < pairs.len()
        invariant
            i <= pairs@.len(),
            view == pairs@.map_values(|p: (String, i64)| (p.0@, p.1)),
            m == from_fields(zero_metrics(), view.take(i as int)),
        decreases pairs.len() - i,
    {
        let (name, value) = &pairs[i];
        set_field(&mut m, name.as_str(), *value);
        assert(view.take(i + 1).drop_last() =~= view.take(i as int));
        assert(view.take(i + 1).last() == (name@, *value));
        i = i + 1;
    }
    assert(view.take(pairs@.len() as int) =~= view);
    m
}


/// Recording a hit or a miss and reading the metrics back agree: the field that
/// a kind's hit (or miss) increments is the field that sets that kind's hit (or
/// miss) counter when read, and it leaves every other counter unchanged.
pub proof fn law_field_round_trip(m: CacheMetrics, t: CacheType, hit: bool, value: i64, u: CacheType, uhit: bool)
    ensures
        counter_of(with_field(m, field_name_of(t, hit), value), u, uhit) == (if t == u && hit == uhit {
            value
        } else {
            counter_of(m, u, uhit)
        }),
{
    if t == CacheType::Channels && hit == true {
        reveal_strlit("channels_hits");


        assert(with_field(m, "channels_hits"@, value) == CacheMetrics { channels_hits: value, ..m });
    }
    if t == CacheType::Channels && hit == false {
        reveal_strlit("channels_misses");
        reveal_strlit("channels_hits");
        assert("channels_misses"@.len() != "channels_hits"@.len());
        assert(with_field(m, "channels_misses"@, value) == CacheMetrics { channels_misses: value, ..m });
    }
    if t == CacheType::ChannelMembers && hit == true {
        reveal_strlit("channel_members_hits");
        reveal_strlit("channels_hits");
        reveal_strlit("channels_misses");
        assert("channel_members_hits"@.len() != "channels_hits"@.len());
        assert("channel_members_hits"@.len() != "channels_misses"@.len());
        assert(with_field(m, "channel_members_hits"@, value) == CacheMetrics { channel_members_hits: value, ..m });
    }
    if t == CacheType::ChannelMembers && hit == false {
        reveal_strlit("channel_members_misses");
        reveal_strlit("channels_hits");
        reveal_strlit("channels_misses");
        reveal_strlit("channel_members_hits");
        assert("channel_members_misses"@.len() != "channels_hits"@.len());
        assert("channel_members_misses"@.len() != "channels_misses"@.len());
        assert("channel_members_misses"@.len() != "channel_members_hits"@.len());
        assert(with_field(m, "channel_members_misses"@, value) == CacheMetrics { channel_members_misses: value, ..m });
    }
    if t == CacheType::Dms && hit == true {
        reveal_strlit("dms_hits");
        reveal_strlit("channels_hits");
        reveal_strlit("channels_misses");
        reveal_strlit("channel_members_hits");
        reveal_strlit("channel_members_misses");
        assert("dms_hits"@.len() != "channels_hits"@.len());
        assert("dms_hits"@.len() != "channels_misses"@.len());
        assert("dms_hits"@.len() != "channel_members_hits"@.len());
        assert("dms_hits"@.len() != "channel_members_misses"@.len());
        assert(with_field(m, "dms_hits"@, value) == CacheMetrics { dms_hits: value, ..m });
    }
    if t == CacheType::Dms && hit == false {
        reveal_strlit("dms_misses");
        reveal_strlit("channels_hits");
        reveal_strlit("channels_misses");
        reveal_strlit("channel_members_hits");
        reveal_strlit("channel_members_misses");
        reveal_strlit("dms_hits");
        assert("dms_misses"@.len() != "channels_hits"@.len());
        assert("dms_misses"@.len() != "channels_misses"@.len());
        assert("dms_misses"@.len() != "channel_members_hits"@.len());
        assert("dms_misses"@.len() != "channel_members_misses"@.len());
        assert("dms_misses"@.len() != "dms_hits"@.len());
        assert(with_field(m, "dms_misses"@, value) == CacheMetrics { dms_misses: value, ..m });
    }
    if t == CacheType::DmParticipants && hit == true {
        reveal_strlit("dm_participants_hits");
        reveal_strlit("channels_hits");
        reveal_strlit("channels_misses");
        reveal_strlit("channel_members_hits");
        reveal_strlit("channel_members_misses");
        reveal_strlit("dms_hits");
        reveal_strlit("dms_misses");
        assert("dm_participants_hits"@.len() != "channels_hits"@.len());
        assert("dm_participants_hits"@.len() != "channels_misses"@.len());
        assert("dm_participants_hits"@[0] != "channel_members_hits"@[0]);
        assert("dm_participants_hits"@.len() != "channel_members_misses"@.len());
        assert("dm_participants_hits"@.len() != "dms_hits"@.len());
        assert("dm_participants_hits"@.len() != "dms_misses"@.len());
        assert(with_field(m, "dm_participants_hits"@, value) == CacheMetrics { dm_participants_hits: value, ..m });
    }
    if t == CacheType::DmParticipants && hit == false {
        reveal_strlit("dm_participants_misses");
        reveal_strlit("channels_hits");
        reveal_strlit("channels_misses");
        reveal_strlit("channel_members_hits");
        reveal_strlit("channel_members_misses");
        reveal_strlit("dms_hits");
        reveal_strlit("dms_misses");
        reveal_strlit("dm_participants_hits");
        assert("dm_participants_misses"@.len() != "channels_hits"@.len());
        assert("dm_participants_misses"@.len() != "channels_misses"@.len());
        assert("dm_participants_misses"@.len() != "channel_members_hits"@.len());
        assert("dm_participants_misses"@[0] != "channel_members_misses"@[0]);
        assert("dm_participants_misses"@.len() != "dms_hits"@.len());
        assert("dm_participants_misses"@.len() != "dms_misses"@.len());
        assert("dm_participants_misses"@.len() != "dm_participants_hits"@.len());
        assert(with_field(m, "dm_participants_misses"@, value) == CacheMetrics { dm_participants_misses: value, ..m });
    }
    if t == CacheType::Users && hit == true {
        reveal_strlit("users_hits");
        reveal_strlit("channels_hits");
        reveal_strlit("channels_misses");
        reveal_strlit("channel_members_hits");
        reveal_strlit("channel_members_misses");
        reveal_strlit("dms_hits");
        reveal_strlit("dms_misses");
        reveal_strlit("dm_participants_hits");
        reveal_strlit("dm_participants_misses");
        assert("users_hits"@.len() != "channels_hits"@.len());
        assert("users_hits"@.len() != "channels_misses"@.len());
        assert("users_hits"@.len() != "channel_members_hits"@.len());
        assert("users_hits"@.len() != "channel_members_misses"@.len());
        assert("users_hits"@.len() != "dms_hits"@.len());
        assert("users_hits"@[0] != "dms_misses"@[0]);
        assert("users_hits"@.len() != "dm_participants_hits"@.len());
        assert("users_hits"@.len() != "dm_participants_misses"@.len());
        assert(with_field(m, "users_hits"@, value) == CacheMetrics { users_hits: value, ..m });
    }
    if t == CacheType::Users && hit == false {
        reveal_strlit("users_misses");
        reveal_strlit("channels_hits");
        reveal_strlit("channels_misses");
        reveal_strlit("channel_members_hits");
        reveal_strlit("channel_members_misses");
        reveal_strlit("dms_hits");
        reveal_strlit("dms_misses");
        reveal_strlit("dm_participants_hits");
        reveal_strlit("dm_participants_misses");
        reveal_strlit("users_hits");
        assert("users_misses"@.len() != "channels_hits"@.len());
        assert("users_misses"@.len() != "channels_misses"@.len());
        assert("users_misses"@.len() != "channel_members_hits"@.len());
        assert("users_misses"@.len() != "channel_members_misses"@.len());
        assert("users_misses"@.len() != "dms_hits"@.len());
        assert("users_misses"@.len() != "dms_misses"@.len());
        assert("users_misses"@.len() != "dm_participants_hits"@.len());
        assert("users_misses"@.len() != "dm_participants_misses"@.len());
        assert("users_misses"@.len() != "users_hits"@.len());
        assert(with_field(m, "users_misses"@, value) == CacheMetrics { users_misses: value, ..m });
    }
    if t == CacheType::Messages && hit == true {
        reveal_strlit("messages_hits");
        reveal_strlit("channels_hits");
        reveal_strlit("channels_misses");
        reveal_strlit("channel_members_hits");
        reveal_strlit("channel_members_misses");
        reveal_strlit("dms_hits");
        reveal_strlit("dms_misses");
        reveal_strlit("dm_participants_hits");
        reveal_strlit("dm_participants_misses");
        reveal_strlit("users_hits");
        reveal_strlit("users_misses");
        assert("messages_hits"@[0] != "channels_hits"@[0]);
        assert("messages_hits"@.len() != "channels_misses"@.len());
        assert("messages_hits"@.len() != "channel_members_hits"@.len());
        assert("messages_hits"@.len() != "channel_members_misses"@.len());
        assert("messages_hits"@.len() != "dms_hits"@.len());
        assert("messages_hits"@.len() != "dms_misses"@.len());
        assert("messages_hits"@.len() != "dm_participants_hits"@.len());
        assert("messages_hits"@.len() != "dm_participants_misses"@.len());
        assert("messages_hits"@.len() != "users_hits"@.len());
        assert("messages_hits"@.len() != "users_misses"@.len());
        assert(with_field(m, "messages_hits"@, value) == CacheMetrics { messages_hits: value, ..m });
    }
    if t == CacheType::Messages && hit == false {
        reveal_strlit("messages_misses");
        reveal_strlit("channels_hits");
        reveal_strlit("channels_misses");
        reveal_strlit("channel_members_hits");
        reveal_strlit("channel_members_misses");
        reveal_strlit("dms_hits");
        reveal_strlit("dms_misses");
        reveal_strlit("dm_participants_hits");
        reveal_strlit("dm_participants_misses");
        reveal_strlit("users_hits");
        reveal_strlit("users_misses");
        reveal_strlit("messages_hits");
        assert("messages_misses"@.len() != "channels_hits"@.len());
        assert("messages_misses"@[0] != "channels_misses"@[0]);
        assert("messages_misses"@.len() != "channel_members_hits"@.len());
        assert("messages_misses"@.len() != "channel_members_misses"@.len());
        assert("messages_misses"@.len() != "dms_hits"@.len());
        assert("messages_misses"@.len() != "dms_misses"@.len());
        assert("messages_misses"@.len() != "dm_participants_hits"@.len());
        assert("messages_misses"@.len() != "dm_participants_misses"@.len());
        assert("messages_misses"@.len() != "users_hits"@.len());
        assert("messages_misses"@.len() != "users_misses"@.len());
        assert("messages_misses"@.len() != "messages_hits"@.len());
        assert(with_field(m, "messages_misses"@, value) == CacheMetrics { messages_misses: value, ..m });
    }
    if t == CacheType::ReadStatus && hit == true {
        reveal_strlit("read_status_hits");
        reveal_strlit("channels_hits");
        reveal_strlit("channels_misses");
        reveal_strlit("channel_members_hits");
        reveal_strlit("channel_members_misses");
        reveal_strlit("dms_hits");
        reveal_strlit("dms_misses");
        reveal_strlit("dm_participants_hits");
        reveal_strlit("dm_participants_misses");
        reveal_strlit("users_hits");
        reveal_strlit("users_misses");
        reveal_strlit("messages_hits");
        reveal_strlit("messages_misses");
        assert("read_status_hits"@.len() != "channels_hits"@.len());
        assert("read_status_hits"@.len() != "channels_misses"@.len());
        assert("read_status_hits"@.len() != "channel_members_hits"@.len());
        assert("read_status_hits"@.len() != "channel_members_misses"@.len());
        assert("read_status_hits"@.len() != "dms_hits"@.len());
        assert("read_status_hits"@.len() != "dms_misses"@.len());
        assert("read_status_hits"@.len() != "dm_participants_hits"@.len());
        assert("read_status_hits"@.len() != "dm_participants_misses"@.len());
        assert("read_status_hits"@.len() != "users_hits"@.len());
        assert("read_status_hits"@.len() != "users_misses"@.len());
        assert("read_status_hits"@.len() != "messages_hits"@.len());
        assert("read_status_hits"@.len() != "messages_misses"@.len());
        assert(with_field(m, "read_status_hits"@, value) == CacheMetrics { read_status_hits: value, ..m });
    }
    if t == CacheType::ReadStatus && hit == false {
        reveal_strlit("read_status_misses");
        reveal_strlit("channels_hits");
        reveal_strlit("channels_misses");
        reveal_strlit("channel_members_hits");
        reveal_strlit("channel_members_misses");
        reveal_strlit("dms_hits");
        reveal_strlit("dms_misses");
        reveal_strlit("dm_participants_hits");
        reveal_strlit("dm_participants_misses");
        reveal_strlit("users_hits");
        reveal_strlit("users_misses");
        reveal_strlit("messages_hits");
        reveal_strlit("messages_misses");
        reveal_strlit("read_status_hits");
        assert("read_status_misses"@.len() != "channels_hits"@.len());
        assert("read_status_misses"@.len() != "channels_misses"@.len());
        assert("read_status_misses"@.len() != "channel_members_hits"@.len());
        assert("read_status_misses"@.len() != "channel_members_misses"@.len());
        assert("read_status_misses"@.len() != "dms_hits"@.len());
        assert("read_status_misses"@.len() != "dms_misses"@.len());
        assert("read_status_misses"@.len() != "dm_participants_hits"@.len());
        assert("read_status_misses"@.len() != "dm_participants_misses"@.len());
        assert("read_status_misses"@.len() != "users_hits"@.len());
        assert("read_status_misses"@.len() != "users_misses"@.len());
        assert("read_status_misses"@.len() != "messages_hits"@.len());
        assert("read_status_misses"@.len() != "messages_misses"@.len());
        assert("read_status_misses"@.len() != "read_status_hits"@.len());
        assert(with_field(m, "read_status_misses"@, value) == CacheMetrics { read_status_misses: value, ..m });
    }
    if t == CacheType::Notifications && hit == true {
        reveal_strlit("notifications_hits");
        reveal_strlit("channels_hits");
        reveal_strlit("channels_misses");
        reveal_strlit("channel_members_hits");
        reveal_strlit("channel_members_misses");
        reveal_strlit("dms_hits");
        reveal_strlit("dms_misses");
        reveal_strlit("dm_participants_hits");
        reveal_strlit("dm_participants_misses");
        reveal_strlit("users_hits");
        reveal_strlit("users_misses");
        reveal_strlit("messages_hits");
        reveal_strlit("messages_misses");
        reveal_strlit("read_status_hits");
        reveal_strlit("read_status_misses");
        assert("notifications_hits"@.len() != "channels_hits"@.len());
        assert("notifications_hits"@.len() != "channels_misses"@.len());
        assert("notifications_hits"@.len() != "channel_members_hits"@.len());
        assert("notifications_hits"@.len() != "channel_members_misses"@.len());
        assert("notifications_hits"@.len() != "dms_hits"@.len());
        assert("notifications_hits"@.len() != "dms_misses"@.len());
        assert("notifications_hits"@.len() != "dm_participants_hits"@.len());
        assert("notifications_hits"@.len() != "dm_participants_misses"@.len());
        assert("notifications_hits"@.len() != "users_hits"@.len());
        assert("notifications_hits"@.len() != "users_misses"@.len());
        assert("notifications_hits"@.len() != "messages_hits"@.len());
        assert("notifications_hits"@.len() != "messages_misses"@.len());
        assert("notifications_hits"@.len() != "read_status_hits"@.len());
        assert("notifications_hits"@[0] != "read_status_misses"@[0]);
        assert(with_field(m, "notifications_hits"@, value) == CacheMetrics { notifications_hits: value, ..m });
    }
    if t == CacheType::Notifications && hit == false {
        reveal_strlit("notifications_misses");
        reveal_strlit("channels_hits");
        reveal_strlit("channels_misses");
        reveal_strlit("channel_members_hits");
        reveal_strlit("channel_members_misses");
        reveal_strlit("dms_hits");
        reveal_strlit("dms_misses");
        reveal_strlit("dm_participants_hits");
        reveal_strlit("dm_participants_misses");
        reveal_strlit("users_hits");
        reveal_strlit("users_misses");
        reveal_strlit("messages_hits");
        reveal_strlit("messages_misses");
        reveal_strlit("read_status_hits");
        reveal_strlit("read_status_misses");
        reveal_strlit("notifications_hits");
        assert("notifications_misses"@.len() != "channels_hits"@.len());
        assert("notifications_misses"@.len() != "channels_misses"@.len());
        assert("notifications_misses"@[0] != "channel_members_hits"@[0]);
        assert("notifications_misses"@.len() != "channel_members_misses"@.len());
        assert("notifications_misses"@.len() != "dms_hits"@.len());
        assert("notifications_misses"@.len() != "dms_misses"@.len());
        assert("notifications_misses"@[0] != "dm_participants_hits"@[0]);
        assert("notifications_misses"@.len() != "dm_participants_misses"@.len());
        assert("notifications_misses"@.len() != "users_hits"@.len());
        assert("notifications_misses"@.len() != "users_misses"@.len());
        assert("notifications_misses"@.len() != "messages_hits"@.len());
        assert("notifications_misses"@.len() != "messages_misses"@.len());
        assert("notifications_misses"@.len() != "read_status_hits"@.len());
        assert("notifications_misses"@.len() != "read_status_misses"@.len());
        assert("notifications_misses"@.len() != "notifications_hits"@.len());
        assert(with_field(m, "notifications_misses"@, value) == CacheMetrics { notifications_misses: value, ..m });
    }
    if t == CacheType::Organizations && hit == true {
        reveal_strlit("organizations_hits");
        reveal_strlit("channels_hits");
        reveal_strlit("channels_misses");
        reveal_strlit("channel_members_hits");
        reveal_strlit("channel_members_misses");
        reveal_strlit("dms_hits");
        reveal_strlit("dms_misses");
        reveal_strlit("dm_participants_hits");
        reveal_strlit("dm_participants_misses");
        reveal_strlit("users_hits");
        reveal_strlit("users_misses");
        reveal_strlit("messages_hits");
        reveal_strlit("messages_misses");
        reveal_strlit("read_status_hits");
        reveal_strlit("read_status_misses");
        reveal_strlit("notifications_hits");
        reveal_strlit("notifications_misses");
        assert("organizations_hits"@.len() != "channels_hits"@.len());
        assert("organizations_hits"@.len() != "channels_misses"@.len());
        assert("organizations_hits"@.len() != "channel_members_hits"@.len());
        assert("organizations_hits"@.len() != "channel_members_misses"@.len());
        assert("organizations_hits"@.len() != "dms_hits"@.len());
        assert("organizations_hits"@.len() != "dms_misses"@.len());
        assert("organizations_hits"@.len() != "dm_participants_hits"@.len());
        assert("organizations_hits"@.len() != "dm_participants_misses"@.len());
        assert("organizations_hits"@.len() != "users_hits"@.len());
        assert("organizations_hits"@.len() != "users_misses"@.len());
        assert("organizations_hits"@.len() != "messages_hits"@.len());
        assert("organizations_hits"@.len() != "messages_misses"@.len());
        assert("organizations_hits"@.len() != "read_status_hits"@.len());
        assert("organizations_hits"@[0] != "read_status_misses"@[0]);
        assert("organizations_hits"@[0] != "notifications_hits"@[0]);
        assert("organizations_hits"@.len() != "notifications_misses"@.len());
        assert(with_field(m, "organizations_hits"@, value) == CacheMetrics { organizations_hits: value, ..m });
    }
    if t == CacheType::Organizations && hit == false {
        reveal_strlit("organizations_misses");
        reveal_strlit("channels_hits");
        reveal_strlit("channels_misses");
        reveal_strlit("channel_members_hits");
        reveal_strlit("channel_members_misses");
        reveal_strlit("dms_hits");
        reveal_strlit("dms_misses");
        reveal_strlit("dm_participants_hits");
        reveal_strlit("dm_participants_misses");
        reveal_strlit("users_hits");
        reveal_strlit("users_misses");
        reveal_strlit("messages_hits");
        reveal_strlit("messages_misses");
        reveal_strlit("read_status_hits");
        reveal_strlit("read_status_misses");
        reveal_strlit("notifications_hits");
        reveal_strlit("notifications_misses");
        reveal_strlit("organizations_hits");
        assert("organizations_misses"@.len() != "channels_hits"@.len());
        assert("organizations_misses"@.len() != "channels_misses"@.len());
        assert("organizations_misses"@[0] != "channel_members_hits"@[0]);
        assert("organizations_misses"@.len() != "channel_members_misses"@.len());
        assert("organizations_misses"@.len() != "dms_hits"@.len());
        assert("organizations_misses"@.len() != "dms_misses"@.len());
        assert("organizations_misses"@[0] != "dm_participants_hits"@[0]);
        assert("organizations_misses"@.len() != "dm_participants_misses"@.len());
        assert("organizations_misses"@.len() != "users_hits"@.len());
        assert("organizations_misses"@.len() != "users_misses"@.len());
        assert("organizations_misses"@.len() != "messages_hits"@.len());
        assert("organizations_misses"@.len() != "messages_misses"@.len());
        assert("organizations_misses"@.len() != "read_status_hits"@.len());
        assert("organizations_misses"@.len() != "read_status_misses"@.len());
        assert("organizations_misses"@.len() != "notifications_hits"@.len());
        assert("organizations_misses"@[0] != "notifications_misses"@[0]);
        assert("organizations_misses"@.len() != "organizations_hits"@.len());
        assert(with_field(m, "organizations_misses"@, value) == CacheMetrics { organizations_misses: value, ..m });
    }
    if t == CacheType::Tokens && hit == true {
        reveal_strlit("tokens_hits");
        reveal_strlit("channels_hits");
        reveal_strlit("channels_misses");
        reveal_strlit("channel_members_hits");
        reveal_strlit("channel_members_misses");
        reveal_strlit("dms_hits");
        reveal_strlit("dms_misses");
        reveal_strlit("dm_participants_hits");
        reveal_strlit("dm_participants_misses");
        reveal_strlit("users_hits");
        reveal_strlit("users_misses");
        reveal_strlit("messages_hits");
        reveal_strlit("messages_misses");
        reveal_strlit("read_status_hits");
        reveal_strlit("read_status_misses");
        reveal_strlit("notifications_hits");
        reveal_strlit("notifications_misses");
        reveal_strlit("organizations_hits");
        reveal_strlit("organizations_misses");
        assert("tokens_hits"@.len() != "channels_hits"@.len());
        assert("tokens_hits"@.len() != "channels_misses"@.len());
        assert("tokens_hits"@.len() != "channel_members_hits"@.len());
        assert("tokens_hits"@.len() != "channel_members_misses"@.len());
        assert("tokens_hits"@.len() != "dms_hits"@.len());
        assert("tokens_hits"@.len() != "dms_misses"@.len());
        assert("tokens_hits"@.len() != "dm_participants_hits"@.len());
        assert("tokens_hits"@.len() != "dm_participants_misses"@.len());
        assert("tokens_hits"@.len() != "users_hits"@.len());
        assert("tokens_hits"@.len() != "users_misses"@.len());
        assert("tokens_hits"@.len() != "messages_hits"@.len());
        assert("tokens_hits"@.len() != "messages_misses"@.len());
        assert("tokens_hits"@.len() != "read_status_hits"@.len());
        assert("tokens_hits"@.len() != "read_status_misses"@.len());
        assert("tokens_hits"@.len() != "notifications_hits"@.len());
        assert("tokens_hits"@.len() != "notifications_misses"@.len());
        assert("tokens_hits"@.len() != "organizations_hits"@.len());
        assert("tokens_hits"@.len() != "organizations_misses"@.len());
        assert(with_field(m, "tokens_hits"@, value) == CacheMetrics { tokens_hits: value, ..m });
    }
    if t == CacheType::Tokens && hit == false {
        reveal_strlit("tokens_misses");
        reveal_strlit("channels_hits");
        reveal_strlit("channels_misses");
        reveal_strlit("channel_members_hits");
        reveal_strlit("channel_members_misses");
        reveal_strlit("dms_hits");
        reveal_strlit("dms_misses");
        reveal_strlit("dm_participants_hits");
        reveal_strlit("dm_participants_misses");
        reveal_strlit("users_hits");
        reveal_strlit("users_misses");
        reveal_strlit("messages_hits");
        reveal_strlit("messages_misses");
        reveal_strlit("read_status_hits");
        reveal_strlit("read_status_misses");
        reveal_strlit("notifications_hits");
        reveal_strlit("notifications_misses");
        reveal_strlit("organizations_hits");
        reveal_strlit("organizations_misses");
        reveal_strlit("tokens_hits");
        assert("tokens_misses"@[0] != "channels_hits"@[0]);
        assert("tokens_misses"@.len() != "channels_misses"@.len());
        assert("tokens_misses"@.len() != "channel_members_hits"@.len());
        assert("tokens_misses"@.len() != "channel_members_misses"@.len());
        assert("tokens_misses"@.len() != "dms_hits"@.len());
        assert("tokens_misses"@.len() != "dms_misses"@.len());
        assert("tokens_misses"@.len() != "dm_participants_hits"@.len());
        assert("tokens_misses"@.len() != "dm_participants_misses"@.len());
        assert("tokens_misses"@.len() != "users_hits"@.len());
        assert("tokens_misses"@.len() != "users_misses"@.len());
        assert("tokens_misses"@[0] != "messages_hits"@[0]);
        assert("tokens_misses"@.len() != "messages_misses"@.len());
        assert("tokens_misses"@.len() != "read_status_hits"@.len());
        assert("tokens_misses"@.len() != "read_status_misses"@.len());
        assert("tokens_misses"@.len() != "notifications_hits"@.len());
        assert("tokens_misses"@.len() != "notifications_misses"@.len());
        assert("tokens_misses"@.len() != "organizations_hits"@.len());
        assert("tokens_misses"@.len() != "organizations_misses"@.len());
        assert("tokens_misses"@.len() != "tokens_hits"@.len());
        assert(with_field(m, "tokens_misses"@, value) == CacheMetrics { tokens_misses: value, ..m });
    }
}

/// The label of a kind of cached data in the metrics report.
pub open spec fn label_of(t: CacheType) -> Seq<char> {
    match t {
        CacheType::Channels => "channels"@,
        CacheType::ChannelMembers => "channel_members"@,
        CacheType::Dms => "dms"@,
        CacheType::DmParticipants => "dm_participants"@,
        CacheType::Users => "users"@,
        CacheType::Messages => "messages"@,
        CacheType::ReadStatus => "read_status"@,
        CacheType::Notifications => "notifications"@,
        CacheType::Organizations => "organizations"@,
        CacheType::Tokens => "tokens"@,
    }
}

/// The label of a kind of cached data in the metrics report.
pub fn cache_type_label(t: CacheType) -> (s: &'static str)
    ensures
        s@ == label_of(t),
{
    match t {
        CacheType::Channels => "channels",
        CacheType::ChannelMembers => "channel_members",
        CacheType::Dms => "dms",
        CacheType::DmParticipants => "dm_participants",
        CacheType::Users => "users",
        CacheType::Messages => "messages",
        CacheType::ReadStatus => "read_status",
        CacheType::Notifications => "notifications",
        CacheType::Organizations => "organizations",
        CacheType::Tokens => "tokens",
    }
}

/// The kinds that the metrics report breaks down, in the order it lists them.
pub open spec fn reported_types_spec() -> Seq<CacheType> {
    seq![CacheType::Channels, CacheType::ChannelMembers, CacheType::Dms, CacheType::DmParticipants, CacheType::Users, CacheType::Messages, CacheType::ReadStatus, CacheType::Notifications]
}

/// The kinds that the metrics report breaks down, in the order it lists them.
pub fn reported_types() -> (v: Vec<CacheType>)
    ensures
        v@ == reported_types_spec(),
{
    let v = vec![CacheType::Channels, CacheType::ChannelMembers, CacheType::Dms, CacheType::DmParticipants, CacheType::Users, CacheType::Messages, CacheType::ReadStatus, CacheType::Notifications];
    assert(v@ =~= reported_types_spec());
    v
}

/// The hits, misses and their total for one kind of cached data.
pub fn type_summary(m: &CacheMetrics, t: CacheType) -> (r: (i64, i64, i64))
    requires
        i64::MIN <= counter_of(*m, t, true) + counter_of(*m, t, false) <= i64::MAX,
    ensures
        r.0 == counter_of(*m, t, true),
        r.1 == counter_of(*m, t, false),
        r.2 == r.0 + r.1,
{
    let (h, s) = match t {
        CacheType::Channels => (m.channels_hits, m.channels_misses),
        CacheType::ChannelMembers => (m.channel_members_hits, m.channel_members_misses),
        CacheType::Dms => (m.dms_hits, m.dms_misses),
        CacheType::DmParticipants => (m.dm_participants_hits, m.dm_participants_misses),
        CacheType::Users => (m.users_hits, m.users_misses),
        CacheType::Messages => (m.messages_hits, m.messages_misses),
        CacheType::ReadStatus => (m.read_status_hits, m.read_status_misses),
        CacheType::Notifications => (m.notifications_hits, m.notifications_misses),
        CacheType::Organizations => (m.organizations_hits, m.organizations_misses),
        CacheType::Tokens => (m.tokens_hits, m.tokens_misses),
    };
    (h, s, h + s)
}


/// Adding up ten counters gives their plain sum.
proof fn lemma_sum_of_ten(s: Seq<i64>)
    requires
        s.len() == 10,
    ensures
        sum_of(s) == s[0] + s[1] + s[2] + s[3] + s[4] + s[5] + s[6] + s[7] + s[8] + s[9],
{
    let d1 = s.drop_last();
    assert(sum_of(s) == sum_of(d1) + s[9]);
    let d2 = d1.drop_last();
    assert(sum_of(d1) == sum_of(d2) + s[8]);
    let d3 = d2.drop_last();
    assert(sum_of(d2) == sum_of(d3) + s[7]);
    let d4 = d3.drop_last();
    assert(sum_of(d3) == sum_of(d4) + s[6]);
    let d5 = d4.drop_last();
    assert(sum_of(d4) == sum_of(d5) + s[5]);
    let d6 = d5.drop_last();
    assert(sum_of(d5) == sum_of(d6) + s[4]);
    let d7 = d6.drop_last();
    assert(sum_of(d6) == sum_of(d7) + s[3]);
    let d8 = d7.drop_last();
    assert(sum_of(d7) == sum_of(d8) + s[2]);
    let d9 = d8.drop_last();
    assert(sum_of(d8) == sum_of(d9) + s[1]);
    let d10 = d9.drop_last();
    assert(sum_of(d9) == sum_of(d10) + s[0]);
    assert(d10.len() == 0);
}

/// Every kind of cached data counts in the totals: the total misses are the
/// misses of channels, channel members, DMs, DM participants, users,
/// messages, read status, notifications, organizations and tokens added up,
/// the total hits likewise, and the operations are the two totals together.
pub proof fn law_totals_count_every_kind(m: CacheMetrics)
    ensures
        sum_of(misses_seq(m)) == m.channels_misses + m.channel_members_misses + m.dms_misses
            + m.dm_participants_misses + m.users_misses + m.messages_misses + m.read_status_misses
            + m.notifications_misses + m.organizations_misses + m.tokens_misses,
        sum_of(hits_seq(m)) == m.channels_hits + m.channel_members_hits + m.dms_hits
            + m.dm_participants_hits + m.users_hits + m.messages_hits + m.read_status_hits
            + m.notifications_hits + m.organizations_hits + m.tokens_hits,
{
    lemma_sum_of_ten(misses_seq(m));
    lemma_sum_of_ten(hits_seq(m));
}

} // verus!
