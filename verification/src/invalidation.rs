//! Cache invalidation by key pattern: which cache keys a pattern deletes.
//!
//! Invalidation deletes every key that a Redis glob pattern matches. The
//! patterns built in [`crate::keys`] hold no glob character but `*`, which
//! matches any run of characters; the laws here show that each pattern reaches
//! the keys that it is meant to invalidate.
use vstd::prelude::*;
use crate::ids::{is_uuid_char, lemma_uuid_text_injective, lemma_uuid_text_shape, uuid_text};
use crate::keys::{org_key2_spec, org_key_spec, org_prefix};

verus! {

/// Whether a Redis glob pattern whose only special character is `*` matches `s`.
pub open spec fn glob_match(p: Seq<char>, s: Seq<char>) -> bool
    decreases p.len(), s.len(),
{
    if p.len() == 0 {
        s.len() == 0
    } else if p[0] == '*' {
        glob_match(p.drop_first(), s) || (s.len() > 0 && glob_match(p, s.drop_first()))
    } else {
        s.len() > 0 && s[0] == p[0] && glob_match(p.drop_first(), s.drop_first())
    }
}

/// `s` holds no `*`.
pub open spec fn no_star(s: Seq<char>) -> bool {
    forall|i: int| 0 <= i < s.len() ==> s[i] != '*'
}

/// A literal piece put before both a pattern and a text keeps the match.
proof fn lemma_literal_prefix(l: Seq<char>, p: Seq<char>, s: Seq<char>)
    requires
        no_star(l),
        glob_match(p, s),
    ensures
        glob_match(l + p, l + s),
    decreases l.len(),
{
    if l.len() > 0 {
        lemma_literal_prefix(l.drop_first(), p, s);
        assert((l + p).drop_first() =~= l.drop_first() + p);
        assert((l + s).drop_first() =~= l.drop_first() + s);
        assert((l + p)[0] == l[0]);
        assert((l + s)[0] == l[0]);
    } else {
        assert(l + p =~= p);
        assert(l + s =~= s);
    }
}

/// A `*` takes in any run of characters.
proof fn lemma_star_takes(x: Seq<char>, p: Seq<char>, s: Seq<char>)
    requires
        glob_match(p, s),
    ensures
        glob_match(seq!['*'] + p, x + s),
    decreases x.len(),
{
    assert((seq!['*'] + p)[0] == '*');
    assert((seq!['*'] + p).drop_first() =~= p);
    if x.len() > 0 {
        lemma_star_takes(x.drop_first(), p, s);
        assert((x + s).drop_first() =~= x.drop_first() + s);
    } else {
        assert(x + s =~= s);
    }
}

/// The text of a UUID holds no `*`.
proof fn lemma_uuid_no_star(id: u128)
    ensures
        no_star(uuid_text(id)),
{
    lemma_uuid_text_shape(id);
    assert forall|i: int| 0 <= i < uuid_text(id).len() implies uuid_text(id)[i] != '*' by {
        assert(is_uuid_char(uuid_text(id)[i]));
    }
}

/// A pattern `{lit}*` matches every text that starts with `lit`.
proof fn lemma_prefix_star(lit: Seq<char>, rest: Seq<char>)
    requires
        no_star(lit),
    ensures
        glob_match(lit + seq!['*'], lit + rest),
{
    assert(glob_match(Seq::<char>::empty(), Seq::<char>::empty()));
    lemma_star_takes(rest, Seq::<char>::empty(), Seq::<char>::empty());
    assert(seq!['*'] + Seq::<char>::empty() =~= seq!['*']);
    assert(rest + Seq::<char>::empty() =~= rest);
    lemma_literal_prefix(lit, seq!['*'], rest);
}

proof fn lemma_no_star_concat(a: Seq<char>, b: Seq<char>)
    requires
        no_star(a),
        no_star(b),
    ensures
        no_star(a + b),
{
    assert forall|i: int| 0 <= i < (a + b).len() implies (a + b)[i] != '*' by {
        if i < a.len() {
            assert((a + b)[i] == a[i]);
        } else {
            assert((a + b)[i] == b[i - a.len()]);
        }
    }
}

/// The start of every key of an organization holds no `*`.
proof fn lemma_org_prefix_no_star(org_id: u128)
    ensures
        no_star(org_prefix(org_id)),
{
    reveal_strlit("openchat:org:");
    lemma_uuid_no_star(org_id);
    lemma_no_star_concat("openchat:org:"@, uuid_text(org_id));
}

/// The pattern `{org prefix}{mid}*` matches every key `{org prefix}{mid}{id}`.
proof fn lemma_org_mid_star(org_id: u128, mid: Seq<char>, id: u128)
    requires
        no_star(mid),
    ensures
        glob_match(org_prefix(org_id) + mid + seq!['*'], org_key_spec(org_id, mid, id)),
{
    lemma_org_prefix_no_star(org_id);
    lemma_no_star_concat(org_prefix(org_id), mid);
    lemma_prefix_star(org_prefix(org_id) + mid, uuid_text(id));
    assert(org_key_spec(org_id, mid, id) =~= (org_prefix(org_id) + mid) + uuid_text(id));
}

/// Every organization-wide invalidation pattern ending in `:{kind}:*` reaches
/// every key of that kind in the organization: notification counts, pin lists,
/// user statuses, cached users and identity-provider index entries.
pub proof fn law_org_patterns_reach_their_keys(org_id: u128, id: u128)
    ensures
        glob_match(
            org_prefix(org_id) + ":notification_count:*"@,
            org_key_spec(org_id, ":notification_count:"@, id),
        ),
        glob_match(
            org_prefix(org_id) + ":channel_pins:*"@,
            org_key_spec(org_id, ":channel_pins:"@, id),
        ),
        glob_match(
            org_prefix(org_id) + ":user_status:*"@,
            org_key_spec(org_id, ":user_status:"@, id),
        ),
        glob_match(org_prefix(org_id) + ":user:*"@, org_key_spec(org_id, ":user:"@, id)),
        glob_match(org_prefix(org_id) + ":tv_user:*"@, org_key_spec(org_id, ":tv_user:"@, id)),
{
    reveal_strlit(":notification_count:*");
    reveal_strlit(":notification_count:");
    reveal_strlit(":channel_pins:*");
    reveal_strlit(":channel_pins:");
    reveal_strlit(":user_status:*");
    reveal_strlit(":user_status:");
    reveal_strlit(":user:*");
    reveal_strlit(":user:");
    reveal_strlit(":tv_user:*");
    reveal_strlit(":tv_user:");
    let mids = seq![":notification_count:"@, ":channel_pins:"@, ":user_status:"@, ":user:"@, ":tv_user:"@];
    let pats = seq![
        ":notification_count:*"@,
        ":channel_pins:*"@,
        ":user_status:*"@,
        ":user:*"@,
        ":tv_user:*"@,
    ];
    assert forall|k: int| 0 <= k < 5 implies glob_match(
        org_prefix(org_id) + pats[k],
        org_key_spec(org_id, mids[k], id),
    ) by {
        assert(pats[k] =~= mids[k] + seq!['*']);
        assert(no_star(mids[k]));
        lemma_org_mid_star(org_id, mids[k], id);
        assert(org_prefix(org_id) + pats[k] =~= org_prefix(org_id) + mids[k] + seq!['*']);
    }
    assert(mids[0] == ":notification_count:"@ && pats[0] == ":notification_count:*"@);
    assert(mids[1] == ":channel_pins:"@ && pats[1] == ":channel_pins:*"@);
    assert(mids[2] == ":user_status:"@ && pats[2] == ":user_status:*"@);
    assert(mids[3] == ":user:"@ && pats[3] == ":user:*"@);
    assert(mids[4] == ":tv_user:"@ && pats[4] == ":tv_user:*"@);
}

/// A key `{org prefix}{lit}{rest}` is matched by `{org prefix}{lit}*`.
proof fn lemma_org_lit_star(org_id: u128, lit: Seq<char>, rest: Seq<char>)
    requires
        no_star(lit),
    ensures
        glob_match(org_prefix(org_id) + lit + seq!['*'], org_prefix(org_id) + lit + rest),
{
    lemma_org_prefix_no_star(org_id);
    lemma_no_star_concat(org_prefix(org_id), lit);
    lemma_prefix_star(org_prefix(org_id) + lit, rest);
}

/// Invalidating an organization's channels (`:channel*`) reaches every
/// channel key of it: the channel, its members, each membership check, its pins,
/// its messages, and each user's channel sections; invalidating its DMs (`:dm*`)
/// reaches the DM, its participants and its messages.
pub proof fn law_org_channel_and_dm_patterns(org_id: u128, a: u128, b: u128)
    ensures
        glob_match(org_prefix(org_id) + ":channel*"@, org_key_spec(org_id, ":channel:"@, a)),
        glob_match(org_prefix(org_id) + ":channel*"@, org_key_spec(org_id, ":channel_members:"@, a)),
        glob_match(
            org_prefix(org_id) + ":channel*"@,
            org_key2_spec(org_id, ":channel_membership:"@, a, b),
        ),
        glob_match(org_prefix(org_id) + ":channel*"@, org_key_spec(org_id, ":channel_pins:"@, a)),
        glob_match(
            org_prefix(org_id) + ":channel*"@,
            org_key_spec(org_id, ":channel_messages:"@, a),
        ),
        glob_match(
            org_prefix(org_id) + ":channel*"@,
            org_key_spec(org_id, ":channel_sections:"@, a),
        ),
        glob_match(org_prefix(org_id) + ":dm*"@, org_key_spec(org_id, ":dm:"@, a)),
        glob_match(org_prefix(org_id) + ":dm*"@, org_key_spec(org_id, ":dm_participants:"@, a)),
        glob_match(org_prefix(org_id) + ":dm*"@, org_key_spec(org_id, ":dm_messages:"@, a)),
{
    reveal_strlit(":channel*");
    reveal_strlit(":channel");
    reveal_strlit(":channel:");
    reveal_strlit(":channel_members:");
    reveal_strlit(":channel_membership:");
    reveal_strlit(":channel_pins:");
    reveal_strlit(":channel_messages:");
    reveal_strlit(":channel_sections:");
    reveal_strlit(":dm*");
    reveal_strlit(":dm");
    reveal_strlit(":dm:");
    reveal_strlit(":dm_participants:");
    reveal_strlit(":dm_messages:");
    reveal_strlit(":");
    reveal_strlit("_members:");
    reveal_strlit("_membership:");
    reveal_strlit("_pins:");
    reveal_strlit("_messages:");
    reveal_strlit("_sections:");
    reveal_strlit("_participants:");
    assert(":channel:"@ =~= ":channel"@ + ":"@);
    assert(":channel_members:"@ =~= ":channel"@ + "_members:"@);
    assert(":channel_membership:"@ =~= ":channel"@ + "_membership:"@);
    assert(":channel_pins:"@ =~= ":channel"@ + "_pins:"@);
    assert(":channel_messages:"@ =~= ":channel"@ + "_messages:"@);
    assert(":channel_sections:"@ =~= ":channel"@ + "_sections:"@);
    assert(":dm:"@ =~= ":dm"@ + ":"@);
    assert(":dm_participants:"@ =~= ":dm"@ + "_participants:"@);
    assert(":dm_messages:"@ =~= ":dm"@ + "_messages:"@);
    let p = org_prefix(org_id);
    let ch = ":channel"@;
    let dm = ":dm"@;
    assert(no_star(ch));
    assert(no_star(dm));
    assert(p + ":channel*"@ =~= p + ch + seq!['*']);
    assert(p + ":dm*"@ =~= p + dm + seq!['*']);
    let ua = uuid_text(a);
    let ub = uuid_text(b);
    let rests = seq![
        ":"@ + ua,
        "_members:"@ + ua,
        "_membership:"@ + ua + ":"@ + ub,
        "_pins:"@ + ua,
        "_messages:"@ + ua,
        "_sections:"@ + ua,
    ];
    assert forall|k: int| 0 <= k < 6 implies glob_match(p + ch + seq!['*'], p + ch + rests[k]) by {
        lemma_org_lit_star(org_id, ch, rests[k]);
    }
    assert(org_key_spec(org_id, ":channel:"@, a) =~= p + ch + rests[0]);
    assert(org_key_spec(org_id, ":channel_members:"@, a) =~= p + ch + rests[1]);
    assert(org_key2_spec(org_id, ":channel_membership:"@, a, b) =~= p + ch + rests[2]);
    assert(org_key_spec(org_id, ":channel_pins:"@, a) =~= p + ch + rests[3]);
    assert(org_key_spec(org_id, ":channel_messages:"@, a) =~= p + ch + rests[4]);
    assert(org_key_spec(org_id, ":channel_sections:"@, a) =~= p + ch + rests[5]);
    let drests = seq![":"@ + ua, "_participants:"@ + ua, "_messages:"@ + ua];
    assert forall|k: int| 0 <= k < 3 implies glob_match(p + dm + seq!['*'], p + dm + drests[k]) by {
        lemma_org_lit_star(org_id, dm, drests[k]);
    }
    assert(org_key_spec(org_id, ":dm:"@, a) =~= p + dm + drests[0]);
    assert(org_key_spec(org_id, ":dm_participants:"@, a) =~= p + dm + drests[1]);
    assert(org_key_spec(org_id, ":dm_messages:"@, a) =~= p + dm + drests[2]);
}

/// A text without `*` matches itself as a pattern.
proof fn lemma_literal_self(l: Seq<char>)
    requires
        no_star(l),
    ensures
        glob_match(l, l),
{
    assert(glob_match(Seq::<char>::empty(), Seq::<char>::empty()));
    lemma_literal_prefix(l, Seq::<char>::empty(), Seq::<char>::empty());
    assert(l + Seq::<char>::empty() =~= l);
}

/// Invalidating an organization's message lists (`:*_messages:*`) reaches the
/// message list of every channel and of every DM.
pub proof fn law_org_messages_pattern(org_id: u128, id: u128)
    ensures
        glob_match(
            org_prefix(org_id) + ":*_messages:*"@,
            org_key_spec(org_id, ":channel_messages:"@, id),
        ),
        glob_match(org_prefix(org_id) + ":*_messages:*"@, org_key_spec(org_id, ":dm_messages:"@, id)),
{
    reveal_strlit(":*_messages:*");
    reveal_strlit(":channel_messages:");
    reveal_strlit(":dm_messages:");
    reveal_strlit("_messages:");
    reveal_strlit(":");
    reveal_strlit("channel");
    reveal_strlit("dm");
    let p = org_prefix(org_id);
    let u = uuid_text(id);
    let tail = "_messages:"@;
    assert(no_star(tail));
    lemma_prefix_star(tail, u);
    let after_star = tail + seq!['*'];
    lemma_star_takes("channel"@, after_star, tail + u);
    lemma_star_takes("dm"@, after_star, tail + u);
    lemma_org_prefix_no_star(org_id);
    assert(no_star(":"@));
    lemma_no_star_concat(p, ":"@);
    lemma_literal_prefix(p + ":"@, seq!['*'] + after_star, "channel"@ + (tail + u));
    lemma_literal_prefix(p + ":"@, seq!['*'] + after_star, "dm"@ + (tail + u));
    assert(p + ":*_messages:*"@ =~= (p + ":"@) + (seq!['*'] + after_star));
    assert(org_key_spec(org_id, ":channel_messages:"@, id) =~= (p + ":"@) + ("channel"@ + (tail
        + u)));
    assert(org_key_spec(org_id, ":dm_messages:"@, id) =~= (p + ":"@) + ("dm"@ + (tail + u)));
}

/// Invalidating the membership checks of a channel reaches the check of every user.
pub proof fn law_membership_pattern(org_id: u128, channel_id: u128, user_id: u128)
    ensures
        glob_match(
            org_key_spec(org_id, ":channel_membership:"@, channel_id) + ":*"@,
            org_key2_spec(org_id, ":channel_membership:"@, channel_id, user_id),
        ),
{
    reveal_strlit(":channel_membership:");
    reveal_strlit(":*");
    reveal_strlit(":");
    let k = org_key_spec(org_id, ":channel_membership:"@, channel_id);
    lemma_org_prefix_no_star(org_id);
    assert(no_star(":channel_membership:"@));
    lemma_no_star_concat(org_prefix(org_id), ":channel_membership:"@);
    lemma_uuid_no_star(channel_id);
    lemma_no_star_concat(org_prefix(org_id) + ":channel_membership:"@, uuid_text(channel_id));
    assert(no_star(":"@));
    lemma_no_star_concat(k, ":"@);
    lemma_prefix_star(k + ":"@, uuid_text(user_id));
    assert(k + ":*"@ =~= (k + ":"@) + seq!['*']);
    assert(org_key2_spec(org_id, ":channel_membership:"@, channel_id, user_id) =~= (k + ":"@)
        + uuid_text(user_id));
}

/// Invalidating the unread counts of a channel (or DM) reaches the count of
/// every user in it, and invalidating an organization's unread counts reaches
/// every count of every user.
pub proof fn law_unread_patterns(org_id: u128, user_id: u128, id: u128)
    ensures
        glob_match(
            org_key_spec(org_id, ":unread:channel:*:"@, id),
            org_key2_spec(org_id, ":unread:channel:"@, user_id, id),
        ),
        glob_match(
            org_key_spec(org_id, ":unread:dm:*:"@, id),
            org_key2_spec(org_id, ":unread:dm:"@, user_id, id),
        ),
        glob_match(
            org_prefix(org_id) + ":unread:*"@,
            org_key2_spec(org_id, ":unread:channel:"@, user_id, id),
        ),
        glob_match(
            org_prefix(org_id) + ":unread:*"@,
            org_key2_spec(org_id, ":unread:dm:"@, user_id, id),
        ),
{
    reveal_strlit(":unread:channel:*:");
    reveal_strlit(":unread:channel:");
    reveal_strlit(":unread:dm:*:");
    reveal_strlit(":unread:dm:");
    reveal_strlit(":unread:*");
    reveal_strlit(":unread:");
    reveal_strlit("channel:");
    reveal_strlit("dm:");
    reveal_strlit(":");
    let p = org_prefix(org_id);
    let uu = uuid_text(user_id);
    let ui = uuid_text(id);
    lemma_org_prefix_no_star(org_id);
    lemma_uuid_no_star(id);
    assert(no_star(":"@));
    lemma_no_star_concat(":"@, ui);
    lemma_literal_self(":"@ + ui);
    lemma_star_takes(uu, ":"@ + ui, ":"@ + ui);
    let mids = seq![":unread:channel:"@, ":unread:dm:"@];
    let pats = seq![":unread:channel:*:"@, ":unread:dm:*:"@];
    assert forall|k: int| 0 <= k < 2 implies glob_match(
        org_key_spec(org_id, pats[k], id),
        org_key2_spec(org_id, mids[k], user_id, id),
    ) by {
        assert(no_star(mids[k]));
        lemma_no_star_concat(p, mids[k]);
        lemma_literal_prefix(p + mids[k], seq!['*'] + (":"@ + ui), uu + (":"@ + ui));
        assert(pats[k] =~= mids[k] + seq!['*'] + ":"@);
        assert(org_key_spec(org_id, pats[k], id) =~= (p + mids[k]) + (seq!['*'] + (":"@ + ui)));
        assert(org_key2_spec(org_id, mids[k], user_id, id) =~= (p + mids[k]) + (uu + (":"@ + ui)));
    }
    assert(mids[0] == ":unread:channel:"@ && pats[0] == ":unread:channel:*:"@);
    assert(mids[1] == ":unread:dm:"@ && pats[1] == ":unread:dm:*:"@);
    let un = ":unread:"@;
    assert(no_star(un));
    lemma_org_lit_star(org_id, un, "channel:"@ + uu + ":"@ + ui);
    lemma_org_lit_star(org_id, un, "dm:"@ + uu + ":"@ + ui);
    assert(p + ":unread:*"@ =~= p + un + seq!['*']);
    assert(org_key2_spec(org_id, ":unread:channel:"@, user_id, id) =~= p + un + ("channel:"@ + uu
        + ":"@ + ui));
    assert(org_key2_spec(org_id, ":unread:dm:"@, user_id, id) =~= p + un + ("dm:"@ + uu + ":"@
        + ui));
}

/// A pattern that starts with a literal piece matches only texts that start with it.
proof fn lemma_literal_needed(l: Seq<char>, p: Seq<char>, s: Seq<char>)
    requires
        no_star(l),
        glob_match(l + p, s),
    ensures
        l.len() <= s.len(),
        s.subrange(0, l.len() as int) == l,
    decreases l.len(),
{
    if l.len() > 0 {
        assert((l + p)[0] == l[0]);
        assert((l + p).drop_first() =~= l.drop_first() + p);
        lemma_literal_needed(l.drop_first(), p, s.drop_first());
        assert(s.subrange(0, l.len() as int) =~= seq![s[0]] + s.drop_first().subrange(
            0,
            l.drop_first().len() as int,
        ));
        assert(l =~= seq![l[0]] + l.drop_first());
    } else {
        assert(s.subrange(0, 0) =~= l);
    }
}

/// An organization's invalidation patterns never reach a key of another
/// organization: every pattern built for an organization starts with its
/// prefix, every key with its own organization's prefix, and the prefixes of
/// two organizations differ.
pub proof fn law_patterns_stay_in_their_organization(
    org_id: u128,
    other_org: u128,
    pattern_tail: Seq<char>,
    key_tail: Seq<char>,
)
    requires
        org_id != other_org,
    ensures
        !glob_match(org_prefix(org_id) + pattern_tail, org_prefix(other_org) + key_tail),
{
    reveal_strlit("openchat:org:");
    let pa = org_prefix(org_id);
    let pb = org_prefix(other_org);
    let key = pb + key_tail;
    if glob_match(pa + pattern_tail, key) {
        lemma_org_prefix_no_star(org_id);
        lemma_literal_needed(pa, pattern_tail, key);
        lemma_uuid_text_shape(org_id);
        lemma_uuid_text_shape(other_org);
        assert(pa.len() == pb.len());
        assert(key.subrange(0, pb.len() as int) =~= pb);
        assert(uuid_text(org_id) =~= pa.subrange(13, 49));
        assert(uuid_text(other_org) =~= pb.subrange(13, 49));
        lemma_uuid_text_injective(org_id, other_org);
    }
}

} // verus!
