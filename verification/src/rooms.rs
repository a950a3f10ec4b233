//! Room bookkeeping: membership states, room metadata, the family home room
//! and the derivation of a Matrix alias localpart from a room name.

use vstd::prelude::*;
use crate::text::{chars_of, push_char, decimal, push_decimal};
use crate::error::{ShadowLinkError, ErrorModel, ErrorOrigin, ApiErrorKind};

verus! {

/// Membership state of a room.
#[derive(Clone, Copy, Debug, PartialEq, Eq, Structural)]
pub enum RoomState {
    Joined,
    Invited,
    Left,
}

// ── Alias derivation ─────────────────────────────────────────────────────

pub open spec fn is_ascii_upper(c: char) -> bool {
    'A' <= c && c <= 'Z'
}

pub open spec fn is_ascii_lower(c: char) -> bool {
    'a' <= c && c <= 'z'
}

pub open spec fn is_ascii_digit(c: char) -> bool {
    '0' <= c && c <= '9'
}

/// The lowercase counterpart of an ASCII uppercase letter.
pub open spec fn lower(c: char) -> char {
    ((c as u32) + 32) as char
}

/// Characters that an alias localpart keeps as they are.
pub open spec fn is_kept(c: char) -> bool {
    is_ascii_lower(c) || is_ascii_digit(c) || c == '.' || c == '_' || c == '='
}

/// Characters that an alias localpart may hold.
pub open spec fn is_alias_char(c: char) -> bool {
    is_kept(c) || c == '-'
}

/// Characters stripped from both ends of an alias localpart.
pub open spec fn is_trimmed(c: char) -> bool {
    c == '-' || c == '.'
}

pub open spec fn ends_with_hyphen(s: Seq<char>) -> bool {
    s.len() > 0 && s.last() == '-'
}

/// One step of the mapping: how `acc` grows when `c` is read.
/// Spaces and hyphens become one hyphen unless `acc` already ends with one;
/// uppercase ASCII letters are lowered; kept characters stay; all others
/// are dropped.
pub open spec fn alias_step(acc: Seq<char>, c: char) -> Seq<char> {
    if c == ' ' || c == '-' {
        if ends_with_hyphen(acc) {
            acc
        } else {
            acc.push('-')
        }
    } else if is_ascii_upper(c) {
        acc.push(lower(c))
    } else if is_kept(c) {
        acc.push(c)
    } else {
        acc
    }
}

/// The mapping of a whole name, before trimming and truncation.
pub open spec fn alias_chars(s: Seq<char>) -> Seq<char>
    decreases s.len(),
{
    if s.len() == 0 {
        Seq::empty()
    } else {
        alias_step(alias_chars(s.drop_last()), s.last())
    }
}

/// `s` without its leading hyphens and dots.
pub open spec fn trim_start(s: Seq<char>) -> Seq<char>
    decreases s.len(),
{
    if s.len() > 0 && is_trimmed(s[0]) {
        trim_start(s.drop_first())
    } else {
        s
    }
}

/// `s` without its trailing hyphens and dots.
pub open spec fn trim_end(s: Seq<char>) -> Seq<char>
    decreases s.len(),
{
    if s.len() > 0 && is_trimmed(s.last()) {
        trim_end(s.drop_last())
    } else {
        s
    }
}

/// The longest allowed alias localpart.
pub const MAX_ALIAS_LEN: usize = 255;

/// `s` cut to at most 255 characters.
pub open spec fn cut_alias(s: Seq<char>) -> Seq<char> {
    if s.len() <= 255 {
        s
    } else {
        s.take(255)
    }
}

/// The alias localpart derived from a room name: mapped, cut to at most
/// 255 characters, then trimmed at both ends.
pub open spec fn alias_of(name: Seq<char>) -> Seq<char> {
    trim_end(trim_start(cut_alias(alias_chars(name))))
}

} // verus!

verus! {

proof fn lemma_trim_start_at(x: Seq<char>, st: int)
    requires
        0 <= st <= x.len(),
        forall|j: int| 0 <= j < st ==> is_trimmed(#[trigger] x[j]),
        st == x.len() || !is_trimmed(x[st]),
    ensures
        trim_start(x) == x.skip(st),
    decreases st,
{
    if st == 0 {
        assert(x.skip(0) =~= x);
    } else {
        assert(is_trimmed(x[0]));
        let y = x.drop_first();
        assert forall|j: int| 0 <= j < st - 1 implies is_trimmed(#[trigger] y[j]) by {
            assert(y[j] == x[j + 1]);
        }
        lemma_trim_start_at(y, st - 1);
        assert(y.skip(st - 1) =~= x.skip(st));
    }
}

proof fn lemma_trim_end_at(x: Seq<char>, en: int)
    requires
        0 <= en <= x.len(),
        forall|j: int| en <= j < x.len() ==> is_trimmed(#[trigger] x[j]),
        en == 0 || !is_trimmed(x[en - 1]),
    ensures
        trim_end(x) == x.take(en),
    decreases x.len() - en,
{
    if en == x.len() {
        assert(x.take(en) =~= x);
    } else {
        assert(is_trimmed(x.last()));
        let y = x.drop_last();
        assert forall|j: int| en <= j < y.len() implies is_trimmed(#[trigger] y[j]) by {
            assert(y[j] == x[j]);
        }
        lemma_trim_end_at(y, en);
        assert(y.take(en) =~= x.take(en));
    }
}

fn is_trimmed_char(c: char) -> (b: bool)
    ensures
        b == is_trimmed(c),
{
    c == '-' || c == '.'
}

/// The mapping step applied to every character of `chars`.
fn map_alias_chars(chars: &Vec<char>) -> (out: Vec<char>)
    ensures
        out@ == alias_chars(chars@),
{
    let mut out: Vec<char> = Vec::new();
    let mut prev_was_hyphen = false;
    let mut i: usize = 0;
    while i < chars.len()
        invariant
            i <= chars.len(),
            out@ == alias_chars(chars@.take(i as int)),
            prev_was_hyphen == ends_with_hyphen(out@),
        decreases chars.len() - i,
    {
        let c = chars[i];
        let ghost before = out@;
        if c == ' ' || c == '-' {
            if !prev_was_hyphen {
                out.push('-');
                prev_was_hyphen = true;
            }
        } else if 'A' <= c && c <= 'Z' {
            let l = ((c as u8) + 32) as char;
            assert(l == lower(c));
            out.push(l);
            prev_was_hyphen = false;
        } else if ('a' <= c && c <= 'z') || ('0' <= c && c <= '9') || c == '.' || c == '_' || c
            == '=' {
            out.push(c);
            prev_was_hyphen = false;
        }
        assert(out@ == alias_step(before, c));
        i = i + 1;
        assert(chars@.take(i as int).drop_last() =~= chars@.take(i - 1));
    }
    assert(chars@.take(i as int) =~= chars@);
    out
}

/// Derive a Matrix alias localpart from a human-readable room name.
///
/// ASCII letters are lowercased; spaces become hyphens; characters outside
/// `[a-z0-9._=-]` are dropped; runs of hyphens collapse to one; the result
/// is cut to 255 characters, then leading and trailing hyphens and dots are
/// stripped.
pub fn derive_alias_localpart(name: &str) -> (alias: String)
    ensures
        alias@ == alias_of(name@),
{
    let chars = chars_of(name);
    let mapped = map_alias_chars(&chars);
    let n: usize = if mapped.len() > MAX_ALIAS_LEN {
        MAX_ALIAS_LEN
    } else {
        mapped.len()
    };
    let ghost m = cut_alias(mapped@);
    assert(m =~= mapped@.subrange(0, n as int));
    let mut start: usize = 0;
    while start < n && is_trimmed_char(mapped[start])
        invariant
            start <= n <= mapped@.len(),
            m =~= mapped@.subrange(0, n as int),
            forall|j: int| 0 <= j < start ==> is_trimmed(#[trigger] m[j]),
        decreases n - start,
    {
        start = start + 1;
    }
    let mut end: usize = n;
    while end > start && is_trimmed_char(mapped[end - 1])
        invariant
            start <= end <= n <= mapped@.len(),
            m =~= mapped@.subrange(0, n as int),
            forall|j: int| end <= j < n ==> is_trimmed(#[trigger] m[j]),
        decreases end - start,
    {
        end = end - 1;
    }
    proof {
        if start < n {
            assert(m[start as int] == mapped@[start as int]);
        }
        lemma_trim_start_at(m, start as int);
        let y = m.skip(start as int);
        assert forall|j: int| end - start <= j < y.len() implies is_trimmed(#[trigger] y[j]) by {
            assert(y[j] == m[j + start]);
        }
        if end > start {
            assert(y[end - start - 1] == m[end - 1]);
            assert(m[end - 1] == mapped@[end - 1]);
        }
        lemma_trim_end_at(y, end - start);
        assert(y.take(end - start) =~= mapped@.subrange(start as int, end as int));
    }
    let mut alias = String::new();
    let mut k: usize = start;
    while k < end
        invariant
            start <= k <= end <= mapped@.len(),
            alias@ == mapped@.subrange(start as int, k as int),
        decreases end - k,
    {
        push_char(&mut alias, mapped[k]);
        k = k + 1;
        assert(mapped@.subrange(start as int, k as int) =~= mapped@.subrange(start as int, k - 1).push(
            mapped@[k - 1],
        ));
    }
    alias
}

} // verus!

verus! {

pub open spec fn all_alias_chars(s: Seq<char>) -> bool {
    forall|i: int| 0 <= i < s.len() ==> is_alias_char(#[trigger] s[i])
}

pub open spec fn no_double_hyphen(s: Seq<char>) -> bool {
    forall|i: int| 0 <= i < s.len() - 1 ==> !(#[trigger] s[i] == '-' && s[i + 1] == '-')
}

/// A well-shaped localpart: only alias characters, no two hyphens in a row.
pub open spec fn well_shaped(s: Seq<char>) -> bool {
    all_alias_chars(s) && no_double_hyphen(s)
}

proof fn lemma_alias_chars_shape(s: Seq<char>)
    ensures
        well_shaped(alias_chars(s)),
    decreases s.len(),
{
    if s.len() > 0 {
        lemma_alias_chars_shape(s.drop_last());
        let acc = alias_chars(s.drop_last());
        let c = s.last();
        let r = alias_step(acc, c);
        assert forall|i: int| 0 <= i < r.len() implies is_alias_char(#[trigger] r[i]) by {
            if i < acc.len() {
                assert(r[i] == acc[i]);
            }
        }
        assert forall|i: int| 0 <= i < r.len() - 1 implies !(#[trigger] r[i] == '-' && r[i + 1]
            == '-') by {
            if i + 1 < acc.len() {
                assert(r[i] == acc[i] && r[i + 1] == acc[i + 1]);
            } else if r.len() > acc.len() {
                assert(r[i] == acc[i]);
            }
        }
    }
}

proof fn lemma_shape_subrange(s: Seq<char>, a: int, b: int)
    requires
        well_shaped(s),
        0 <= a <= b <= s.len(),
    ensures
        well_shaped(s.subrange(a, b)),
{
    let t = s.subrange(a, b);
    assert forall|i: int| 0 <= i < t.len() implies is_alias_char(#[trigger] t[i]) by {
        assert(t[i] == s[a + i]);
    }
    assert forall|i: int| 0 <= i < t.len() - 1 implies !(#[trigger] t[i] == '-' && t[i + 1]
        == '-') by {
        assert(t[i] == s[a + i] && t[i + 1] == s[a + i + 1]);
    }
}

/// `trim_start` removes a prefix made of trimmed characters only.
proof fn lemma_trim_start_is_suffix(x: Seq<char>)
    ensures
        exists|st: int|
            0 <= st <= x.len() && trim_start(x) == x.skip(st) && (st == x.len() || !is_trimmed(
                x[st],
            )),
    decreases x.len(),
{
    if x.len() > 0 && is_trimmed(x[0]) {
        lemma_trim_start_is_suffix(x.drop_first());
        let st = choose|st: int|
            0 <= st <= x.drop_first().len() && trim_start(x.drop_first()) == x.drop_first().skip(st)
                && (st == x.drop_first().len() || !is_trimmed(x.drop_first()[st]));
        assert(x.drop_first().skip(st) =~= x.skip(st + 1));
        if st < x.drop_first().len() {
            assert(x.drop_first()[st] == x[st + 1]);
        }
    } else {
        assert(x.skip(0) =~= x);
    }
}

/// `trim_end` removes a suffix made of trimmed characters only.
proof fn lemma_trim_end_is_prefix(x: Seq<char>)
    ensures
        exists|en: int|
            0 <= en <= x.len() && trim_end(x) == x.take(en) && (en == 0 || !is_trimmed(x[en - 1])),
    decreases x.len(),
{
    if x.len() > 0 && is_trimmed(x.last()) {
        lemma_trim_end_is_prefix(x.drop_last());
        let en = choose|en: int|
            0 <= en <= x.drop_last().len() && trim_end(x.drop_last()) == x.drop_last().take(en)
                && (en == 0 || !is_trimmed(x.drop_last()[en - 1]));
        assert(x.drop_last().take(en) =~= x.take(en));
        if en > 0 {
            assert(x.drop_last()[en - 1] == x[en - 1]);
        }
    } else {
        assert(x.take(x.len() as int) =~= x);
    }
}

/// What every derived alias localpart looks like: at most 255 characters,
/// only characters of `[a-z0-9._=-]`, never two hyphens in a row, and no
/// hyphen or dot at either end.
pub proof fn lemma_alias_shape(name: Seq<char>)
    ensures
        alias_of(name).len() <= 255,
        well_shaped(alias_of(name)),
        alias_of(name).len() > 0 ==> !is_trimmed(alias_of(name)[0]),
        alias_of(name).len() > 0 ==> !is_trimmed(alias_of(name).last()),
{
    let a = alias_chars(name);
    lemma_alias_chars_shape(name);
    let m = cut_alias(a);
    if a.len() > 255 {
        assert(m =~= a.subrange(0, 255));
        lemma_shape_subrange(a, 0, 255);
    }
    lemma_trim_start_is_suffix(m);
    let st = choose|st: int|
        0 <= st <= m.len() && trim_start(m) == m.skip(st) && (st == m.len() || !is_trimmed(m[st]));
    let y = trim_start(m);
    lemma_trim_end_is_prefix(y);
    let en = choose|en: int|
        0 <= en <= y.len() && trim_end(y) == y.take(en) && (en == 0 || !is_trimmed(y[en - 1]));
    let t = trim_end(y);
    assert(t =~= m.subrange(st, st + en));
    lemma_shape_subrange(m, st, st + en);
    if t.len() > 0 {
        assert(t[0] == m[st]);
        assert(t.last() == y[en - 1]);
    }
}

} // verus!

verus! {

proof fn lemma_alias_chars_fixed(s: Seq<char>)
    requires
        well_shaped(s),
    ensures
        alias_chars(s) == s,
    decreases s.len(),
{
    if s.len() > 0 {
        let p = s.drop_last();
        lemma_shape_subrange(s, 0, s.len() - 1);
        assert(p =~= s.subrange(0, s.len() - 1));
        lemma_alias_chars_fixed(p);
        let c = s.last();
        assert(is_alias_char(s[s.len() - 1]));
        if c == '-' && ends_with_hyphen(p) {
            assert(s[s.len() - 2] == '-' && s[s.len() - 1] == '-');
        }
        assert(alias_step(p, c) =~= s);
    }
}

/// Deriving a localpart from a derived localpart gives it back.
pub proof fn lemma_alias_idempotent(name: Seq<char>)
    ensures
        alias_of(alias_of(name)) == alias_of(name),
{
    let a = alias_of(name);
    lemma_alias_shape(name);
    lemma_alias_chars_fixed(a);
    assert(cut_alias(a) == a);
    assert(trim_start(a) == a);
    assert(trim_end(a) == a);
}

} // verus!

verus! {

/// Public room metadata.
#[derive(Clone, Debug)]
pub struct RoomInfo {
    pub room_id: String,
    pub name: Option<String>,
    pub alias: Option<String>,
    pub member_count: u64,
    pub encrypted: bool,
    pub is_home: bool,
    pub state: RoomState,
}

/// Whether `r` is the room that `home` names.
pub open spec fn is_home_id(r: RoomInfo, home: Option<String>) -> bool {
    home matches Some(h) && h@ == r.room_id@
}

/// `r` as listed under `state`, flagged as home when `home` names it.
pub open spec fn placed(r: RoomInfo, state: RoomState, home: Option<String>) -> RoomInfo {
    RoomInfo {
        room_id: r.room_id,
        name: r.name,
        alias: r.alias,
        member_count: r.member_count,
        encrypted: r.encrypted,
        is_home: r.is_home || is_home_id(r, home),
        state: state,
    }
}

pub open spec fn placed_all(s: Seq<RoomInfo>, state: RoomState, home: Option<String>) -> Seq<
    RoomInfo,
> {
    s.map_values(|r: RoomInfo| placed(r, state, home))
}

/// The room list: joined rooms, then invited rooms, then left rooms, each
/// with its membership state, the home room flagged.
pub open spec fn room_list(
    joined: Seq<RoomInfo>,
    invited: Seq<RoomInfo>,
    left: Seq<RoomInfo>,
    home: Option<String>,
) -> Seq<RoomInfo> {
    placed_all(joined, RoomState::Joined, home) + placed_all(invited, RoomState::Invited, home)
        + placed_all(left, RoomState::Left, home)
}

/// Sets the state of every room of `rooms` and flags the one `home` names.
fn place_rooms(rooms: &mut Vec<RoomInfo>, state: RoomState, home: &Option<String>)
    ensures
        final(rooms)@ == placed_all(old(rooms)@, state, *home),
{
    let ghost orig = rooms@;
    let mut i: usize = 0;
    while i < rooms.len()
        invariant
            i <= rooms@.len(),
            rooms@.len() == orig.len(),
            forall|j: int| 0 <= j < i ==> rooms@[j] == placed(orig[j], state, *home),
            forall|j: int| i <= j < rooms@.len() ==> rooms@[j] == orig[j],
        decreases rooms@.len() - i,
    {
        let matches = match home {
            Some(h) => rooms[i].room_id == *h,
            None => false,
        };
        rooms[i].state = state;
        if matches {
            rooms[i].is_home = true;
        }
        i = i + 1;
    }
    assert(rooms@ =~= placed_all(orig, state, *home));
}

/// Builds the room list of a session from its joined, invited and left
/// rooms, flagging the pinned home room.
pub fn assemble_room_list(
    joined: Vec<RoomInfo>,
    invited: Vec<RoomInfo>,
    left: Vec<RoomInfo>,
    home_room_id: &Option<String>,
) -> (rooms: Vec<RoomInfo>)
    ensures
        rooms@ == room_list(joined@, invited@, left@, *home_room_id),
{
    let mut all = joined;
    place_rooms(&mut all, RoomState::Joined, home_room_id);
    let mut inv = invited;
    place_rooms(&mut inv, RoomState::Invited, home_room_id);
    let mut lft = left;
    place_rooms(&mut lft, RoomState::Left, home_room_id);
    all.append(&mut inv);
    all.append(&mut lft);
    all
}

} // verus!

verus! {

/// The first room of `s` whose id is `id`.
pub open spec fn find_room(s: Seq<RoomInfo>, id: Seq<char>) -> Option<RoomInfo>
    decreases s.len(),
{
    if s.len() == 0 {
        None
    } else if s[0].room_id@ == id {
        Some(s[0])
    } else {
        find_room(s.drop_first(), id)
    }
}

/// The pinned home room: looked up among the joined rooms first, then the
/// invited rooms, then the left rooms; flagged as home, with the state of
/// the group it was found in.
pub open spec fn home_room(
    joined: Seq<RoomInfo>,
    invited: Seq<RoomInfo>,
    left: Seq<RoomInfo>,
    home: Option<String>,
) -> Option<RoomInfo> {
    match home {
        None => None,
        Some(h) => match find_room(joined, h@) {
            Some(r) => Some(placed(r, RoomState::Joined, home)),
            None => match find_room(invited, h@) {
                Some(r) => Some(placed(r, RoomState::Invited, home)),
                None => match find_room(left, h@) {
                    Some(r) => Some(placed(r, RoomState::Left, home)),
                    None => None,
                },
            },
        },
    }
}

/// The cached info of the pinned room, used when the session lists it in
/// none of its groups: flagged as home, in state `Left` (the session is
/// neither joined to nor invited into it). `None` when nothing is pinned or
/// the cache is of another room.
pub open spec fn cached_home(home: Option<String>, cached: Option<RoomInfo>) -> Option<RoomInfo> {
    match (home, cached) {
        (Some(h), Some(c)) => if c.room_id@ == h@ {
            Some(
                RoomInfo {
                    room_id: c.room_id,
                    name: c.name,
                    alias: c.alias,
                    member_count: c.member_count,
                    encrypted: c.encrypted,
                    is_home: true,
                    state: RoomState::Left,
                },
            )
        } else {
            None
        },
        _ => None,
    }
}

/// The pinned home room as reported: found among the session's rooms, or
/// else from the cached info.
pub open spec fn reported_home_room(
    joined: Seq<RoomInfo>,
    invited: Seq<RoomInfo>,
    left: Seq<RoomInfo>,
    home: Option<String>,
    cached: Option<RoomInfo>,
) -> Option<RoomInfo> {
    match home_room(joined, invited, left, home) {
        Some(r) => Some(r),
        None => cached_home(home, cached),
    }
}

/// The index of the first room of `rooms` whose id is `id`.
fn position_of(rooms: &Vec<RoomInfo>, id: &String) -> (idx: Option<usize>)
    ensures
        match idx {
            Some(k) => k < rooms@.len() && rooms@[k as int].room_id@ == id@ && find_room(rooms@, id@)
                == Some(rooms@[k as int]),
            None => find_room(rooms@, id@) is None,
        },
{
    let mut k: usize = 0;
    assert(rooms@.skip(0) =~= rooms@);
    while k < rooms.len()
        invariant
            k <= rooms@.len(),
            find_room(rooms@, id@) == find_room(rooms@.skip(k as int), id@),
        decreases rooms@.len() - k,
    {
        if rooms[k].room_id == *id {
            assert(rooms@.skip(k as int)[0] == rooms@[k as int]);
            return Some(k);
        }
        assert(rooms@.skip(k as int).drop_first() =~= rooms@.skip(k + 1));
        k = k + 1;
    }
    None
}

/// Takes room `k` out of `rooms`, listed under `state` and flagged as home.
fn take_as_home(rooms: Vec<RoomInfo>, k: usize, state: RoomState, home: &Option<String>) -> (r:
    RoomInfo)
    requires
        k < rooms@.len(),
        is_home_id(rooms@[k as int], *home),
    ensures
        r == placed(rooms@[k as int], state, *home),
{
    let mut rooms = rooms;
    let mut r = rooms.swap_remove(k);
    r.state = state;
    r.is_home = true;
    r
}

/// Looks up the pinned home room among a session's rooms (joined first,
/// then invited, then left); when it is in none of them, reports the cached
/// info of the pinned room (`cached`, kept from when it was pinned) as
/// left. `None` when no room is pinned, or the pinned room is unknown and
/// not cached.
pub fn select_home_room(
    joined: Vec<RoomInfo>,
    invited: Vec<RoomInfo>,
    left: Vec<RoomInfo>,
    home_room_id: &Option<String>,
    cached: Option<RoomInfo>,
) -> (room: Option<RoomInfo>)
    ensures
        room == reported_home_room(joined@, invited@, left@, *home_room_id, cached),
{
    match home_room_id {
        None => None,
        Some(h) => {
            match position_of(&joined, h) {
                Some(k) => {
                    return Some(take_as_home(joined, k, RoomState::Joined, home_room_id));
                },
                None => {},
            }
            match position_of(&invited, h) {
                Some(k) => {
                    return Some(take_as_home(invited, k, RoomState::Invited, home_room_id));
                },
                None => {},
            }
            match position_of(&left, h) {
                Some(k) => {
                    return Some(take_as_home(left, k, RoomState::Left, home_room_id));
                },
                None => {},
            }
            match cached {
                Some(c) => {
                    if c.room_id == *h {
                        let mut r = c;
                        r.is_home = true;
                        r.state = RoomState::Left;
                        Some(r)
                    } else {
                        None
                    }
                },
                None => None,
            }
        },
    }
}

} // verus!

verus! {

/// No two rooms of `s` share an id.
pub open spec fn distinct_ids(s: Seq<RoomInfo>) -> bool {
    forall|a: int, b: int|
        0 <= a < s.len() && 0 <= b < s.len() && a != b ==> #[trigger] s[a].room_id@
            != #[trigger] s[b].room_id@
}

/// No room of `s` is flagged as home yet.
pub open spec fn none_flagged(s: Seq<RoomInfo>) -> bool {
    forall|k: int| 0 <= k < s.len() ==> !(#[trigger] s[k]).is_home
}

/// The first room of `s` flagged as home.
pub open spec fn first_flagged(s: Seq<RoomInfo>) -> Option<RoomInfo>
    decreases s.len(),
{
    if s.len() == 0 {
        None
    } else if s[0].is_home {
        Some(s[0])
    } else {
        first_flagged(s.drop_first())
    }
}

proof fn lemma_room_list_index(
    j: Seq<RoomInfo>,
    i: Seq<RoomInfo>,
    l: Seq<RoomInfo>,
    home: Option<String>,
    k: int,
)
    requires
        0 <= k < j.len() + i.len() + l.len(),
    ensures
        room_list(j, i, l, home).len() == j.len() + i.len() + l.len(),
        room_list(j, i, l, home)[k].room_id == (j + i + l)[k].room_id,
        room_list(j, i, l, home)[k].is_home == ((j + i + l)[k].is_home || is_home_id(
            (j + i + l)[k],
            home,
        )),
{
    let all = j + i + l;
    if k < j.len() {
        assert(all[k] == j[k]);
    } else if k < j.len() + i.len() {
        assert(all[k] == i[k - j.len()]);
    } else {
        assert(all[k] == l[k - j.len() - i.len()]);
    }
}

/// When room ids are distinct and nothing is flagged beforehand, the room
/// list flags at most one room as home.
pub proof fn lemma_at_most_one_home(
    joined: Seq<RoomInfo>,
    invited: Seq<RoomInfo>,
    left: Seq<RoomInfo>,
    home: Option<String>,
)
    requires
        distinct_ids(joined + invited + left),
        none_flagged(joined + invited + left),
    ensures
        forall|a: int, b: int|
            0 <= a < room_list(joined, invited, left, home).len() && 0 <= b < room_list(
                joined,
                invited,
                left,
                home,
            ).len() && (#[trigger] room_list(joined, invited, left, home)[a]).is_home && (
            #[trigger] room_list(joined, invited, left, home)[b]).is_home ==> a == b,
{
    let all = joined + invited + left;
    let rl = room_list(joined, invited, left, home);
    assert forall|a: int, b: int|
        0 <= a < rl.len() && 0 <= b < rl.len() && (#[trigger] rl[a]).is_home && (
        #[trigger] rl[b]).is_home implies a == b by {
        lemma_room_list_index(joined, invited, left, home, 0);
        lemma_room_list_index(joined, invited, left, home, a);
        lemma_room_list_index(joined, invited, left, home, b);
        assert(!all[a].is_home && !all[b].is_home);
        if a != b {
            assert(all[a].room_id@ != all[b].room_id@);
        }
    }
}

proof fn lemma_first_flagged_placed(
    s: Seq<RoomInfo>,
    state: RoomState,
    home: Option<String>,
    rest: Seq<RoomInfo>,
)
    requires
        none_flagged(s),
    ensures
        first_flagged(placed_all(s, state, home) + rest) == (match home {
            Some(h) => match find_room(s, h@) {
                Some(r) => Some(placed(r, state, home)),
                None => first_flagged(rest),
            },
            None => first_flagged(rest),
        }),
    decreases s.len(),
{
    let p = placed_all(s, state, home);
    if s.len() == 0 {
        assert(p + rest =~= rest);
    } else {
        let t = s.drop_first();
        assert(!s[0].is_home);
        assert(none_flagged(t)) by {
            assert forall|k: int| 0 <= k < t.len() implies !(#[trigger] t[k]).is_home by {
                assert(t[k] == s[k + 1]);
            }
        }
        lemma_first_flagged_placed(t, state, home, rest);
        assert((p + rest)[0] == placed(s[0], state, home));
        assert((p + rest).drop_first() =~= placed_all(t, state, home) + rest);
    }
}

/// Looking up the home room gives the first room that the room list flags
/// as home, and the cached info only when the list flags none, provided
/// nothing was flagged beforehand.
pub proof fn lemma_home_room_matches_list(
    joined: Seq<RoomInfo>,
    invited: Seq<RoomInfo>,
    left: Seq<RoomInfo>,
    home: Option<String>,
    cached: Option<RoomInfo>,
)
    requires
        none_flagged(joined),
        none_flagged(invited),
        none_flagged(left),
    ensures
        home_room(joined, invited, left, home) == first_flagged(
            room_list(joined, invited, left, home),
        ),
        reported_home_room(joined, invited, left, home, cached) == (match first_flagged(
            room_list(joined, invited, left, home),
        ) {
            Some(r) => Some(r),
            None => cached_home(home, cached),
        }),
{
    let pj = placed_all(joined, RoomState::Joined, home);
    let pi = placed_all(invited, RoomState::Invited, home);
    let pl = placed_all(left, RoomState::Left, home);
    assert(room_list(joined, invited, left, home) =~= pj + (pi + pl));
    assert(pl =~= pl + Seq::<RoomInfo>::empty());
    lemma_first_flagged_placed(left, RoomState::Left, home, Seq::empty());
    lemma_first_flagged_placed(invited, RoomState::Invited, home, pl);
    lemma_first_flagged_placed(joined, RoomState::Joined, home, pi + pl);
}

/// For rooms not flagged beforehand, the room list flags exactly the pinned
/// room: a room is flagged as home if and only if its id is the pinned id
/// (so none is flagged when nothing is pinned).
pub proof fn lemma_list_flags_exactly_pinned(
    joined: Seq<RoomInfo>,
    invited: Seq<RoomInfo>,
    left: Seq<RoomInfo>,
    home: Option<String>,
)
    requires
        none_flagged(joined + invited + left),
    ensures
        room_list(joined, invited, left, home).len() == joined.len() + invited.len() + left.len(),
        forall|k: int|
            0 <= k < room_list(joined, invited, left, home).len() ==> (#[trigger] room_list(
                joined,
                invited,
                left,
                home,
            )[k]).is_home == (home matches Some(h) && h@ == (joined + invited + left)[k].room_id@),
{
    let rl = room_list(joined, invited, left, home);
    let all = joined + invited + left;
    assert(rl.len() == all.len());
    assert forall|k: int| 0 <= k < rl.len() implies (#[trigger] rl[k]).is_home == (home matches Some(h)
        && h@ == all[k].room_id@) by {
        lemma_room_list_index(joined, invited, left, home, k);
        assert(!all[k].is_home);
    }
}

} // verus!

verus! {

// ── Family home room ──────────────────────────────────────────────────────

/// The longest family room name, in characters.
pub const MAX_FAMILY_ROOM_NAME_CHARS: usize = 255;

/// Why a family room name is refused, if it is.
pub open spec fn family_room_name_error(name: &str) -> Option<ErrorModel> {
    if name@.len() == 0 {
        Some(
            ErrorModel::OperationFailed {
                operation: "create_family_room"@,
                detail: "Room name must not be empty"@,
            },
        )
    } else if name@.len() > 255 {
        Some(
            ErrorModel::OperationFailed {
                operation: "create_family_room"@,
                detail: "Room name too long ("@ + decimal(name@.len()) + " chars, max 255)"@,
            },
        )
    } else {
        None
    }
}

/// Checks a family room name: not empty, at most 255 characters.
pub fn check_family_room_name(name: &str) -> (res: Result<(), ShadowLinkError>)
    ensures
        match family_room_name_error(name) {
            None => res is Ok,
            Some(m) => res matches Err(e) && e@ == m,
        },
{
    if name.is_empty() {
        return Err(ShadowLinkError::operation_failed("create_family_room", "Room name must not be empty"));
    }
    let n = chars_of(name).len();
    if n > MAX_FAMILY_ROOM_NAME_CHARS {
        let mut detail = "Room name too long (".to_owned();
        push_decimal(&mut detail, n as u64);
        detail.append(" chars, max 255)");
        return Err(ShadowLinkError::operation_failed("create_family_room", detail.as_str()));
    }
    Ok(())
}

/// A room-creation request: a private, invite-only chat with this name,
/// and, when present, this alias localpart.
pub struct CreateRoomRequest {
    pub name: String,
    pub alias_localpart: Option<String>,
}

/// The alias localpart that the first family room request carries: the
/// derived one, unless it is empty.
pub open spec fn first_request_alias(name: Seq<char>) -> Option<Seq<char>> {
    if alias_of(name).len() == 0 {
        None
    } else {
        Some(alias_of(name))
    }
}

/// Checks the name and builds the first request for a family room.
pub fn plan_family_room(name: &str) -> (res: Result<CreateRoomRequest, ShadowLinkError>)
    ensures
        match family_room_name_error(name) {
            Some(m) => res matches Err(e) && e@ == m,
            None => res matches Ok(req) && req.name@ == name@ && (match req.alias_localpart {
                Some(a) => first_request_alias(name@) == Some(a@),
                None => first_request_alias(name@) is None,
            }),
        },
{
    check_family_room_name(name)?;
    let alias = derive_alias_localpart(name);
    let alias_localpart = if alias.as_str().is_empty() {
        None
    } else {
        Some(alias)
    };
    Ok(CreateRoomRequest { name: name.to_owned(), alias_localpart })
}

/// What to do after a family room request failed.
pub enum FamilyRoomStep {
    /// Send this request next.
    Retry(CreateRoomRequest),
    /// Give up with this error.
    Fail(ShadowLinkError),
}

/// Whether the server's answer refuses only the alias of a room-creation
/// request: the alias is taken, malformed or reserved.
pub open spec fn is_alias_rejection(origin: ErrorOrigin) -> bool {
    origin == ErrorOrigin::Api(ApiErrorKind::RoomInUse) || origin == ErrorOrigin::Api(
        ApiErrorKind::InvalidParam,
    ) || origin == ErrorOrigin::Api(ApiErrorKind::Exclusive)
}

/// Decides what follows a failed family room request. A first request that
/// carried an alias is retried once, without the alias, when the server
/// refused only the alias (aliases are best-effort); every other failure
/// ends the creation.
pub fn family_room_after_failure(
    name: &str,
    retried: bool,
    had_alias: bool,
    origin: ErrorOrigin,
    detail: &str,
) -> (step: FamilyRoomStep)
    ensures
        !retried && had_alias && is_alias_rejection(origin) ==> (step matches FamilyRoomStep::Retry(req)
            && req.name@ == name@ && req.alias_localpart is None),
        !retried && !(had_alias && is_alias_rejection(origin)) ==> (step matches FamilyRoomStep::Fail(e)
            && e@ == (ErrorModel::OperationFailed {
            operation: "create_family_room"@,
            detail: detail@,
        })),
        retried ==> (step matches FamilyRoomStep::Fail(e) && e@ == (ErrorModel::OperationFailed {
            operation: "create_family_room"@,
            detail: "Room creation failed (with and without alias): "@ + detail@,
        })),
{
    if retried {
        return FamilyRoomStep::Fail(
            ShadowLinkError::operation_failed_with(
                "create_family_room",
                "Room creation failed (with and without alias): ",
                detail,
            ),
        );
    }
    let alias_refused = match origin {
        ErrorOrigin::Api(ApiErrorKind::RoomInUse) => true,
        ErrorOrigin::Api(ApiErrorKind::InvalidParam) => true,
        ErrorOrigin::Api(ApiErrorKind::Exclusive) => true,
        _ => false,
    };
    if had_alias && alias_refused {
        FamilyRoomStep::Retry(CreateRoomRequest { name: name.to_owned(), alias_localpart: None })
    } else {
        FamilyRoomStep::Fail(ShadowLinkError::operation_failed("create_family_room", detail))
    }
}

/// `info` reported as a room the session just created: joined, encrypted
/// (E2EE is enabled on creation), not the home room.
pub fn created_room(info: RoomInfo) -> (r: RoomInfo)
    ensures
        r == (RoomInfo { encrypted: true, is_home: false, state: RoomState::Joined, ..info }),
{
    let mut r = info;
    r.encrypted = true;
    r.is_home = false;
    r.state = RoomState::Joined;
    r
}

/// `info` reported as the pinned family home room: joined, encrypted, home.
pub fn pinned_home(info: RoomInfo) -> (r: RoomInfo)
    ensures
        r == (RoomInfo { encrypted: true, is_home: true, state: RoomState::Joined, ..info }),
{
    let mut r = info;
    r.encrypted = true;
    r.is_home = true;
    r.state = RoomState::Joined;
    r
}

} // verus!

verus! {

/// The error of a failed join (accepting an invitation): an answer of the
/// server fails the operation; no answer means the connection failed.
pub fn join_error(origin: ErrorOrigin, detail: &str) -> (e: ShadowLinkError)
    ensures
        origin is Api ==> e@ == (ErrorModel::OperationFailed { operation: "accept_invite"@, detail: detail@ }),
        origin is Transport ==> e@ == (ErrorModel::ConnectionFailed { reason: detail@ }),
{
    match origin {
        ErrorOrigin::Api(_) => ShadowLinkError::operation_failed("accept_invite", detail),
        ErrorOrigin::Transport => ShadowLinkError::ConnectionFailed { reason: detail.to_owned() },
    }
}

/// The error when E2EE cannot be enabled on a room being pinned as home.
pub fn pin_encryption_error(detail: &str) -> (e: ShadowLinkError)
    ensures
        e@ == (ErrorModel::OperationFailed {
            operation: "set_home_room"@,
            detail: "Failed to enable encryption: "@ + detail@,
        }),
{
    ShadowLinkError::operation_failed_with("set_home_room", "Failed to enable encryption: ", detail)
}

} // verus!

verus! {

/// Whether a room may be pinned as home: only a room the session has
/// joined; an invited or left room is one the session is not a member of.
pub fn check_pin_membership(room_id: &str, state: RoomState) -> (res: Result<(), ShadowLinkError>)
    ensures
        state == RoomState::Joined ==> res is Ok,
        state != RoomState::Joined ==> (res matches Err(e) && e@ == (ErrorModel::NotInRoom { room_id: room_id@ })),
{
    match state {
        RoomState::Joined => Ok(()),
        _ => Err(ShadowLinkError::not_in_room(room_id)),
    }
}

} // verus!

verus! {

proof fn lemma_find_room_id(s: Seq<RoomInfo>, id: Seq<char>)
    ensures
        find_room(s, id) matches Some(r) ==> r.room_id@ == id,
    decreases s.len(),
{
    if s.len() > 0 && s[0].room_id@ != id {
        lemma_find_room_id(s.drop_first(), id);
    }
}

/// Once a room is pinned (its id persisted, its info cached), the home-room
/// lookup reports that room, flagged as home, whatever rooms the session
/// lists.
pub proof fn lemma_pinned_room_is_reported(
    joined: Seq<RoomInfo>,
    invited: Seq<RoomInfo>,
    left: Seq<RoomInfo>,
    pinned: RoomInfo,
)
    ensures
        reported_home_room(joined, invited, left, Some(pinned.room_id), Some(pinned)) matches Some(x)
            && x.room_id@ == pinned.room_id@ && x.is_home,
{
    let id = pinned.room_id@;
    lemma_find_room_id(joined, id);
    lemma_find_room_id(invited, id);
    lemma_find_room_id(left, id);
}

} // verus!

verus! {

// ── Laws of the alias mapping ─────────────────────────────────────────────

/// Characters that the alias derivation reads as something: ASCII letters
/// and digits, `.`, `_`, `=`, `-` and the space.
pub open spec fn is_alias_input(c: char) -> bool {
    ('A' <= c && c <= 'Z') || ('a' <= c && c <= 'z') || ('0' <= c && c <= '9') || c == '.' || c
        == '_' || c == '=' || c == '-' || c == ' '
}

/// The mapping continued from `acc` over the characters of `t`.
spec fn alias_from(acc: Seq<char>, t: Seq<char>) -> Seq<char>
    decreases t.len(),
{
    if t.len() == 0 {
        acc
    } else {
        alias_step(alias_from(acc, t.drop_last()), t.last())
    }
}

proof fn lemma_alias_from_concat(acc: Seq<char>, s: Seq<char>, t: Seq<char>)
    ensures
        alias_from(acc, s + t) == alias_from(alias_from(acc, s), t),
    decreases t.len(),
{
    if t.len() == 0 {
        assert(s + t =~= s);
    } else {
        assert((s + t).drop_last() =~= s + t.drop_last());
        assert((s + t).last() == t.last());
        lemma_alias_from_concat(acc, s, t.drop_last());
    }
}

proof fn lemma_alias_chars_is_from_empty(s: Seq<char>)
    ensures
        alias_chars(s) == alias_from(Seq::empty(), s),
    decreases s.len(),
{
    if s.len() > 0 {
        lemma_alias_chars_is_from_empty(s.drop_last());
    }
}

proof fn lemma_alias_chars_split(p: Seq<char>, m: Seq<char>, q: Seq<char>)
    ensures
        alias_chars(p + m + q) == alias_from(alias_from(alias_chars(p), m), q),
{
    lemma_alias_chars_is_from_empty(p + m + q);
    lemma_alias_chars_is_from_empty(p);
    lemma_alias_from_concat(Seq::empty(), p + m, q);
    lemma_alias_from_concat(Seq::empty(), p, m);
}

proof fn lemma_alias_from_single(acc: Seq<char>, c: char)
    ensures
        alias_from(acc, seq![c]) == alias_step(acc, c),
{
    let t = seq![c];
    assert(t.drop_last() =~= Seq::<char>::empty());
    assert(alias_from(acc, t.drop_last()) == acc);
    assert(t.last() == c);
    assert(alias_from(acc, t) == alias_step(alias_from(acc, t.drop_last()), t.last()));
}

/// A character that is neither an ASCII letter or digit, nor `.`, `_`,
/// `=`, `-` or a space, is dropped: inserting it anywhere in a name leaves
/// the derived alias unchanged.
pub proof fn lemma_alias_ignores_other_chars(p: Seq<char>, c: char, q: Seq<char>)
    requires
        !is_alias_input(c),
    ensures
        alias_of(p + seq![c] + q) == alias_of(p + q),
{
    lemma_alias_chars_split(p, seq![c], q);
    lemma_alias_chars_split(p, Seq::empty(), q);
    lemma_alias_from_single(alias_chars(p), c);
    assert(alias_from(alias_chars(p), Seq::<char>::empty()) == alias_chars(p));
    assert(p + Seq::<char>::empty() + q =~= p + q);
}

/// A space and a hyphen are read alike: swapping one for the other anywhere
/// in a name leaves the derived alias unchanged.
pub proof fn lemma_alias_space_is_hyphen(p: Seq<char>, q: Seq<char>)
    ensures
        alias_of(p + seq![' '] + q) == alias_of(p + seq!['-'] + q),
{
    lemma_alias_chars_split(p, seq![' '], q);
    lemma_alias_chars_split(p, seq!['-'], q);
    lemma_alias_from_single(alias_chars(p), ' ');
    lemma_alias_from_single(alias_chars(p), '-');
}

/// An uppercase ASCII letter is read as its lowercase counterpart (the
/// letter 32 code points further).
pub proof fn lemma_alias_case_insensitive(p: Seq<char>, c: char, q: Seq<char>)
    requires
        'A' <= c && c <= 'Z',
    ensures
        alias_of(p + seq![c] + q) == alias_of(p + seq![((c as u32) + 32) as char] + q),
{
    let d = ((c as u32) + 32) as char;
    assert('a' <= d && d <= 'z');
    lemma_alias_chars_split(p, seq![c], q);
    lemma_alias_chars_split(p, seq![d], q);
    lemma_alias_from_single(alias_chars(p), c);
    lemma_alias_from_single(alias_chars(p), d);
}

/// A run of hyphens and spaces reads as one hyphen: doubling a hyphen
/// anywhere in a name leaves the derived alias unchanged.
pub proof fn lemma_alias_collapses_hyphens(p: Seq<char>, q: Seq<char>)
    ensures
        alias_of(p + seq!['-', '-'] + q) == alias_of(p + seq!['-'] + q),
{
    lemma_alias_chars_split(p, seq!['-', '-'], q);
    lemma_alias_chars_split(p, seq!['-'], q);
    let a = alias_chars(p);
    lemma_alias_from_single(a, '-');
    assert(seq!['-', '-'].drop_last() =~= seq!['-']);
    assert(alias_from(a, seq!['-', '-']) == alias_step(alias_from(a, seq!['-']), '-'));
}

/// Digits, lowercase letters, `.`, `_` and `=` are kept: a name made of
/// them alone, at most 255 characters long and neither starting nor ending
/// with `.`, is its own alias.
pub proof fn lemma_alias_keeps_plain_names(name: Seq<char>)
    requires
        name.len() <= 255,
        forall|i: int| 0 <= i < name.len() ==> is_kept(#[trigger] name[i]),
        name.len() > 0 ==> name[0] != '.' && name.last() != '.',
    ensures
        alias_of(name) == name,
{
    assert(well_shaped(name));
    lemma_alias_chars_fixed(name);
    assert(cut_alias(name) == name);
    assert(trim_start(name) == name);
    assert(trim_end(name) == name);
}

} // verus!

verus! {

// ── What the room list and the home lookup keep of each room ──────────────

/// `x` carries the id, name, alias, member count and encryption state of `r`.
pub open spec fn keeps_info(x: RoomInfo, r: RoomInfo) -> bool {
    x.room_id == r.room_id && x.name == r.name && x.alias == r.alias && x.member_count
        == r.member_count && x.encrypted == r.encrypted
}

/// The membership group of position `k` of `joined + invited + left`.
pub open spec fn group_at(joined: Seq<RoomInfo>, invited: Seq<RoomInfo>, k: int) -> RoomState {
    if k < joined.len() {
        RoomState::Joined
    } else if k < joined.len() + invited.len() {
        RoomState::Invited
    } else {
        RoomState::Left
    }
}

/// Each room of the list is the input room at the same position (joined,
/// then invited, then left) with its id, name, alias, member count and
/// encryption state kept, the state of its group, and flagged as home when
/// it was flagged already or its id is the pinned one.
pub proof fn lemma_room_list_keeps_rooms(
    joined: Seq<RoomInfo>,
    invited: Seq<RoomInfo>,
    left: Seq<RoomInfo>,
    home: Option<String>,
)
    ensures
        room_list(joined, invited, left, home).len() == joined.len() + invited.len() + left.len(),
        forall|k: int|
            0 <= k < joined.len() + invited.len() + left.len() ==> {
                let x = #[trigger] room_list(joined, invited, left, home)[k];
                let r = (joined + invited + left)[k];
                &&& keeps_info(x, r)
                &&& x.state == group_at(joined, invited, k)
                &&& x.is_home == (r.is_home || (home matches Some(h) && h@ == r.room_id@))
            },
{
    let all = joined + invited + left;
    let rl = room_list(joined, invited, left, home);
    assert(rl.len() == all.len());
    assert forall|k: int| 0 <= k < all.len() implies {
        let x = #[trigger] rl[k];
        let r = all[k];
        &&& keeps_info(x, r)
        &&& x.state == group_at(joined, invited, k)
        &&& x.is_home == (r.is_home || (home matches Some(h) && h@ == r.room_id@))
    } by {
        if k < joined.len() {
            assert(all[k] == joined[k]);
            assert(rl[k] == placed(joined[k], RoomState::Joined, home));
        } else if k < joined.len() + invited.len() {
            assert(all[k] == invited[k - joined.len()]);
            assert(rl[k] == placed(invited[k - joined.len()], RoomState::Invited, home));
        } else {
            assert(all[k] == left[k - joined.len() - invited.len()]);
            assert(rl[k] == placed(left[k - joined.len() - invited.len()], RoomState::Left, home));
        }
    }
}

proof fn lemma_find_room_index(s: Seq<RoomInfo>, id: Seq<char>)
    ensures
        find_room(s, id) matches Some(r) ==> exists|k: int|
            0 <= k < s.len() && #[trigger] s[k] == r && r.room_id@ == id,
        find_room(s, id) is None ==> forall|k: int| 0 <= k < s.len() ==> (#[trigger] s[k]).room_id@ != id,
    decreases s.len(),
{
    if s.len() > 0 {
        if s[0].room_id@ != id {
            let t = s.drop_first();
            lemma_find_room_index(t, id);
            if let Some(r) = find_room(t, id) {
                let k = choose|k: int| 0 <= k < t.len() && #[trigger] t[k] == r && r.room_id@ == id;
                assert(s[k + 1] == r);
            } else {
                assert forall|k: int| 0 <= k < s.len() implies (#[trigger] s[k]).room_id@ != id by {
                    if k > 0 {
                        assert(s[k] == t[k - 1]);
                    }
                }
            }
        } else {
            assert(s[0] == s[0]);
        }
    }
}

/// The home room that the lookup reports is flagged as home and has the
/// pinned id. It is an input room with that id, with its id, name, alias,
/// member count and encryption state kept and the state of its group; or,
/// when no input room has that id, the cached room with those fields kept,
/// in state `Left`. Nothing is reported when nothing is pinned, or when no
/// input room and no cached room has the pinned id.
pub proof fn lemma_reported_home_keeps_room(
    joined: Seq<RoomInfo>,
    invited: Seq<RoomInfo>,
    left: Seq<RoomInfo>,
    home: Option<String>,
    cached: Option<RoomInfo>,
)
    ensures
        reported_home_room(joined, invited, left, home, cached) matches Some(x) ==> {
            &&& x.is_home
            &&& home matches Some(h) && x.room_id@ == h@
            &&& (exists|k: int|
                0 <= k < joined.len() + invited.len() + left.len() && keeps_info(
                    x,
                    #[trigger] (joined + invited + left)[k],
                ) && x.state == group_at(joined, invited, k)) || (cached matches Some(c)
                && keeps_info(x, c) && x.state == RoomState::Left && forall|k: int|
                0 <= k < joined.len() + invited.len() + left.len() ==> (#[trigger] (joined
                + invited + left)[k]).room_id != x.room_id)
        },
        reported_home_room(joined, invited, left, home, cached) is None ==> (home matches Some(h)
            ==> {
            &&& forall|k: int|
                0 <= k < joined.len() + invited.len() + left.len() ==> (#[trigger] (joined
                + invited + left)[k]).room_id@ != h@
            &&& !(cached matches Some(c) && c.room_id@ == h@)
        }),
{
    let all = joined + invited + left;
    let nj = joined.len();
    let ni = invited.len();
    if let Some(h) = home {
        let id = h@;
        lemma_find_room_index(joined, id);
        lemma_find_room_index(invited, id);
        lemma_find_room_index(left, id);
        if let Some(r) = find_room(joined, id) {
            let k = choose|k: int| 0 <= k < joined.len() && #[trigger] joined[k] == r && r.room_id@
                == id;
            assert(all[k] == joined[k]);
            assert(keeps_info(placed(r, RoomState::Joined, home), all[k]));
        } else if let Some(r) = find_room(invited, id) {
            let k = choose|k: int| 0 <= k < invited.len() && #[trigger] invited[k] == r
                && r.room_id@ == id;
            assert(all[nj + k] == invited[k]);
            assert(keeps_info(placed(r, RoomState::Invited, home), all[nj + k]));
        } else if let Some(r) = find_room(left, id) {
            let k = choose|k: int| 0 <= k < left.len() && #[trigger] left[k] == r && r.room_id@
                == id;
            assert(all[nj + ni + k] == left[k]);
            assert(keeps_info(placed(r, RoomState::Left, home), all[nj + ni + k]));
        } else {
            assert forall|k: int| 0 <= k < all.len() implies (#[trigger] all[k]).room_id@ != id by {
                if k < nj {
                    assert(all[k] == joined[k]);
                } else if k < nj + ni {
                    assert(all[k] == invited[k - nj]);
                } else {
                    assert(all[k] == left[k - nj - ni]);
                }
            }
        }
    }
}

} // verus!
