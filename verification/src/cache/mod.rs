//! In-memory cache updated in real time by gateway events.
//!
//! The cache is **never** proactively fetched — it is populated and
//! maintained exclusively by gateway dispatch events.  Call
//! [`Cache::update`] with every [`DispatchEvent`] **before** firing user
//! event handlers.
//!
//! Every map is a [`DashMap`], as in a cache shared across tasks; here the
//! cache is updated through `&mut`, so callers that share it put it behind
//! a lock.

use dashmap::DashMap;
use vstd::prelude::*;
use crate::gateway::events::{DispatchEvent, VoiceStateUpdateData};
use crate::models::channel::{Channel, lemma_channel_same_refl};
use crate::models::emoji::Emoji;
use crate::models::guild::{Guild, lemma_guild_same_refl};
use crate::models::member::Member;
use crate::models::role::Role;
use crate::models::sticker::Sticker;
use crate::models::user::User;
use crate::snowflake::Snowflake;
use crate::text::{decimal, push_decimal};

verus! {

/// The concurrent hash map of the `dashmap` crate.
#[verifier::external_type_specification]
#[verifier::external_body]
#[verifier::reject_recursive_types(K)]
#[verifier::reject_recursive_types(V)]
#[verifier::reject_recursive_types(S)]
pub struct ExDashMap<K, V, S>(DashMap<K, V, S>);

/// Whether a key scoped to a guild (guild ID first) is of another guild.
pub fn outside_guild(k: &(u64, u64), guild: u64) -> (r: bool)
    ensures
        r == (k.0 != guild),
{
    k.0 != guild
}

/// Whether a channel belongs to guild `guild`.
pub open spec fn channel_in_guild(ch: Channel, guild: u64) -> bool {
    ch.guild_id matches Some(g) && g@ == guild
}

/// Whether a channel is outside guild `guild`.
pub fn channel_outside_guild(ch: &Channel, guild: u64) -> (r: bool)
    ensures
        r == !channel_in_guild(*ch, guild),
{
    match ch.guild_id {
        Some(g) => g.get() != guild,
        None => true,
    }
}

/// The the current user a map holds, by key.
pub uninterp spec fn current_user_held(m: DashMap<(), User>) -> Map<(), User>;

/// `DashMap::new` for the current user: an empty map.
#[verifier::external_body]
fn current_user_new() -> (r: DashMap<(), User>)
    ensures
        current_user_held(r).dom().is_empty(),
{
    DashMap::new()
}

/// `DashMap::insert` on the current user: the key now holds the value (any
/// earlier value is dropped), every other key is unchanged.
#[verifier::external_body]
fn current_user_insert(m: &mut DashMap<(), User>, k: (), v: User)
    ensures
        current_user_held(*final(m)) == current_user_held(*old(m)).insert(k, v),
{
    m.insert(k, v);
}

/// `DashMap::get` on the current user, with the value cloned out: a value comes
/// back exactly when the key holds one, and it is what `Clone::clone`
/// gives on the stored value.
#[verifier::external_body]
fn current_user_get(m: &DashMap<(), User>, k: &()) -> (r: Option<User>)
    ensures
        r is Some <==> current_user_held(*m).contains_key(*k),
        r matches Some(v) ==> cloned::<User>(current_user_held(*m)[*k], v),
{
    m.get(k).map(|e| e.value().clone())
}

/// The guilds a map holds, by key.
pub uninterp spec fn guilds_held(m: DashMap<u64, Guild>) -> Map<u64, Guild>;

/// `DashMap::new` for guilds: an empty map.
#[verifier::external_body]
fn guilds_new() -> (r: DashMap<u64, Guild>)
    ensures
        guilds_held(r).dom().is_empty(),
{
    DashMap::new()
}

/// `DashMap::insert` on the guilds: the key now holds the value (any
/// earlier value is dropped), every other key is unchanged.
#[verifier::external_body]
fn guilds_insert(m: &mut DashMap<u64, Guild>, k: u64, v: Guild)
    ensures
        guilds_held(*final(m)) == guilds_held(*old(m)).insert(k, v),
{
    m.insert(k, v);
}

/// `DashMap::remove` on the guilds: the key holds nothing any more,
/// every other key is unchanged.
#[verifier::external_body]
fn guilds_remove(m: &mut DashMap<u64, Guild>, k: &u64)
    ensures
        guilds_held(*final(m)) == guilds_held(*old(m)).remove(*k),
{
    m.remove(k);
}

/// `DashMap::get` on the guilds, with the value cloned out: a value comes
/// back exactly when the key holds one, and it is what `Clone::clone`
/// gives on the stored value.
#[verifier::external_body]
fn guilds_get(m: &DashMap<u64, Guild>, k: &u64) -> (r: Option<Guild>)
    ensures
        r is Some <==> guilds_held(*m).contains_key(*k),
        r matches Some(v) ==> cloned::<Guild>(guilds_held(*m)[*k], v),
{
    m.get(k).map(|e| e.value().clone())
}

/// `DashMap::len` on the guilds: the number of keys held.
#[verifier::external_body]
fn guilds_len(m: &DashMap<u64, Guild>) -> (r: usize)
    ensures
        r == guilds_held(*m).len(),
{
    m.len()
}

/// The channels a map holds, by key.
pub uninterp spec fn channels_held(m: DashMap<u64, Channel>) -> Map<u64, Channel>;

/// `DashMap::new` for channels: an empty map.
#[verifier::external_body]
fn channels_new() -> (r: DashMap<u64, Channel>)
    ensures
        channels_held(r).dom().is_empty(),
{
    DashMap::new()
}

/// `DashMap::len` on the channels: the number of keys held.
#[verifier::external_body]
fn channels_len(m: &DashMap<u64, Channel>) -> (r: usize)
    ensures
        r == channels_held(*m).len(),
{
    m.len()
}

/// `DashMap::retain` on the channels, keeping the channels that are not in
/// guild `guild`: exactly those entries remain.
#[verifier::external_body]
fn channels_retain_other_guilds(m: &mut DashMap<u64, Channel>, guild: u64)
    ensures
        channels_held(*final(m)) == channels_held(*old(m)).restrict(
            channels_held(*old(m)).dom().filter(|k: u64| !channel_in_guild(channels_held(*old(m))[k], guild)),
        ),
{
    m.retain(|_, ch| channel_outside_guild(ch, guild));
}

/// `DashMap::get` on the channels, with the value cloned out: a value comes
/// back exactly when the key holds one, and it is what `Clone::clone`
/// gives on the stored value.
#[verifier::external_body]
fn channels_get(m: &DashMap<u64, Channel>, k: &u64) -> (r: Option<Channel>)
    ensures
        r is Some <==> channels_held(*m).contains_key(*k),
        r matches Some(v) ==> cloned::<Channel>(channels_held(*m)[*k], v),
{
    m.get(k).map(|e| e.value().clone())
}

/// The entries of the channels, collected from `DashMap::iter` in the order
/// it yields them (an order the contract leaves open): each key held
/// appears once, with what `Clone::clone` gives on its value, which keeps
/// the channel's guild.
#[verifier::external_body]
fn channels_entries(m: &DashMap<u64, Channel>) -> (r: Vec<(u64, Channel)>)
    ensures
        r@.map_values(|e: (u64, Channel)| e.0).no_duplicates(),
        r@.map_values(|e: (u64, Channel)| e.0).to_set() == channels_held(*m).dom(),
        forall|i: int| 0 <= i < r@.len() ==> (#[trigger] r@[i]).1.guild_id == channels_held(*m)[r@[i].0].guild_id,
        forall|i: int| 0 <= i < r@.len() ==> cloned(channels_held(*m)[#[trigger] r@[i].0], r@[i].1),
{
    m.iter().map(|e| (e.key().clone(), e.value().clone())).collect()
}

/// The users a map holds, by key.
pub uninterp spec fn users_held(m: DashMap<u64, User>) -> Map<u64, User>;

/// `DashMap::new` for users: an empty map.
#[verifier::external_body]
fn users_new() -> (r: DashMap<u64, User>)
    ensures
        users_held(r).dom().is_empty(),
{
    DashMap::new()
}

/// `DashMap::len` on the users: the number of keys held.
#[verifier::external_body]
fn users_len(m: &DashMap<u64, User>) -> (r: usize)
    ensures
        r == users_held(*m).len(),
{
    m.len()
}

/// `DashMap::insert` on the users: the key now holds the value (any
/// earlier value is dropped), every other key is unchanged.
#[verifier::external_body]
fn users_insert(m: &mut DashMap<u64, User>, k: u64, v: User)
    ensures
        users_held(*final(m)) == users_held(*old(m)).insert(k, v),
{
    m.insert(k, v);
}

/// `DashMap::get` on the users, with the value cloned out: a value comes
/// back exactly when the key holds one, and it is what `Clone::clone`
/// gives on the stored value.
#[verifier::external_body]
fn users_get(m: &DashMap<u64, User>, k: &u64) -> (r: Option<User>)
    ensures
        r is Some <==> users_held(*m).contains_key(*k),
        r matches Some(v) ==> cloned::<User>(users_held(*m)[*k], v),
{
    m.get(k).map(|e| e.value().clone())
}

/// The guild members a map holds, by key.
pub uninterp spec fn members_held(m: DashMap<(u64, u64), Member>) -> Map<(u64, u64), Member>;

/// `DashMap::new` for guild members: an empty map.
#[verifier::external_body]
fn members_new() -> (r: DashMap<(u64, u64), Member>)
    ensures
        members_held(r).dom().is_empty(),
{
    DashMap::new()
}

/// `DashMap::len` on the guild members: the number of keys held.
#[verifier::external_body]
fn members_len(m: &DashMap<(u64, u64), Member>) -> (r: usize)
    ensures
        r == members_held(*m).len(),
{
    m.len()
}

/// `DashMap::retain` on the guild members, keeping the entries whose key is not
/// of guild `guild`: exactly those entries remain.
#[verifier::external_body]
fn members_retain_other_guilds(m: &mut DashMap<(u64, u64), Member>, guild: u64)
    ensures
        members_held(*final(m)) == members_held(*old(m)).restrict(members_held(*old(m)).dom().filter(|k: (u64, u64)| k.0 != guild)),
{
    m.retain(|k, _| outside_guild(k, guild));
}

/// `DashMap::get` on the guild members, with the value cloned out: a value comes
/// back exactly when the key holds one, and it is what `Clone::clone`
/// gives on the stored value.
#[verifier::external_body]
fn members_get(m: &DashMap<(u64, u64), Member>, k: &(u64, u64)) -> (r: Option<Member>)
    ensures
        r is Some <==> members_held(*m).contains_key(*k),
        r matches Some(v) ==> cloned::<Member>(members_held(*m)[*k], v),
{
    m.get(k).map(|e| e.value().clone())
}

/// The entries of the guild members, collected from `DashMap::iter` in the order
/// it yields them (an order the contract leaves open): each key held
/// appears once, with what `Clone::clone` gives on its value.
#[verifier::external_body]
fn members_entries(m: &DashMap<(u64, u64), Member>) -> (r: Vec<((u64, u64), Member)>)
    ensures
        r@.map_values(|e: ((u64, u64), Member)| e.0).no_duplicates(),
        r@.map_values(|e: ((u64, u64), Member)| e.0).to_set() == members_held(*m).dom(),
        forall|i: int| 0 <= i < r@.len() ==> cloned(members_held(*m)[#[trigger] r@[i].0], r@[i].1),
{
    m.iter().map(|e| (e.key().clone(), e.value().clone())).collect()
}

/// The roles a map holds, by key.
pub uninterp spec fn roles_held(m: DashMap<(u64, u64), Role>) -> Map<(u64, u64), Role>;

/// `DashMap::new` for roles: an empty map.
#[verifier::external_body]
fn roles_new() -> (r: DashMap<(u64, u64), Role>)
    ensures
        roles_held(r).dom().is_empty(),
{
    DashMap::new()
}

/// `DashMap::len` on the roles: the number of keys held.
#[verifier::external_body]
fn roles_len(m: &DashMap<(u64, u64), Role>) -> (r: usize)
    ensures
        r == roles_held(*m).len(),
{
    m.len()
}

/// `DashMap::retain` on the roles, keeping the entries whose key is not
/// of guild `guild`: exactly those entries remain.
#[verifier::external_body]
fn roles_retain_other_guilds(m: &mut DashMap<(u64, u64), Role>, guild: u64)
    ensures
        roles_held(*final(m)) == roles_held(*old(m)).restrict(roles_held(*old(m)).dom().filter(|k: (u64, u64)| k.0 != guild)),
{
    m.retain(|k, _| outside_guild(k, guild));
}

/// `DashMap::get` on the roles, with the value cloned out: a value comes
/// back exactly when the key holds one, and it is what `Clone::clone`
/// gives on the stored value.
#[verifier::external_body]
fn roles_get(m: &DashMap<(u64, u64), Role>, k: &(u64, u64)) -> (r: Option<Role>)
    ensures
        r is Some <==> roles_held(*m).contains_key(*k),
        r matches Some(v) ==> cloned::<Role>(roles_held(*m)[*k], v),
{
    m.get(k).map(|e| e.value().clone())
}

/// The entries of the roles, collected from `DashMap::iter` in the order
/// it yields them (an order the contract leaves open): each key held
/// appears once, with what `Clone::clone` gives on its value.
#[verifier::external_body]
fn roles_entries(m: &DashMap<(u64, u64), Role>) -> (r: Vec<((u64, u64), Role)>)
    ensures
        r@.map_values(|e: ((u64, u64), Role)| e.0).no_duplicates(),
        r@.map_values(|e: ((u64, u64), Role)| e.0).to_set() == roles_held(*m).dom(),
        forall|i: int| 0 <= i < r@.len() ==> cloned(roles_held(*m)[#[trigger] r@[i].0], r@[i].1),
{
    m.iter().map(|e| (e.key().clone(), e.value().clone())).collect()
}

/// The voice states a map holds, by key.
pub uninterp spec fn voice_states_held(m: DashMap<(u64, u64), VoiceStateUpdateData>) -> Map<(u64, u64), VoiceStateUpdateData>;

/// `DashMap::new` for voice states: an empty map.
#[verifier::external_body]
fn voice_states_new() -> (r: DashMap<(u64, u64), VoiceStateUpdateData>)
    ensures
        voice_states_held(r).dom().is_empty(),
{
    DashMap::new()
}

/// `DashMap::len` on the voice states: the number of keys held.
#[verifier::external_body]
fn voice_states_len(m: &DashMap<(u64, u64), VoiceStateUpdateData>) -> (r: usize)
    ensures
        r == voice_states_held(*m).len(),
{
    m.len()
}

/// `DashMap::insert` on the voice states: the key now holds the value (any
/// earlier value is dropped), every other key is unchanged.
#[verifier::external_body]
fn voice_states_insert(m: &mut DashMap<(u64, u64), VoiceStateUpdateData>, k: (u64, u64), v: VoiceStateUpdateData)
    ensures
        voice_states_held(*final(m)) == voice_states_held(*old(m)).insert(k, v),
{
    m.insert(k, v);
}

/// `DashMap::remove` on the voice states: the key holds nothing any more,
/// every other key is unchanged.
#[verifier::external_body]
fn voice_states_remove(m: &mut DashMap<(u64, u64), VoiceStateUpdateData>, k: &(u64, u64))
    ensures
        voice_states_held(*final(m)) == voice_states_held(*old(m)).remove(*k),
{
    m.remove(k);
}

/// `DashMap::retain` on the voice states, keeping the entries whose key is not
/// of guild `guild`: exactly those entries remain.
#[verifier::external_body]
fn voice_states_retain_other_guilds(m: &mut DashMap<(u64, u64), VoiceStateUpdateData>, guild: u64)
    ensures
        voice_states_held(*final(m)) == voice_states_held(*old(m)).restrict(voice_states_held(*old(m)).dom().filter(|k: (u64, u64)| k.0 != guild)),
{
    m.retain(|k, _| outside_guild(k, guild));
}

/// `DashMap::get` on the voice states, with the value cloned out: a value comes
/// back exactly when the key holds one, and it is what `Clone::clone`
/// gives on the stored value.
#[verifier::external_body]
fn voice_states_get(m: &DashMap<(u64, u64), VoiceStateUpdateData>, k: &(u64, u64)) -> (r: Option<VoiceStateUpdateData>)
    ensures
        r is Some <==> voice_states_held(*m).contains_key(*k),
        r matches Some(v) ==> cloned::<VoiceStateUpdateData>(voice_states_held(*m)[*k], v),
{
    m.get(k).map(|e| e.value().clone())
}

/// The emojis a map holds, by key.
pub uninterp spec fn emojis_held(m: DashMap<(u64, u64), Emoji>) -> Map<(u64, u64), Emoji>;

/// `DashMap::new` for emojis: an empty map.
#[verifier::external_body]
fn emojis_new() -> (r: DashMap<(u64, u64), Emoji>)
    ensures
        emojis_held(r).dom().is_empty(),
{
    DashMap::new()
}

/// `DashMap::len` on the emojis: the number of keys held.
#[verifier::external_body]
fn emojis_len(m: &DashMap<(u64, u64), Emoji>) -> (r: usize)
    ensures
        r == emojis_held(*m).len(),
{
    m.len()
}

/// `DashMap::retain` on the emojis, keeping the entries whose key is not
/// of guild `guild`: exactly those entries remain.
#[verifier::external_body]
fn emojis_retain_other_guilds(m: &mut DashMap<(u64, u64), Emoji>, guild: u64)
    ensures
        emojis_held(*final(m)) == emojis_held(*old(m)).restrict(emojis_held(*old(m)).dom().filter(|k: (u64, u64)| k.0 != guild)),
{
    m.retain(|k, _| outside_guild(k, guild));
}

/// The entries of the emojis, collected from `DashMap::iter` in the order
/// it yields them (an order the contract leaves open): each key held
/// appears once, with what `Clone::clone` gives on its value.
#[verifier::external_body]
fn emojis_entries(m: &DashMap<(u64, u64), Emoji>) -> (r: Vec<((u64, u64), Emoji)>)
    ensures
        r@.map_values(|e: ((u64, u64), Emoji)| e.0).no_duplicates(),
        r@.map_values(|e: ((u64, u64), Emoji)| e.0).to_set() == emojis_held(*m).dom(),
        forall|i: int| 0 <= i < r@.len() ==> cloned(emojis_held(*m)[#[trigger] r@[i].0], r@[i].1),
{
    m.iter().map(|e| (e.key().clone(), e.value().clone())).collect()
}

/// The stickers a map holds, by key.
pub uninterp spec fn stickers_held(m: DashMap<(u64, u64), Sticker>) -> Map<(u64, u64), Sticker>;

/// `DashMap::new` for stickers: an empty map.
#[verifier::external_body]
fn stickers_new() -> (r: DashMap<(u64, u64), Sticker>)
    ensures
        stickers_held(r).dom().is_empty(),
{
    DashMap::new()
}

/// `DashMap::len` on the stickers: the number of keys held.
#[verifier::external_body]
fn stickers_len(m: &DashMap<(u64, u64), Sticker>) -> (r: usize)
    ensures
        r == stickers_held(*m).len(),
{
    m.len()
}

/// `DashMap::retain` on the stickers, keeping the entries whose key is not
/// of guild `guild`: exactly those entries remain.
#[verifier::external_body]
fn stickers_retain_other_guilds(m: &mut DashMap<(u64, u64), Sticker>, guild: u64)
    ensures
        stickers_held(*final(m)) == stickers_held(*old(m)).restrict(stickers_held(*old(m)).dom().filter(|k: (u64, u64)| k.0 != guild)),
{
    m.retain(|k, _| outside_guild(k, guild));
}

// ── The cache ────────────────────────────────────────────────────────────

/// What the cache holds.
pub struct CacheModel {
    /// The bot's own user, once READY has been received.
    pub current_user: Option<User>,
    /// Guilds by ID.
    pub guilds: Map<u64, Guild>,
    /// Channels by ID.
    pub channels: Map<u64, Channel>,
    /// Users by ID (shared across guilds).
    pub users: Map<u64, User>,
    /// Guild members by guild and user ID.
    pub members: Map<(u64, u64), Member>,
    /// Roles by guild and role ID.
    pub roles: Map<(u64, u64), Role>,
    /// Voice states by guild and user ID.
    pub voice_states: Map<(u64, u64), VoiceStateUpdateData>,
    /// Emojis by guild and emoji ID.
    pub emojis: Map<(u64, u64), Emoji>,
    /// Stickers by guild and sticker ID.
    pub stickers: Map<(u64, u64), Sticker>,
}

/// The entries of a guild-scoped map that are not of guild `guild`.
pub open spec fn without_guild<V>(m: Map<(u64, u64), V>, guild: u64) -> Map<(u64, u64), V> {
    m.restrict(m.dom().filter(|k: (u64, u64)| k.0 != guild))
}

/// What the cache holds once guild `guild` is forgotten: the guild, its
/// channels, and every member, role, voice state, emoji and sticker of it.
/// Users stay, since they may share other guilds.
pub open spec fn purged(c: CacheModel, guild: u64) -> CacheModel {
    CacheModel {
        guilds: c.guilds.remove(guild),
        channels: c.channels.restrict(c.channels.dom().filter(|k: u64| !channel_in_guild(c.channels[k], guild))),
        members: without_guild(c.members, guild),
        roles: without_guild(c.roles, guild),
        voice_states: without_guild(c.voice_states, guild),
        emojis: without_guild(c.emojis, guild),
        stickers: without_guild(c.stickers, guild),
        ..c
    }
}

/// What the cache holds after an event.
///
/// READY stores the bot's user; GUILD_CREATE and GUILD_UPDATE store the
/// guild; GUILD_DELETE forgets the guild and all its data when the bot
/// left it, and keeps everything during an outage (`unavailable`); a voice
/// state in a guild is stored while it has a channel and forgotten when it
/// has none; MESSAGE_CREATE stores the author.  Other events change
/// nothing.
pub open spec fn after_event(c: CacheModel, e: DispatchEvent) -> CacheModel {
    match e {
        DispatchEvent::Ready(ready) => CacheModel { current_user: Some(ready.user), ..c },
        DispatchEvent::GuildCreate(g) => CacheModel { guilds: c.guilds.insert(g.id@, g), ..c },
        DispatchEvent::GuildUpdate(g) => CacheModel { guilds: c.guilds.insert(g.id@, g), ..c },
        DispatchEvent::GuildDelete(u) => if u.unavailable {
            c
        } else {
            purged(c, u.id@)
        },
        DispatchEvent::VoiceStateUpdate(state) => match state.guild_id {
            Some(g) => if state.channel_id is Some {
                CacheModel { voice_states: c.voice_states.insert((g@, state.user_id@), state), ..c }
            } else {
                CacheModel { voice_states: c.voice_states.remove((g@, state.user_id@)), ..c }
            },
            None => c,
        },
        DispatchEvent::MessageCreate(msg) => CacheModel { users: c.users.insert(msg.author.id@, msg.author), ..c },
        _ => c,
    }
}

/// Whether `r` lists the values that `m` holds under the keys of guild
/// `guild`, each key once: `ks` gives, in order, the key each value was
/// cloned from.
pub open spec fn lists_guild_entries<V: Clone>(m: Map<(u64, u64), V>, guild: u64, r: Seq<V>, ks: Seq<(u64, u64)>) -> bool {
    &&& ks.no_duplicates()
    &&& ks.to_set() == m.dom().filter(|k: (u64, u64)| k.0 == guild)
    &&& ks.len() == r.len()
    &&& forall|j: int| 0 <= j < r.len() ==> cloned(m[ks[j]], #[trigger] r[j])
}

/// Whether `r` lists the channels of guild `guild` that `m` holds, each
/// once: `ks` gives, in order, the key each channel was cloned from.
pub open spec fn lists_guild_channels(m: Map<u64, Channel>, guild: u64, r: Seq<Channel>, ks: Seq<u64>) -> bool {
    &&& ks.no_duplicates()
    &&& ks.to_set() == m.dom().filter(|k: u64| channel_in_guild(m[k], guild))
    &&& ks.len() == r.len()
    &&& forall|j: int| 0 <= j < r.len() ==> cloned(m[ks[j]], #[trigger] r[j])
}

/// Whether `v` is what `Clone::clone` gives on a value that `m` holds under
/// a key of guild `guild`.
pub open spec fn cloned_from_guild<V: Clone>(m: Map<(u64, u64), V>, guild: u64, v: V) -> bool {
    exists|k: (u64, u64)| #[trigger] m.contains_key(k) && k.0 == guild && cloned(m[k], v)
}

/// Whether `c` is what `Clone::clone` gives on a channel of guild `guild`
/// that `m` holds.
pub open spec fn cloned_channel_of(m: Map<u64, Channel>, guild: u64, c: Channel) -> bool {
    exists|k: u64| #[trigger] m.contains_key(k) && channel_in_guild(m[k], guild) && cloned(m[k], c)
}

/// In-memory cache of Discord state, updated by gateway events.
pub struct Cache {
    current_user: DashMap<(), User>,
    guilds: DashMap<u64, Guild>,
    channels: DashMap<u64, Channel>,
    users: DashMap<u64, User>,
    members: DashMap<(u64, u64), Member>,
    roles: DashMap<(u64, u64), Role>,
    voice_states: DashMap<(u64, u64), VoiceStateUpdateData>,
    emojis: DashMap<(u64, u64), Emoji>,
    stickers: DashMap<(u64, u64), Sticker>,
}

impl View for Cache {
    type V = CacheModel;

    closed spec fn view(&self) -> CacheModel {
        CacheModel {
            current_user: if current_user_held(self.current_user).contains_key(()) {
                Some(current_user_held(self.current_user)[()])
            } else {
                None
            },
            guilds: guilds_held(self.guilds),
            channels: channels_held(self.channels),
            users: users_held(self.users),
            members: members_held(self.members),
            roles: roles_held(self.roles),
            voice_states: voice_states_held(self.voice_states),
            emojis: emojis_held(self.emojis),
            stickers: stickers_held(self.stickers),
        }
    }
}

/// Whether a cache holds nothing.
pub open spec fn is_empty_model(c: CacheModel) -> bool {
    &&& c.current_user is None
    &&& c.guilds.dom().is_empty()
    &&& c.channels.dom().is_empty()
    &&& c.users.dom().is_empty()
    &&& c.members.dom().is_empty()
    &&& c.roles.dom().is_empty()
    &&& c.voice_states.dom().is_empty()
    &&& c.emojis.dom().is_empty()
    &&& c.stickers.dom().is_empty()
}

/// In a sequence without repeated keys, the keys that pass a test are
/// themselves without repeats, and they are the keys of its set that pass it.
proof fn lemma_filter_keys<K>(keys: Seq<K>, f: spec_fn(K) -> bool)
    requires
        keys.no_duplicates(),
    ensures
        keys.filter(f).no_duplicates(),
        keys.filter(f).to_set() == keys.to_set().filter(f),
    decreases keys.len(),
{
    if keys.len() == 0 {
        assert(keys.filter(f) =~= Seq::<K>::empty());
        assert(keys.to_set().filter(f) =~= Set::<K>::empty());
        assert(keys.filter(f).to_set() =~= Set::<K>::empty());
    } else {
        let init = keys.drop_last();
        let last = keys.last();
        assert(keys =~= init.push(last));
        init.lemma_filter_push(last, f);
        assert(init.no_duplicates());
        lemma_filter_keys(init, f);
        assert(!init.contains(last));
        assert(keys.to_set() =~= init.to_set().insert(last));
        let fi = init.filter(f);
        if f(last) {
            assert(!fi.contains(last)) by {
                if fi.contains(last) {
                    init.lemma_filter_contains_rev(f, last);
                }
            }
            assert(fi.push(last).no_duplicates()) by {
                assert forall|a: int, b: int| 0 <= a < fi.push(last).len() && 0 <= b < fi.push(last).len() && a != b
                    implies fi.push(last)[a] != fi.push(last)[b] by {
                    if a == fi.len() {
                        assert(fi.contains(fi[b]));
                    } else if b == fi.len() {
                        assert(fi.contains(fi[a]));
                    }
                }
            }
            assert(fi.push(last).to_set() =~= fi.to_set().insert(last));
            assert(keys.to_set().filter(f) =~= init.to_set().filter(f).insert(last));
        } else {
            assert(keys.to_set().filter(f) =~= init.to_set().filter(f));
        }
    }
}

/// In a sequence without repeated keys, the keys that pass a test are as
/// many as the keys of its set that pass it.
proof fn lemma_filter_count<K>(keys: Seq<K>, f: spec_fn(K) -> bool)
    requires
        keys.no_duplicates(),
    ensures
        keys.filter(f).len() == keys.to_set().filter(f).len(),
    decreases keys.len(),
{
    if keys.len() == 0 {
        assert(keys.to_set().filter(f) =~= Set::<K>::empty());
    } else {
        let init = keys.drop_last();
        let last = keys.last();
        assert(keys =~= init.push(last));
        init.lemma_filter_push(last, f);
        assert(init.no_duplicates());
        lemma_filter_count(init, f);
        vstd::seq_lib::seq_to_set_is_finite(init);
        assert(!init.contains(last));
        assert(keys.to_set() =~= init.to_set().insert(last));
        if f(last) {
            assert(keys.to_set().filter(f) =~= init.to_set().filter(f).insert(last));
            assert(!init.to_set().filter(f).contains(last));
        } else {
            assert(keys.to_set().filter(f) =~= init.to_set().filter(f));
        }
    }
}

impl Cache {
    /// Create a new, empty cache.
    pub fn new() -> (r: Self)
        ensures
            is_empty_model(r@),
    {
        Cache {
            current_user: current_user_new(),
            guilds: guilds_new(),
            channels: channels_new(),
            users: users_new(),
            members: members_new(),
            roles: roles_new(),
            voice_states: voice_states_new(),
            emojis: emojis_new(),
            stickers: stickers_new(),
        }
    }

    // ── Reads ──────────────────────────────────────────────────────────

    /// The current bot user, if READY has been received.
    pub fn current_user(&self) -> (r: Option<User>)
        ensures
            r == self@.current_user,
    {
        current_user_get(&self.current_user, &())
    }

    /// Look up a guild by ID.
    pub fn guild(&self, id: Snowflake) -> (r: Option<Guild>)
        ensures
            r is Some <==> self@.guilds.contains_key(id@),
            r matches Some(g) ==> cloned(self@.guilds[id@], g) && Guild::same(g, self@.guilds[id@]),
    {
        proof {
            if self@.guilds.contains_key(id@) {
                lemma_guild_same_refl(self@.guilds[id@]);
            }
        }
        guilds_get(&self.guilds, &id.get())
    }

    /// Number of cached guilds.
    pub fn guild_count(&self) -> (r: usize)
        ensures
            r == self@.guilds.len(),
    {
        guilds_len(&self.guilds)
    }

    /// A description of the cache for debugging: how many entries each of
    /// its maps holds, in the form `Cache { guilds: 1, channels: 2, .. }`.
    pub fn debug_text(&self) -> (r: String)
        ensures
            r@ == "Cache { guilds: "@ + decimal(self@.guilds.len())
                + ", channels: "@ + decimal(self@.channels.len())
                + ", users: "@ + decimal(self@.users.len())
                + ", members: "@ + decimal(self@.members.len())
                + ", roles: "@ + decimal(self@.roles.len())
                + ", voice_states: "@ + decimal(self@.voice_states.len())
                + ", emojis: "@ + decimal(self@.emojis.len())
                + ", stickers: "@ + decimal(self@.stickers.len()) + " }"@,
    {
        let mut s = "Cache { guilds: ".to_owned();
        push_decimal(&mut s, guilds_len(&self.guilds) as u64);
        s.append(", channels: ");
        push_decimal(&mut s, channels_len(&self.channels) as u64);
        s.append(", users: ");
        push_decimal(&mut s, users_len(&self.users) as u64);
        s.append(", members: ");
        push_decimal(&mut s, members_len(&self.members) as u64);
        s.append(", roles: ");
        push_decimal(&mut s, roles_len(&self.roles) as u64);
        s.append(", voice_states: ");
        push_decimal(&mut s, voice_states_len(&self.voice_states) as u64);
        s.append(", emojis: ");
        push_decimal(&mut s, emojis_len(&self.emojis) as u64);
        s.append(", stickers: ");
        push_decimal(&mut s, stickers_len(&self.stickers) as u64);
        s.append(" }");
        s
    }

    /// Look up a channel by ID.
    pub fn channel(&self, id: Snowflake) -> (r: Option<Channel>)
        ensures
            r is Some <==> self@.channels.contains_key(id@),
            r matches Some(c) ==> cloned(self@.channels[id@], c) && Channel::same(c, self@.channels[id@]),
    {
        proof {
            if self@.channels.contains_key(id@) {
                lemma_channel_same_refl(self@.channels[id@]);
            }
        }
        channels_get(&self.channels, &id.get())
    }

    /// Look up a user by ID.
    pub fn user(&self, id: Snowflake) -> (r: Option<User>)
        ensures
            r == if self@.users.contains_key(id@) {
                Some(self@.users[id@])
            } else {
                None
            },
    {
        users_get(&self.users, &id.get())
    }

    /// Look up a guild member by guild + user ID.
    pub fn member(&self, guild_id: Snowflake, user_id: Snowflake) -> (r: Option<Member>)
        ensures
            r is Some <==> self@.members.contains_key((guild_id@, user_id@)),
            r matches Some(m) ==> cloned(self@.members[(guild_id@, user_id@)], m)
                && Member::same(m, self@.members[(guild_id@, user_id@)]),
    {
        members_get(&self.members, &(guild_id.get(), user_id.get()))
    }

    /// Look up a role by guild + role ID.
    pub fn role(&self, guild_id: Snowflake, role_id: Snowflake) -> (r: Option<Role>)
        ensures
            r == if self@.roles.contains_key((guild_id@, role_id@)) {
                Some(self@.roles[(guild_id@, role_id@)])
            } else {
                None
            },
    {
        roles_get(&self.roles, &(guild_id.get(), role_id.get()))
    }

    /// Look up a voice state by guild + user ID.
    pub fn voice_state(&self, guild_id: Snowflake, user_id: Snowflake) -> (r: Option<VoiceStateUpdateData>)
        ensures
            r == if self@.voice_states.contains_key((guild_id@, user_id@)) {
                Some(self@.voice_states[(guild_id@, user_id@)])
            } else {
                None
            },
    {
        voice_states_get(&self.voice_states, &(guild_id.get(), user_id.get()))
    }

    /// All roles of a guild, one per role cached for it.
    pub fn guild_roles(&self, guild_id: Snowflake) -> (r: Vec<Role>)
        ensures
            r@.len() == self@.roles.dom().filter(|k: (u64, u64)| k.0 == guild_id@).len(),
            forall|j: int| 0 <= j < r@.len() ==> #[trigger] cloned_from_guild(self@.roles, guild_id@, r@[j]),
            exists|ks: Seq<(u64, u64)>| #[trigger] lists_guild_entries(self@.roles, guild_id@, r@, ks),
    {
        broadcast use vstd::std_specs::vec::axiom_spec_into_iter;
        let entries = roles_entries(&self.roles);
        let g = guild_id.get();
        let ghost es = entries@;
        let ghost held = self@.roles;
        let ghost keys = es.map_values(|e: ((u64, u64), Role)| e.0);
        let ghost f = |k: (u64, u64)| k.0 == g;
        let ghost mut ks: Seq<(u64, u64)> = Seq::empty();
        let mut out: Vec<Role> = Vec::new();
        proof {
            assert forall|i: int| 0 <= i < es.len() implies #[trigger] held.contains_key(es[i].0) && cloned(held[es[i].0], es[i].1) by {
                assert(keys[i] == es[i].0);
                assert(keys.to_set().contains(keys[i]));
            }
            assert(keys.subrange(0, 0).filter(f) =~= Seq::<(u64, u64)>::empty());
        }
        for e in it: entries.into_iter()
            invariant
                it.seq() == es,
                keys == es.map_values(|e: ((u64, u64), Role)| e.0),
                f == (|k: (u64, u64)| k.0 == g),
                forall|i: int| 0 <= i < es.len() ==> #[trigger] held.contains_key(es[i].0) && cloned(held[es[i].0], es[i].1),
                ks == keys.subrange(0, it.index() as int).filter(f),
                out@.len() == ks.len(),
                forall|j: int| 0 <= j < out@.len() ==> cloned(held[#[trigger] ks[j]], out@[j]),
                forall|j: int| 0 <= j < out@.len() ==> #[trigger] cloned_from_guild(held, g, out@[j]),
        {
            let ghost i = it.index() as int;
            proof {
                assert(keys.subrange(0, i + 1) =~= keys.subrange(0, i).push(keys[i]));
                keys.subrange(0, i).lemma_filter_push(keys[i], f);
                assert(held.contains_key(es[i].0));
                assert(keys[i] == es[i].0);
            }
            let (k, v) = e;
            if k.0 == g {
                out.push(v);
                proof {
                    ks = ks.push(k);
                }
                assert(cloned_from_guild(held, g, out@[out@.len() - 1]));
            }
        }
        proof {
            assert(keys.subrange(0, es.len() as int) =~= keys);
            lemma_filter_count(keys, f);
            lemma_filter_keys(keys, f);
            assert(keys.to_set() == held.dom());
            assert(keys.to_set().filter(f) =~= held.dom().filter(|k: (u64, u64)| k.0 == guild_id@));
            assert(lists_guild_entries(held, g, out@, ks));
        }
        out
    }

    /// All emojis of a guild, one per emoji cached for it.
    pub fn guild_emojis(&self, guild_id: Snowflake) -> (r: Vec<Emoji>)
        ensures
            r@.len() == self@.emojis.dom().filter(|k: (u64, u64)| k.0 == guild_id@).len(),
            forall|j: int| 0 <= j < r@.len() ==> #[trigger] cloned_from_guild(self@.emojis, guild_id@, r@[j]),
            exists|ks: Seq<(u64, u64)>| #[trigger] lists_guild_entries(self@.emojis, guild_id@, r@, ks),
    {
        broadcast use vstd::std_specs::vec::axiom_spec_into_iter;
        let entries = emojis_entries(&self.emojis);
        let g = guild_id.get();
        let ghost es = entries@;
        let ghost held = self@.emojis;
        let ghost keys = es.map_values(|e: ((u64, u64), Emoji)| e.0);
        let ghost f = |k: (u64, u64)| k.0 == g;
        let ghost mut ks: Seq<(u64, u64)> = Seq::empty();
        let mut out: Vec<Emoji> = Vec::new();
        proof {
            assert forall|i: int| 0 <= i < es.len() implies #[trigger] held.contains_key(es[i].0) && cloned(held[es[i].0], es[i].1) by {
                assert(keys[i] == es[i].0);
                assert(keys.to_set().contains(keys[i]));
            }
            assert(keys.subrange(0, 0).filter(f) =~= Seq::<(u64, u64)>::empty());
        }
        for e in it: entries.into_iter()
            invariant
                it.seq() == es,
                keys == es.map_values(|e: ((u64, u64), Emoji)| e.0),
                f == (|k: (u64, u64)| k.0 == g),
                forall|i: int| 0 <= i < es.len() ==> #[trigger] held.contains_key(es[i].0) && cloned(held[es[i].0], es[i].1),
                ks == keys.subrange(0, it.index() as int).filter(f),
                out@.len() == ks.len(),
                forall|j: int| 0 <= j < out@.len() ==> cloned(held[#[trigger] ks[j]], out@[j]),
                forall|j: int| 0 <= j < out@.len() ==> #[trigger] cloned_from_guild(held, g, out@[j]),
        {
            let ghost i = it.index() as int;
            proof {
                assert(keys.subrange(0, i + 1) =~= keys.subrange(0, i).push(keys[i]));
                keys.subrange(0, i).lemma_filter_push(keys[i], f);
                assert(held.contains_key(es[i].0));
                assert(keys[i] == es[i].0);
            }
            let (k, v) = e;
            if k.0 == g {
                out.push(v);
                proof {
                    ks = ks.push(k);
                }
                assert(cloned_from_guild(held, g, out@[out@.len() - 1]));
            }
        }
        proof {
            assert(keys.subrange(0, es.len() as int) =~= keys);
            lemma_filter_count(keys, f);
            lemma_filter_keys(keys, f);
            assert(keys.to_set() == held.dom());
            assert(keys.to_set().filter(f) =~= held.dom().filter(|k: (u64, u64)| k.0 == guild_id@));
            assert(lists_guild_entries(held, g, out@, ks));
        }
        out
    }

    /// All members of a guild, one per member cached for it (the cache may
    /// be incomplete if the GUILD_MEMBERS intent is off).
    pub fn guild_members(&self, guild_id: Snowflake) -> (r: Vec<Member>)
        ensures
            r@.len() == self@.members.dom().filter(|k: (u64, u64)| k.0 == guild_id@).len(),
            forall|j: int| 0 <= j < r@.len() ==> #[trigger] cloned_from_guild(self@.members, guild_id@, r@[j]),
            exists|ks: Seq<(u64, u64)>| #[trigger] lists_guild_entries(self@.members, guild_id@, r@, ks),
    {
        broadcast use vstd::std_specs::vec::axiom_spec_into_iter;
        let entries = members_entries(&self.members);
        let g = guild_id.get();
        let ghost es = entries@;
        let ghost held = self@.members;
        let ghost keys = es.map_values(|e: ((u64, u64), Member)| e.0);
        let ghost f = |k: (u64, u64)| k.0 == g;
        let ghost mut ks: Seq<(u64, u64)> = Seq::empty();
        let mut out: Vec<Member> = Vec::new();
        proof {
            assert forall|i: int| 0 <= i < es.len() implies #[trigger] held.contains_key(es[i].0) && cloned(held[es[i].0], es[i].1) by {
                assert(keys[i] == es[i].0);
                assert(keys.to_set().contains(keys[i]));
            }
            assert(keys.subrange(0, 0).filter(f) =~= Seq::<(u64, u64)>::empty());
        }
        for e in it: entries.into_iter()
            invariant
                it.seq() == es,
                keys == es.map_values(|e: ((u64, u64), Member)| e.0),
                f == (|k: (u64, u64)| k.0 == g),
                forall|i: int| 0 <= i < es.len() ==> #[trigger] held.contains_key(es[i].0) && cloned(held[es[i].0], es[i].1),
                ks == keys.subrange(0, it.index() as int).filter(f),
                out@.len() == ks.len(),
                forall|j: int| 0 <= j < out@.len() ==> cloned(held[#[trigger] ks[j]], out@[j]),
                forall|j: int| 0 <= j < out@.len() ==> #[trigger] cloned_from_guild(held, g, out@[j]),
        {
            let ghost i = it.index() as int;
            proof {
                assert(keys.subrange(0, i + 1) =~= keys.subrange(0, i).push(keys[i]));
                keys.subrange(0, i).lemma_filter_push(keys[i], f);
                assert(held.contains_key(es[i].0));
                assert(keys[i] == es[i].0);
            }
            let (k, v) = e;
            if k.0 == g {
                out.push(v);
                proof {
                    ks = ks.push(k);
                }
                assert(cloned_from_guild(held, g, out@[out@.len() - 1]));
            }
        }
        proof {
            assert(keys.subrange(0, es.len() as int) =~= keys);
            lemma_filter_count(keys, f);
            lemma_filter_keys(keys, f);
            assert(keys.to_set() == held.dom());
            assert(keys.to_set().filter(f) =~= held.dom().filter(|k: (u64, u64)| k.0 == guild_id@));
            assert(lists_guild_entries(held, g, out@, ks));
        }
        out
    }

    /// All channels in a guild, one per channel cached for it.
    pub fn guild_channels(&self, guild_id: Snowflake) -> (r: Vec<Channel>)
        ensures
            r@.len() == self@.channels.dom().filter(|k: u64| channel_in_guild(self@.channels[k], guild_id@)).len(),
            forall|j: int| 0 <= j < r@.len() ==> #[trigger] cloned_channel_of(self@.channels, guild_id@, r@[j]),
            exists|ks: Seq<u64>| #[trigger] lists_guild_channels(self@.channels, guild_id@, r@, ks),
    {
        broadcast use vstd::std_specs::vec::axiom_spec_into_iter;
        let entries = channels_entries(&self.channels);
        let g = guild_id.get();
        let ghost es = entries@;
        let ghost m = channels_held(self.channels);
        let ghost keys = es.map_values(|e: (u64, Channel)| e.0);
        let ghost f = |k: u64| channel_in_guild(m[k], g);
        let ghost mut ks: Seq<u64> = Seq::empty();
        let mut out: Vec<Channel> = Vec::new();
        proof {
            assert forall|i: int| 0 <= i < es.len() implies #[trigger] m.contains_key(es[i].0) by {
                assert(keys[i] == es[i].0);
                assert(keys.to_set().contains(keys[i]));
            }
            assert(keys.subrange(0, 0).filter(f) =~= Seq::<u64>::empty());
        }
        for e in it: entries.into_iter()
            invariant
                it.seq() == es,
                keys == es.map_values(|e: (u64, Channel)| e.0),
                f == (|k: u64| channel_in_guild(m[k], g)),
                forall|i: int| 0 <= i < es.len() ==> #[trigger] m.contains_key(es[i].0),
                forall|i: int| 0 <= i < es.len() ==> cloned(m[#[trigger] es[i].0], es[i].1),
                forall|i: int| 0 <= i < es.len() ==> (#[trigger] es[i]).1.guild_id == m[es[i].0].guild_id,
                ks == keys.subrange(0, it.index() as int).filter(f),
                out@.len() == ks.len(),
                forall|j: int| 0 <= j < out@.len() ==> cloned(m[#[trigger] ks[j]], out@[j]),
                forall|j: int| 0 <= j < out@.len() ==> #[trigger] cloned_channel_of(m, g, out@[j]),
        {
            let ghost i = it.index() as int;
            proof {
                assert(keys.subrange(0, i + 1) =~= keys.subrange(0, i).push(keys[i]));
                keys.subrange(0, i).lemma_filter_push(keys[i], f);
                assert(m.contains_key(es[i].0));
                assert(cloned(m[es[i].0], es[i].1));
                assert(es[i].1.guild_id == m[es[i].0].guild_id);
                assert(keys[i] == es[i].0);
            }
            let (k, v) = e;
            if !channel_outside_guild(&v, g) {
                out.push(v);
                proof {
                    ks = ks.push(k);
                }
                assert(cloned_channel_of(m, g, out@[out@.len() - 1]));
            }
        }
        proof {
            assert(keys.subrange(0, es.len() as int) =~= keys);
            lemma_filter_count(keys, f);
            lemma_filter_keys(keys, f);
            assert(keys.to_set() == self@.channels.dom());
            assert(keys.to_set().filter(f) =~= self@.channels.dom().filter(|k: u64| channel_in_guild(self@.channels[k], guild_id@)));
            assert(lists_guild_channels(m, g, out@, ks));
        }
        out
    }

    // ── Update ─────────────────────────────────────────────────────────

    /// Update the cache from a gateway dispatch event.
    ///
    /// **Call this before dispatching the event to user handlers** so that
    /// handler code always sees up-to-date state.
    pub fn update(&mut self, event: DispatchEvent)
        ensures
            final(self)@ == after_event(old(self)@, event),
    {
        let ghost before = self@;
        match event {
            DispatchEvent::Ready(ready) => {
                current_user_insert(&mut self.current_user, (), ready.user);
            },
            DispatchEvent::GuildCreate(guild) => {
                let id = guild.id.get();
                guilds_insert(&mut self.guilds, id, guild);
            },
            DispatchEvent::GuildUpdate(guild) => {
                let id = guild.id.get();
                guilds_insert(&mut self.guilds, id, guild);
            },
            DispatchEvent::GuildDelete(unavailable) => {
                if !unavailable.unavailable {
                    self.purge_guild(unavailable.id.get());
                }
            },
            DispatchEvent::VoiceStateUpdate(state) => {
                if let Some(guild_id) = state.guild_id {
                    let key = (guild_id.get(), state.user_id.get());
                    if state.channel_id.is_some() {
                        voice_states_insert(&mut self.voice_states, key, state);
                    } else {
                        voice_states_remove(&mut self.voice_states, &key);
                    }
                }
            },
            DispatchEvent::MessageCreate(msg) => {
                let id = msg.author.id.get();
                users_insert(&mut self.users, id, msg.author);
            },
            _ => {},
        }
        assert(final(self)@.guilds =~= after_event(before, event).guilds);
    }

    /// Remove all data associated with a guild.
    fn purge_guild(&mut self, guild_id: u64)
        ensures
            final(self)@ == purged(old(self)@, guild_id),
    {
        let ghost c = self@;
        guilds_remove(&mut self.guilds, &guild_id);
        channels_retain_other_guilds(&mut self.channels, guild_id);
        members_retain_other_guilds(&mut self.members, guild_id);
        roles_retain_other_guilds(&mut self.roles, guild_id);
        voice_states_retain_other_guilds(&mut self.voice_states, guild_id);
        emojis_retain_other_guilds(&mut self.emojis, guild_id);
        stickers_retain_other_guilds(&mut self.stickers, guild_id);
        let ghost p = purged(c, guild_id);
        assert(self@.channels =~= p.channels);
        assert(self@.members =~= p.members);
        assert(self@.roles =~= p.roles);
        assert(self@.voice_states =~= p.voice_states);
        assert(self@.emojis =~= p.emojis);
        assert(self@.stickers =~= p.stickers);
        assert(self@.guilds =~= p.guilds);
    }
}

/// Forgetting a guild the bot left leaves nothing of it: no guild entry,
/// no channel in it, and no member, role, voice state, emoji or sticker
/// scoped to it; what belongs to other guilds is untouched.
pub proof fn lemma_purge_forgets_guild(c: CacheModel, guild: u64, user: u64, other: (u64, u64))
    requires
        other.0 != guild,
    ensures
        !purged(c, guild).guilds.contains_key(guild),
        !purged(c, guild).members.contains_key((guild, user)),
        !purged(c, guild).roles.contains_key((guild, user)),
        !purged(c, guild).voice_states.contains_key((guild, user)),
        !purged(c, guild).emojis.contains_key((guild, user)),
        !purged(c, guild).stickers.contains_key((guild, user)),
        forall|ch: u64| #[trigger] purged(c, guild).channels.contains_key(ch) ==> !channel_in_guild(c.channels[ch], guild),
        purged(c, guild).members.contains_key(other) == c.members.contains_key(other),
        purged(c, guild).roles.contains_key(other) == c.roles.contains_key(other),
        purged(c, guild).users == c.users,
{
}

/// A guild the cache was told about can be read back until it is deleted
/// for good; a temporary outage keeps it.
pub proof fn lemma_guild_read_after_create(c: CacheModel, g: Guild, u: crate::gateway::events::UnavailableGuild)
    requires
        u.id@ == g.id@,
    ensures
        after_event(c, DispatchEvent::GuildCreate(g)).guilds[g.id@] == g,
        u.unavailable ==> after_event(after_event(c, DispatchEvent::GuildCreate(g)), DispatchEvent::GuildDelete(u)).guilds.contains_key(g.id@),
        !u.unavailable ==> !after_event(after_event(c, DispatchEvent::GuildCreate(g)), DispatchEvent::GuildDelete(u)).guilds.contains_key(g.id@),
{
}

/// GUILD_UPDATE upserts: afterwards the cache holds the guild it carries
/// under its ID, whether or not a guild with that ID was cached before,
/// exactly as GUILD_CREATE would; other guilds and the rest of the cache
/// are untouched.  In particular an update that follows a create of the
/// same guild replaces the created data.
pub proof fn lemma_guild_update_upserts(c: CacheModel, g: Guild, earlier: Guild, other: u64)
    requires
        earlier.id@ == g.id@,
        other != g.id@,
    ensures
        after_event(c, DispatchEvent::GuildUpdate(g)).guilds.contains_key(g.id@),
        after_event(c, DispatchEvent::GuildUpdate(g)).guilds[g.id@] == g,
        after_event(c, DispatchEvent::GuildUpdate(g)) == after_event(c, DispatchEvent::GuildCreate(g)),
        after_event(after_event(c, DispatchEvent::GuildCreate(earlier)), DispatchEvent::GuildUpdate(g)).guilds[g.id@] == g,
        after_event(c, DispatchEvent::GuildUpdate(g)).guilds.contains_key(other) == c.guilds.contains_key(other),
        after_event(c, DispatchEvent::GuildUpdate(g)).guilds[other] == c.guilds[other],
        after_event(c, DispatchEvent::GuildUpdate(g)).channels == c.channels,
        after_event(c, DispatchEvent::GuildUpdate(g)).members == c.members,
        after_event(c, DispatchEvent::GuildUpdate(g)).users == c.users,
        after_event(c, DispatchEvent::GuildUpdate(g)).current_user == c.current_user,
{
}

/// READY records the bot's own user and changes nothing else.
pub proof fn lemma_ready_records_current_user(c: CacheModel, ready: crate::gateway::events::ReadyData)
    ensures
        after_event(c, DispatchEvent::Ready(ready)).current_user == Some(ready.user),
        after_event(c, DispatchEvent::Ready(ready)).guilds == c.guilds,
        after_event(c, DispatchEvent::Ready(ready)).users == c.users,
        after_event(c, DispatchEvent::Ready(ready)).voice_states == c.voice_states,
{
}

/// MESSAGE_CREATE records the message's author under its user ID, replacing
/// what was known of that user; other users and the rest of the cache stay.
pub proof fn lemma_message_records_author(c: CacheModel, msg: crate::models::message::Message, other: u64)
    requires
        other != msg.author.id@,
    ensures
        after_event(c, DispatchEvent::MessageCreate(msg)).users.contains_key(msg.author.id@),
        after_event(c, DispatchEvent::MessageCreate(msg)).users[msg.author.id@] == msg.author,
        after_event(c, DispatchEvent::MessageCreate(msg)).users.contains_key(other) == c.users.contains_key(other),
        after_event(c, DispatchEvent::MessageCreate(msg)).users[other] == c.users[other],
        after_event(c, DispatchEvent::MessageCreate(msg)).guilds == c.guilds,
        after_event(c, DispatchEvent::MessageCreate(msg)).current_user == c.current_user,
        after_event(c, DispatchEvent::MessageCreate(msg)).voice_states == c.voice_states,
{
}

/// VOICE_STATE_UPDATE tracks who is in voice: in a guild, a state with a
/// channel is recorded under its guild and user, replacing the previous
/// one, and a state without a channel (the user left voice) removes that
/// entry; a state outside any guild changes nothing.  Other users' states
/// stay, and so does the rest of the cache.
pub proof fn lemma_voice_state_tracked(c: CacheModel, v: VoiceStateUpdateData, other: (u64, u64))
    ensures
        v.guild_id matches Some(g) ==> (v.channel_id is Some ==> after_event(c, DispatchEvent::VoiceStateUpdate(v)).voice_states.contains_key((g@, v.user_id@))),
        v.guild_id matches Some(g) ==> (v.channel_id is Some ==> after_event(c, DispatchEvent::VoiceStateUpdate(v)).voice_states[(g@, v.user_id@)] == v),
        v.guild_id matches Some(g) ==> (v.channel_id is None ==> !after_event(c, DispatchEvent::VoiceStateUpdate(v)).voice_states.contains_key((g@, v.user_id@))),
        v.guild_id matches Some(g) ==> (other != (g@, v.user_id@) ==> after_event(c, DispatchEvent::VoiceStateUpdate(v)).voice_states.contains_key(other) == c.voice_states.contains_key(other)),
        v.guild_id matches Some(g) ==> (other != (g@, v.user_id@) ==> after_event(c, DispatchEvent::VoiceStateUpdate(v)).voice_states[other] == c.voice_states[other]),
        v.guild_id is None ==> after_event(c, DispatchEvent::VoiceStateUpdate(v)) == c,
        after_event(c, DispatchEvent::VoiceStateUpdate(v)).guilds == c.guilds,
        after_event(c, DispatchEvent::VoiceStateUpdate(v)).users == c.users,
        after_event(c, DispatchEvent::VoiceStateUpdate(v)).current_user == c.current_user,
{
}

/// Events the cache does not track leave it as it was.
pub proof fn lemma_untracked_events_change_nothing(c: CacheModel, e: DispatchEvent)
    requires
        e is MessageDelete || e is InteractionCreate || e is VoiceServerUpdate || e is Unknown,
    ensures
        after_event(c, e) == c,
{
}

} // verus!
