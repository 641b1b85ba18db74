//! Typed Discord REST API route definitions.
//!
//! Each variant of [`Route`] maps to a specific Discord endpoint.  The route
//! knows its HTTP method, its fully-formed URL, and the bucket identifier
//! used for rate-limit tracking.
//!
//! Bucket IDs follow Discord's rule: routes that share major parameters
//! (guild ID, channel ID, webhook ID) share a rate-limit bucket for those
//! resources.

use vstd::prelude::*;
use crate::http::client::BASE_URL;
use crate::snowflake::Snowflake;
use crate::text::{decimal, lemma_cancel_prefix, lemma_decimal_split, push_decimal};

verus! {

/// HTTP method for a [`Route`].
#[derive(Debug, Clone, Copy, PartialEq, Eq, Structural)]
pub enum Method {
    /// HTTP GET.
    Get,
    /// HTTP POST.
    Post,
    /// HTTP PATCH.
    Patch,
    /// HTTP PUT.
    Put,
    /// HTTP DELETE.
    Delete,
}

/// A typed Discord REST API endpoint.
///
/// Call [`Route::method`], [`Route::url`], and [`Route::bucket`] to get the
/// info needed to dispatch a request.
#[derive(Debug, Clone)]
#[non_exhaustive]
pub enum Route {
    /// `GET /channels/{channel.id}`
    GetChannel { channel_id: Snowflake },
    /// `POST /channels/{channel.id}/messages`
    CreateMessage { channel_id: Snowflake },
    /// `GET /channels/{channel.id}/messages/{message.id}`
    GetMessage { channel_id: Snowflake, message_id: Snowflake },
    /// `DELETE /channels/{channel.id}/messages/{message.id}`
    DeleteMessage { channel_id: Snowflake, message_id: Snowflake },
    /// `GET /guilds/{guild.id}`
    GetGuild { guild_id: Snowflake },
    /// `GET /guilds/{guild.id}/members/{user.id}`
    GetGuildMember { guild_id: Snowflake, user_id: Snowflake },
    /// `GET /users/@me`
    GetCurrentUser,
    /// `GET /users/{user.id}`
    GetUser { user_id: Snowflake },
    /// `GET /gateway/bot` — returns the recommended shard count and WSS URL.
    GetGatewayBot,
    /// `GET /applications/{application_id}/commands`
    GetGlobalCommands { application_id: Snowflake },
    /// `POST /applications/{application_id}/commands`
    CreateGlobalCommand { application_id: Snowflake },
    /// `PUT /applications/{application_id}/commands` — bulk overwrite all global commands.
    BulkOverwriteGlobalCommands { application_id: Snowflake },
    /// `DELETE /applications/{application_id}/commands/{command_id}`
    DeleteGlobalCommand { application_id: Snowflake, command_id: Snowflake },
    /// `GET /applications/{application_id}/guilds/{guild_id}/commands`
    GetGuildCommands { application_id: Snowflake, guild_id: Snowflake },
    /// `POST /applications/{application_id}/guilds/{guild_id}/commands`
    CreateGuildCommand { application_id: Snowflake, guild_id: Snowflake },
    /// `PUT /applications/{application_id}/guilds/{guild_id}/commands` — bulk overwrite all guild commands.
    BulkOverwriteGuildCommands { application_id: Snowflake, guild_id: Snowflake },
    /// `DELETE /applications/{application_id}/guilds/{guild_id}/commands/{command_id}`
    DeleteGuildCommand { application_id: Snowflake, guild_id: Snowflake, command_id: Snowflake },
    /// `POST /interactions/{interaction_id}/{interaction_token}/callback`
    CreateInteractionResponse { interaction_id: Snowflake, interaction_token: String },
    /// `PATCH /channels/{channel.id}/messages/{message.id}`
    EditMessage { channel_id: Snowflake, message_id: Snowflake },
    /// `PATCH /webhooks/{application_id}/{interaction_token}/messages/@original`
    EditOriginalInteractionResponse { application_id: Snowflake, interaction_token: String },
    /// `POST /channels/{channel.id}/threads` — start a thread from a message or without one.
    CreateThread { channel_id: Snowflake },
    /// `POST /channels/{channel.id}/messages/{message.id}/threads` — start a thread from a message.
    CreateThreadFromMessage { channel_id: Snowflake, message_id: Snowflake },
    /// `PUT /channels/{thread.id}/thread-members/@me` — join a thread.
    JoinThread { thread_id: Snowflake },
    /// `DELETE /channels/{thread.id}/thread-members/@me` — leave a thread.
    LeaveThread { thread_id: Snowflake },
    /// `PUT /channels/{thread.id}/thread-members/{user.id}` — add a member to a thread.
    AddThreadMember { thread_id: Snowflake, user_id: Snowflake },
    /// `DELETE /channels/{thread.id}/thread-members/{user.id}` — remove a member from a thread.
    RemoveThreadMember { thread_id: Snowflake, user_id: Snowflake },
    /// `GET /channels/{channel.id}/threads/archived/public`
    ListPublicArchivedThreads { channel_id: Snowflake },
    /// `GET /channels/{channel.id}/threads/archived/private`
    ListPrivateArchivedThreads { channel_id: Snowflake },
    /// `PATCH /channels/{channel.id}` — modify a thread (archive, lock, rename, etc.).
    ModifyThread { channel_id: Snowflake },
    /// `PATCH /guilds/{guild.id}/members/{user.id}`
    ModifyGuildMember { guild_id: Snowflake, user_id: Snowflake },
    /// `GET /guilds/{guild.id}/scheduled-events`
    ListScheduledEvents { guild_id: Snowflake },
    /// `POST /guilds/{guild.id}/scheduled-events`
    CreateScheduledEvent { guild_id: Snowflake },
    /// `GET /guilds/{guild.id}/scheduled-events/{event.id}`
    GetScheduledEvent { guild_id: Snowflake, event_id: Snowflake },
    /// `PATCH /guilds/{guild.id}/scheduled-events/{event.id}`
    ModifyScheduledEvent { guild_id: Snowflake, event_id: Snowflake },
    /// `DELETE /guilds/{guild.id}/scheduled-events/{event.id}`
    DeleteScheduledEvent { guild_id: Snowflake, event_id: Snowflake },
    /// `GET /guilds/{guild.id}/stickers`
    ListGuildStickers { guild_id: Snowflake },
    /// `GET /guilds/{guild.id}/stickers/{sticker.id}`
    GetGuildSticker { guild_id: Snowflake, sticker_id: Snowflake },
    /// `POST /guilds/{guild.id}/stickers`
    CreateGuildSticker { guild_id: Snowflake },
    /// `PATCH /guilds/{guild.id}/stickers/{sticker.id}`
    ModifyGuildSticker { guild_id: Snowflake, sticker_id: Snowflake },
    /// `DELETE /guilds/{guild.id}/stickers/{sticker.id}`
    DeleteGuildSticker { guild_id: Snowflake, sticker_id: Snowflake },
    /// `GET /guilds/{guild.id}/auto-moderation/rules`
    ListAutoModerationRules { guild_id: Snowflake },
    /// `GET /guilds/{guild.id}/auto-moderation/rules/{rule.id}`
    GetAutoModerationRule { guild_id: Snowflake, rule_id: Snowflake },
    /// `POST /guilds/{guild.id}/auto-moderation/rules`
    CreateAutoModerationRule { guild_id: Snowflake },
    /// `PATCH /guilds/{guild.id}/auto-moderation/rules/{rule.id}`
    ModifyAutoModerationRule { guild_id: Snowflake, rule_id: Snowflake },
    /// `DELETE /guilds/{guild.id}/auto-moderation/rules/{rule.id}`
    DeleteAutoModerationRule { guild_id: Snowflake, rule_id: Snowflake },
    /// `GET /applications/{application.id}/entitlements`
    ListEntitlements { application_id: Snowflake },
    /// `POST /applications/{application.id}/entitlements` — create a test entitlement.
    CreateTestEntitlement { application_id: Snowflake },
    /// `DELETE /applications/{application.id}/entitlements/{entitlement.id}` — delete a test entitlement.
    DeleteTestEntitlement { application_id: Snowflake, entitlement_id: Snowflake },
    /// `GET /applications/{application.id}/skus`
    ListSkus { application_id: Snowflake },
}

impl Route {
    /// The HTTP method of the route.
    pub open spec fn method_spec(&self) -> Method {
        match *self {
            Route::GetChannel { channel_id: _ } => Method::Get,
            Route::CreateMessage { channel_id: _ } => Method::Post,
            Route::GetMessage { channel_id: _, message_id: _ } => Method::Get,
            Route::DeleteMessage { channel_id: _, message_id: _ } => Method::Delete,
            Route::GetGuild { guild_id: _ } => Method::Get,
            Route::GetGuildMember { guild_id: _, user_id: _ } => Method::Get,
            Route::GetCurrentUser => Method::Get,
            Route::GetUser { user_id: _ } => Method::Get,
            Route::GetGatewayBot => Method::Get,
            Route::GetGlobalCommands { application_id: _ } => Method::Get,
            Route::CreateGlobalCommand { application_id: _ } => Method::Post,
            Route::BulkOverwriteGlobalCommands { application_id: _ } => Method::Put,
            Route::DeleteGlobalCommand { application_id: _, command_id: _ } => Method::Delete,
            Route::GetGuildCommands { application_id: _, guild_id: _ } => Method::Get,
            Route::CreateGuildCommand { application_id: _, guild_id: _ } => Method::Post,
            Route::BulkOverwriteGuildCommands { application_id: _, guild_id: _ } => Method::Put,
            Route::DeleteGuildCommand { application_id: _, guild_id: _, command_id: _ } => Method::Delete,
            Route::CreateInteractionResponse { interaction_id: _, interaction_token: _ } => Method::Post,
            Route::EditMessage { channel_id: _, message_id: _ } => Method::Patch,
            Route::EditOriginalInteractionResponse { application_id: _, interaction_token: _ } => Method::Patch,
            Route::CreateThread { channel_id: _ } => Method::Post,
            Route::CreateThreadFromMessage { channel_id: _, message_id: _ } => Method::Post,
            Route::JoinThread { thread_id: _ } => Method::Put,
            Route::LeaveThread { thread_id: _ } => Method::Delete,
            Route::AddThreadMember { thread_id: _, user_id: _ } => Method::Put,
            Route::RemoveThreadMember { thread_id: _, user_id: _ } => Method::Delete,
            Route::ListPublicArchivedThreads { channel_id: _ } => Method::Get,
            Route::ListPrivateArchivedThreads { channel_id: _ } => Method::Get,
            Route::ModifyThread { channel_id: _ } => Method::Patch,
            Route::ModifyGuildMember { guild_id: _, user_id: _ } => Method::Patch,
            Route::ListScheduledEvents { guild_id: _ } => Method::Get,
            Route::CreateScheduledEvent { guild_id: _ } => Method::Post,
            Route::GetScheduledEvent { guild_id: _, event_id: _ } => Method::Get,
            Route::ModifyScheduledEvent { guild_id: _, event_id: _ } => Method::Patch,
            Route::DeleteScheduledEvent { guild_id: _, event_id: _ } => Method::Delete,
            Route::ListGuildStickers { guild_id: _ } => Method::Get,
            Route::GetGuildSticker { guild_id: _, sticker_id: _ } => Method::Get,
            Route::CreateGuildSticker { guild_id: _ } => Method::Post,
            Route::ModifyGuildSticker { guild_id: _, sticker_id: _ } => Method::Patch,
            Route::DeleteGuildSticker { guild_id: _, sticker_id: _ } => Method::Delete,
            Route::ListAutoModerationRules { guild_id: _ } => Method::Get,
            Route::GetAutoModerationRule { guild_id: _, rule_id: _ } => Method::Get,
            Route::CreateAutoModerationRule { guild_id: _ } => Method::Post,
            Route::ModifyAutoModerationRule { guild_id: _, rule_id: _ } => Method::Patch,
            Route::DeleteAutoModerationRule { guild_id: _, rule_id: _ } => Method::Delete,
            Route::ListEntitlements { application_id: _ } => Method::Get,
            Route::CreateTestEntitlement { application_id: _ } => Method::Post,
            Route::DeleteTestEntitlement { application_id: _, entitlement_id: _ } => Method::Delete,
            Route::ListSkus { application_id: _ } => Method::Get,
        }
    }

    /// The path of the route below the API base URL.
    pub open spec fn path_spec(&self) -> Seq<char> {
        match *self {
            Route::GetChannel { channel_id } => "/channels/"@ + decimal(channel_id@ as nat),
            Route::CreateMessage { channel_id } => "/channels/"@ + decimal(channel_id@ as nat) + "/messages"@,
            Route::GetMessage { channel_id, message_id } => "/channels/"@ + decimal(channel_id@ as nat) + "/messages/"@ + decimal(message_id@ as nat),
            Route::DeleteMessage { channel_id, message_id } => "/channels/"@ + decimal(channel_id@ as nat) + "/messages/"@ + decimal(message_id@ as nat),
            Route::GetGuild { guild_id } => "/guilds/"@ + decimal(guild_id@ as nat),
            Route::GetGuildMember { guild_id, user_id } => "/guilds/"@ + decimal(guild_id@ as nat) + "/members/"@ + decimal(user_id@ as nat),
            Route::GetCurrentUser => "/users/@me"@,
            Route::GetUser { user_id } => "/users/"@ + decimal(user_id@ as nat),
            Route::GetGatewayBot => "/gateway/bot"@,
            Route::GetGlobalCommands { application_id } => "/applications/"@ + decimal(application_id@ as nat) + "/commands"@,
            Route::CreateGlobalCommand { application_id } => "/applications/"@ + decimal(application_id@ as nat) + "/commands"@,
            Route::BulkOverwriteGlobalCommands { application_id } => "/applications/"@ + decimal(application_id@ as nat) + "/commands"@,
            Route::DeleteGlobalCommand { application_id, command_id } => "/applications/"@ + decimal(application_id@ as nat) + "/commands/"@ + decimal(command_id@ as nat),
            Route::GetGuildCommands { application_id, guild_id } => "/applications/"@ + decimal(application_id@ as nat) + "/guilds/"@ + decimal(guild_id@ as nat) + "/commands"@,
            Route::CreateGuildCommand { application_id, guild_id } => "/applications/"@ + decimal(application_id@ as nat) + "/guilds/"@ + decimal(guild_id@ as nat) + "/commands"@,
            Route::BulkOverwriteGuildCommands { application_id, guild_id } => "/applications/"@ + decimal(application_id@ as nat) + "/guilds/"@ + decimal(guild_id@ as nat) + "/commands"@,
            Route::DeleteGuildCommand { application_id, guild_id, command_id } => "/applications/"@ + decimal(application_id@ as nat) + "/guilds/"@ + decimal(guild_id@ as nat) + "/commands/"@ + decimal(command_id@ as nat),
            Route::CreateInteractionResponse { interaction_id, interaction_token } => "/interactions/"@ + decimal(interaction_id@ as nat) + "/"@ + interaction_token@ + "/callback"@,
            Route::EditMessage { channel_id, message_id } => "/channels/"@ + decimal(channel_id@ as nat) + "/messages/"@ + decimal(message_id@ as nat),
            Route::EditOriginalInteractionResponse { application_id, interaction_token } => "/webhooks/"@ + decimal(application_id@ as nat) + "/"@ + interaction_token@ + "/messages/@original"@,
            Route::CreateThread { channel_id } => "/channels/"@ + decimal(channel_id@ as nat) + "/threads"@,
            Route::CreateThreadFromMessage { channel_id, message_id } => "/channels/"@ + decimal(channel_id@ as nat) + "/messages/"@ + decimal(message_id@ as nat) + "/threads"@,
            Route::JoinThread { thread_id } => "/channels/"@ + decimal(thread_id@ as nat) + "/thread-members/@me"@,
            Route::LeaveThread { thread_id } => "/channels/"@ + decimal(thread_id@ as nat) + "/thread-members/@me"@,
            Route::AddThreadMember { thread_id, user_id } => "/channels/"@ + decimal(thread_id@ as nat) + "/thread-members/"@ + decimal(user_id@ as nat),
            Route::RemoveThreadMember { thread_id, user_id } => "/channels/"@ + decimal(thread_id@ as nat) + "/thread-members/"@ + decimal(user_id@ as nat),
            Route::ListPublicArchivedThreads { channel_id } => "/channels/"@ + decimal(channel_id@ as nat) + "/threads/archived/public"@,
            Route::ListPrivateArchivedThreads { channel_id } => "/channels/"@ + decimal(channel_id@ as nat) + "/threads/archived/private"@,
            Route::ModifyThread { channel_id } => "/channels/"@ + decimal(channel_id@ as nat),
            Route::ModifyGuildMember { guild_id, user_id } => "/guilds/"@ + decimal(guild_id@ as nat) + "/members/"@ + decimal(user_id@ as nat),
            Route::ListScheduledEvents { guild_id } => "/guilds/"@ + decimal(guild_id@ as nat) + "/scheduled-events"@,
            Route::CreateScheduledEvent { guild_id } => "/guilds/"@ + decimal(guild_id@ as nat) + "/scheduled-events"@,
            Route::GetScheduledEvent { guild_id, event_id } => "/guilds/"@ + decimal(guild_id@ as nat) + "/scheduled-events/"@ + decimal(event_id@ as nat),
            Route::ModifyScheduledEvent { guild_id, event_id } => "/guilds/"@ + decimal(guild_id@ as nat) + "/scheduled-events/"@ + decimal(event_id@ as nat),
            Route::DeleteScheduledEvent { guild_id, event_id } => "/guilds/"@ + decimal(guild_id@ as nat) + "/scheduled-events/"@ + decimal(event_id@ as nat),
            Route::ListGuildStickers { guild_id } => "/guilds/"@ + decimal(guild_id@ as nat) + "/stickers"@,
            Route::GetGuildSticker { guild_id, sticker_id } => "/guilds/"@ + decimal(guild_id@ as nat) + "/stickers/"@ + decimal(sticker_id@ as nat),
            Route::CreateGuildSticker { guild_id } => "/guilds/"@ + decimal(guild_id@ as nat) + "/stickers"@,
            Route::ModifyGuildSticker { guild_id, sticker_id } => "/guilds/"@ + decimal(guild_id@ as nat) + "/stickers/"@ + decimal(sticker_id@ as nat),
            Route::DeleteGuildSticker { guild_id, sticker_id } => "/guilds/"@ + decimal(guild_id@ as nat) + "/stickers/"@ + decimal(sticker_id@ as nat),
            Route::ListAutoModerationRules { guild_id } => "/guilds/"@ + decimal(guild_id@ as nat) + "/auto-moderation/rules"@,
            Route::GetAutoModerationRule { guild_id, rule_id } => "/guilds/"@ + decimal(guild_id@ as nat) + "/auto-moderation/rules/"@ + decimal(rule_id@ as nat),
            Route::CreateAutoModerationRule { guild_id } => "/guilds/"@ + decimal(guild_id@ as nat) + "/auto-moderation/rules"@,
            Route::ModifyAutoModerationRule { guild_id, rule_id } => "/guilds/"@ + decimal(guild_id@ as nat) + "/auto-moderation/rules/"@ + decimal(rule_id@ as nat),
            Route::DeleteAutoModerationRule { guild_id, rule_id } => "/guilds/"@ + decimal(guild_id@ as nat) + "/auto-moderation/rules/"@ + decimal(rule_id@ as nat),
            Route::ListEntitlements { application_id } => "/applications/"@ + decimal(application_id@ as nat) + "/entitlements"@,
            Route::CreateTestEntitlement { application_id } => "/applications/"@ + decimal(application_id@ as nat) + "/entitlements"@,
            Route::DeleteTestEntitlement { application_id, entitlement_id } => "/applications/"@ + decimal(application_id@ as nat) + "/entitlements/"@ + decimal(entitlement_id@ as nat),
            Route::ListSkus { application_id } => "/applications/"@ + decimal(application_id@ as nat) + "/skus"@,
        }
    }

    /// The fully-formed URL of the route.
    pub open spec fn url_spec(&self) -> Seq<char> {
        BASE_URL@ + self.path_spec()
    }

    /// The rate-limit bucket identifier of the route.
    pub open spec fn bucket_spec(&self) -> Seq<char> {
        match *self {
            Route::GetChannel { channel_id } => "channel:"@ + decimal(channel_id@ as nat),
            Route::CreateMessage { channel_id } => "channel:"@ + decimal(channel_id@ as nat),
            Route::GetMessage { channel_id, message_id: _ } => "channel:"@ + decimal(channel_id@ as nat),
            Route::DeleteMessage { channel_id, message_id: _ } => "channel:"@ + decimal(channel_id@ as nat),
            Route::GetGuild { guild_id } => "guild:"@ + decimal(guild_id@ as nat),
            Route::GetGuildMember { guild_id, user_id: _ } => "guild:"@ + decimal(guild_id@ as nat),
            Route::GetCurrentUser => "global"@,
            Route::GetUser { user_id: _ } => "global"@,
            Route::GetGatewayBot => "global"@,
            Route::GetGlobalCommands { application_id } => "application:"@ + decimal(application_id@ as nat) + ":commands"@,
            Route::CreateGlobalCommand { application_id } => "application:"@ + decimal(application_id@ as nat) + ":commands"@,
            Route::BulkOverwriteGlobalCommands { application_id } => "application:"@ + decimal(application_id@ as nat) + ":commands"@,
            Route::DeleteGlobalCommand { application_id, command_id: _ } => "application:"@ + decimal(application_id@ as nat) + ":commands"@,
            Route::GetGuildCommands { application_id, guild_id } => "application:"@ + decimal(application_id@ as nat) + ":guild:"@ + decimal(guild_id@ as nat) + ":commands"@,
            Route::CreateGuildCommand { application_id, guild_id } => "application:"@ + decimal(application_id@ as nat) + ":guild:"@ + decimal(guild_id@ as nat) + ":commands"@,
            Route::BulkOverwriteGuildCommands { application_id, guild_id } => "application:"@ + decimal(application_id@ as nat) + ":guild:"@ + decimal(guild_id@ as nat) + ":commands"@,
            Route::DeleteGuildCommand { application_id, guild_id, command_id: _ } => "application:"@ + decimal(application_id@ as nat) + ":guild:"@ + decimal(guild_id@ as nat) + ":commands"@,
            Route::CreateInteractionResponse { interaction_id: _, interaction_token: _ } => "interaction"@,
            Route::EditMessage { channel_id, message_id: _ } => "channel:"@ + decimal(channel_id@ as nat),
            Route::EditOriginalInteractionResponse { application_id, interaction_token: _ } => "webhook:"@ + decimal(application_id@ as nat),
            Route::CreateThread { channel_id } => "channel:"@ + decimal(channel_id@ as nat),
            Route::CreateThreadFromMessage { channel_id, message_id: _ } => "channel:"@ + decimal(channel_id@ as nat),
            Route::JoinThread { thread_id } => "channel:"@ + decimal(thread_id@ as nat),
            Route::LeaveThread { thread_id } => "channel:"@ + decimal(thread_id@ as nat),
            Route::AddThreadMember { thread_id, user_id: _ } => "channel:"@ + decimal(thread_id@ as nat),
            Route::RemoveThreadMember { thread_id, user_id: _ } => "channel:"@ + decimal(thread_id@ as nat),
            Route::ListPublicArchivedThreads { channel_id } => "channel:"@ + decimal(channel_id@ as nat),
            Route::ListPrivateArchivedThreads { channel_id } => "channel:"@ + decimal(channel_id@ as nat),
            Route::ModifyThread { channel_id } => "channel:"@ + decimal(channel_id@ as nat),
            Route::ModifyGuildMember { guild_id, user_id: _ } => "guild:"@ + decimal(guild_id@ as nat),
            Route::ListScheduledEvents { guild_id } => "guild:"@ + decimal(guild_id@ as nat) + ":events"@,
            Route::CreateScheduledEvent { guild_id } => "guild:"@ + decimal(guild_id@ as nat) + ":events"@,
            Route::GetScheduledEvent { guild_id, event_id: _ } => "guild:"@ + decimal(guild_id@ as nat) + ":events"@,
            Route::ModifyScheduledEvent { guild_id, event_id: _ } => "guild:"@ + decimal(guild_id@ as nat) + ":events"@,
            Route::DeleteScheduledEvent { guild_id, event_id: _ } => "guild:"@ + decimal(guild_id@ as nat) + ":events"@,
            Route::ListGuildStickers { guild_id } => "guild:"@ + decimal(guild_id@ as nat) + ":stickers"@,
            Route::GetGuildSticker { guild_id, sticker_id: _ } => "guild:"@ + decimal(guild_id@ as nat) + ":stickers"@,
            Route::CreateGuildSticker { guild_id } => "guild:"@ + decimal(guild_id@ as nat) + ":stickers"@,
            Route::ModifyGuildSticker { guild_id, sticker_id: _ } => "guild:"@ + decimal(guild_id@ as nat) + ":stickers"@,
            Route::DeleteGuildSticker { guild_id, sticker_id: _ } => "guild:"@ + decimal(guild_id@ as nat) + ":stickers"@,
            Route::ListAutoModerationRules { guild_id } => "guild:"@ + decimal(guild_id@ as nat) + ":automod"@,
            Route::GetAutoModerationRule { guild_id, rule_id: _ } => "guild:"@ + decimal(guild_id@ as nat) + ":automod"@,
            Route::CreateAutoModerationRule { guild_id } => "guild:"@ + decimal(guild_id@ as nat) + ":automod"@,
            Route::ModifyAutoModerationRule { guild_id, rule_id: _ } => "guild:"@ + decimal(guild_id@ as nat) + ":automod"@,
            Route::DeleteAutoModerationRule { guild_id, rule_id: _ } => "guild:"@ + decimal(guild_id@ as nat) + ":automod"@,
            Route::ListEntitlements { application_id } => "application:"@ + decimal(application_id@ as nat) + ":entitlements"@,
            Route::CreateTestEntitlement { application_id } => "application:"@ + decimal(application_id@ as nat) + ":entitlements"@,
            Route::DeleteTestEntitlement { application_id, entitlement_id: _ } => "application:"@ + decimal(application_id@ as nat) + ":entitlements"@,
            Route::ListSkus { application_id } => "application:"@ + decimal(application_id@ as nat) + ":entitlements"@,
        }
    }

    /// The HTTP method for this route.
    pub fn method(&self) -> (r: Method)
        ensures
            r == self.method_spec(),
    {
        match self {
            Route::GetChannel { channel_id: _ } => Method::Get,
            Route::CreateMessage { channel_id: _ } => Method::Post,
            Route::GetMessage { channel_id: _, message_id: _ } => Method::Get,
            Route::DeleteMessage { channel_id: _, message_id: _ } => Method::Delete,
            Route::GetGuild { guild_id: _ } => Method::Get,
            Route::GetGuildMember { guild_id: _, user_id: _ } => Method::Get,
            Route::GetCurrentUser => Method::Get,
            Route::GetUser { user_id: _ } => Method::Get,
            Route::GetGatewayBot => Method::Get,
            Route::GetGlobalCommands { application_id: _ } => Method::Get,
            Route::CreateGlobalCommand { application_id: _ } => Method::Post,
            Route::BulkOverwriteGlobalCommands { application_id: _ } => Method::Put,
            Route::DeleteGlobalCommand { application_id: _, command_id: _ } => Method::Delete,
            Route::GetGuildCommands { application_id: _, guild_id: _ } => Method::Get,
            Route::CreateGuildCommand { application_id: _, guild_id: _ } => Method::Post,
            Route::BulkOverwriteGuildCommands { application_id: _, guild_id: _ } => Method::Put,
            Route::DeleteGuildCommand { application_id: _, guild_id: _, command_id: _ } => Method::Delete,
            Route::CreateInteractionResponse { interaction_id: _, interaction_token: _ } => Method::Post,
            Route::EditMessage { channel_id: _, message_id: _ } => Method::Patch,
            Route::EditOriginalInteractionResponse { application_id: _, interaction_token: _ } => Method::Patch,
            Route::CreateThread { channel_id: _ } => Method::Post,
            Route::CreateThreadFromMessage { channel_id: _, message_id: _ } => Method::Post,
            Route::JoinThread { thread_id: _ } => Method::Put,
            Route::LeaveThread { thread_id: _ } => Method::Delete,
            Route::AddThreadMember { thread_id: _, user_id: _ } => Method::Put,
            Route::RemoveThreadMember { thread_id: _, user_id: _ } => Method::Delete,
            Route::ListPublicArchivedThreads { channel_id: _ } => Method::Get,
            Route::ListPrivateArchivedThreads { channel_id: _ } => Method::Get,
            Route::ModifyThread { channel_id: _ } => Method::Patch,
            Route::ModifyGuildMember { guild_id: _, user_id: _ } => Method::Patch,
            Route::ListScheduledEvents { guild_id: _ } => Method::Get,
            Route::CreateScheduledEvent { guild_id: _ } => Method::Post,
            Route::GetScheduledEvent { guild_id: _, event_id: _ } => Method::Get,
            Route::ModifyScheduledEvent { guild_id: _, event_id: _ } => Method::Patch,
            Route::DeleteScheduledEvent { guild_id: _, event_id: _ } => Method::Delete,
            Route::ListGuildStickers { guild_id: _ } => Method::Get,
            Route::GetGuildSticker { guild_id: _, sticker_id: _ } => Method::Get,
            Route::CreateGuildSticker { guild_id: _ } => Method::Post,
            Route::ModifyGuildSticker { guild_id: _, sticker_id: _ } => Method::Patch,
            Route::DeleteGuildSticker { guild_id: _, sticker_id: _ } => Method::Delete,
            Route::ListAutoModerationRules { guild_id: _ } => Method::Get,
            Route::GetAutoModerationRule { guild_id: _, rule_id: _ } => Method::Get,
            Route::CreateAutoModerationRule { guild_id: _ } => Method::Post,
            Route::ModifyAutoModerationRule { guild_id: _, rule_id: _ } => Method::Patch,
            Route::DeleteAutoModerationRule { guild_id: _, rule_id: _ } => Method::Delete,
            Route::ListEntitlements { application_id: _ } => Method::Get,
            Route::CreateTestEntitlement { application_id: _ } => Method::Post,
            Route::DeleteTestEntitlement { application_id: _, entitlement_id: _ } => Method::Delete,
            Route::ListSkus { application_id: _ } => Method::Get,
        }
    }

    /// The fully-formed URL for this route.
    #[verifier::rlimit(40)]
    pub fn url(&self) -> (r: String)
        ensures
            r@ == self.url_spec(),
    {
        match self {
            Route::GetChannel { channel_id } => {
                let mut s = BASE_URL.to_owned();
                s.append("/channels/");
                push_decimal(&mut s, channel_id.get());
                s
            },
            Route::CreateMessage { channel_id } => {
                let mut s = BASE_URL.to_owned();
                s.append("/channels/");
                push_decimal(&mut s, channel_id.get());
                s.append("/messages");
                s
            },
            Route::GetMessage { channel_id, message_id } => {
                let mut s = BASE_URL.to_owned();
                s.append("/channels/");
                push_decimal(&mut s, channel_id.get());
                s.append("/messages/");
                push_decimal(&mut s, message_id.get());
                s
            },
            Route::DeleteMessage { channel_id, message_id } => {
                let mut s = BASE_URL.to_owned();
                s.append("/channels/");
                push_decimal(&mut s, channel_id.get());
                s.append("/messages/");
                push_decimal(&mut s, message_id.get());
                s
            },
            Route::GetGuild { guild_id } => {
                let mut s = BASE_URL.to_owned();
                s.append("/guilds/");
                push_decimal(&mut s, guild_id.get());
                s
            },
            Route::GetGuildMember { guild_id, user_id } => {
                let mut s = BASE_URL.to_owned();
                s.append("/guilds/");
                push_decimal(&mut s, guild_id.get());
                s.append("/members/");
                push_decimal(&mut s, user_id.get());
                s
            },
            Route::GetCurrentUser => {
                let mut s = BASE_URL.to_owned();
                s.append("/users/@me");
                s
            },
            Route::GetUser { user_id } => {
                let mut s = BASE_URL.to_owned();
                s.append("/users/");
                push_decimal(&mut s, user_id.get());
                s
            },
            Route::GetGatewayBot => {
                let mut s = BASE_URL.to_owned();
                s.append("/gateway/bot");
                s
            },
            Route::GetGlobalCommands { application_id } => {
                let mut s = BASE_URL.to_owned();
                s.append("/applications/");
                push_decimal(&mut s, application_id.get());
                s.append("/commands");
                s
            },
            Route::CreateGlobalCommand { application_id } => {
                let mut s = BASE_URL.to_owned();
                s.append("/applications/");
                push_decimal(&mut s, application_id.get());
                s.append("/commands");
                s
            },
            Route::BulkOverwriteGlobalCommands { application_id } => {
                let mut s = BASE_URL.to_owned();
                s.append("/applications/");
                push_decimal(&mut s, application_id.get());
                s.append("/commands");
                s
            },
            Route::DeleteGlobalCommand { application_id, command_id } => {
                let mut s = BASE_URL.to_owned();
                s.append("/applications/");
                push_decimal(&mut s, application_id.get());
                s.append("/commands/");
                push_decimal(&mut s, command_id.get());
                s
            },
            Route::GetGuildCommands { application_id, guild_id } => {
                let mut s = BASE_URL.to_owned();
                s.append("/applications/");
                push_decimal(&mut s, application_id.get());
                s.append("/guilds/");
                push_decimal(&mut s, guild_id.get());
                s.append("/commands");
                s
            },
            Route::CreateGuildCommand { application_id, guild_id } => {
                let mut s = BASE_URL.to_owned();
                s.append("/applications/");
                push_decimal(&mut s, application_id.get());
                s.append("/guilds/");
                push_decimal(&mut s, guild_id.get());
                s.append("/commands");
                s
            },
            Route::BulkOverwriteGuildCommands { application_id, guild_id } => {
                let mut s = BASE_URL.to_owned();
                s.append("/applications/");
                push_decimal(&mut s, application_id.get());
                s.append("/guilds/");
                push_decimal(&mut s, guild_id.get());
                s.append("/commands");
                s
            },
            Route::DeleteGuildCommand { application_id, guild_id, command_id } => {
                let mut s = BASE_URL.to_owned();
                s.append("/applications/");
                push_decimal(&mut s, application_id.get());
                s.append("/guilds/");
                push_decimal(&mut s, guild_id.get());
                s.append("/commands/");
                push_decimal(&mut s, command_id.get());
                s
            },
            Route::CreateInteractionResponse { interaction_id, interaction_token } => {
                let mut s = BASE_URL.to_owned();
                s.append("/interactions/");
                push_decimal(&mut s, interaction_id.get());
                s.append("/");
                s.append(interaction_token.as_str());
                s.append("/callback");
                s
            },
            Route::EditMessage { channel_id, message_id } => {
                let mut s = BASE_URL.to_owned();
                s.append("/channels/");
                push_decimal(&mut s, channel_id.get());
                s.append("/messages/");
                push_decimal(&mut s, message_id.get());
                s
            },
            Route::EditOriginalInteractionResponse { application_id, interaction_token } => {
                let mut s = BASE_URL.to_owned();
                s.append("/webhooks/");
                push_decimal(&mut s, application_id.get());
                s.append("/");
                s.append(interaction_token.as_str());
                s.append("/messages/@original");
                s
            },
            Route::CreateThread { channel_id } => {
                let mut s = BASE_URL.to_owned();
                s.append("/channels/");
                push_decimal(&mut s, channel_id.get());
                s.append("/threads");
                s
            },
            Route::CreateThreadFromMessage { channel_id, message_id } => {
                let mut s = BASE_URL.to_owned();
                s.append("/channels/");
                push_decimal(&mut s, channel_id.get());
                s.append("/messages/");
                push_decimal(&mut s, message_id.get());
                s.append("/threads");
                s
            },
            Route::JoinThread { thread_id } => {
                let mut s = BASE_URL.to_owned();
                s.append("/channels/");
                push_decimal(&mut s, thread_id.get());
                s.append("/thread-members/@me");
                s
            },
            Route::LeaveThread { thread_id } => {
                let mut s = BASE_URL.to_owned();
                s.append("/channels/");
                push_decimal(&mut s, thread_id.get());
                s.append("/thread-members/@me");
                s
            },
            Route::AddThreadMember { thread_id, user_id } => {
                let mut s = BASE_URL.to_owned();
                s.append("/channels/");
                push_decimal(&mut s, thread_id.get());
                s.append("/thread-members/");
                push_decimal(&mut s, user_id.get());
                s
            },
            Route::RemoveThreadMember { thread_id, user_id } => {
                let mut s = BASE_URL.to_owned();
                s.append("/channels/");
                push_decimal(&mut s, thread_id.get());
                s.append("/thread-members/");
                push_decimal(&mut s, user_id.get());
                s
            },
            Route::ListPublicArchivedThreads { channel_id } => {
                let mut s = BASE_URL.to_owned();
                s.append("/channels/");
                push_decimal(&mut s, channel_id.get());
                s.append("/threads/archived/public");
                s
            },
            Route::ListPrivateArchivedThreads { channel_id } => {
                let mut s = BASE_URL.to_owned();
                s.append("/channels/");
                push_decimal(&mut s, channel_id.get());
                s.append("/threads/archived/private");
                s
            },
            Route::ModifyThread { channel_id } => {
                let mut s = BASE_URL.to_owned();
                s.append("/channels/");
                push_decimal(&mut s, channel_id.get());
                s
            },
            Route::ModifyGuildMember { guild_id, user_id } => {
                let mut s = BASE_URL.to_owned();
                s.append("/guilds/");
                push_decimal(&mut s, guild_id.get());
                s.append("/members/");
                push_decimal(&mut s, user_id.get());
                s
            },
            Route::ListScheduledEvents { guild_id } => {
                let mut s = BASE_URL.to_owned();
                s.append("/guilds/");
                push_decimal(&mut s, guild_id.get());
                s.append("/scheduled-events");
                s
            },
            Route::CreateScheduledEvent { guild_id } => {
                let mut s = BASE_URL.to_owned();
                s.append("/guilds/");
                push_decimal(&mut s, guild_id.get());
                s.append("/scheduled-events");
                s
            },
            Route::GetScheduledEvent { guild_id, event_id } => {
                let mut s = BASE_URL.to_owned();
                s.append("/guilds/");
                push_decimal(&mut s, guild_id.get());
                s.append("/scheduled-events/");
                push_decimal(&mut s, event_id.get());
                s
            },
            Route::ModifyScheduledEvent { guild_id, event_id } => {
                let mut s = BASE_URL.to_owned();
                s.append("/guilds/");
                push_decimal(&mut s, guild_id.get());
                s.append("/scheduled-events/");
                push_decimal(&mut s, event_id.get());
                s
            },
            Route::DeleteScheduledEvent { guild_id, event_id } => {
                let mut s = BASE_URL.to_owned();
                s.append("/guilds/");
                push_decimal(&mut s, guild_id.get());
                s.append("/scheduled-events/");
                push_decimal(&mut s, event_id.get());
                s
            },
            Route::ListGuildStickers { guild_id } => {
                let mut s = BASE_URL.to_owned();
                s.append("/guilds/");
                push_decimal(&mut s, guild_id.get());
                s.append("/stickers");
                s
            },
            Route::GetGuildSticker { guild_id, sticker_id } => {
                let mut s = BASE_URL.to_owned();
                s.append("/guilds/");
                push_decimal(&mut s, guild_id.get());
                s.append("/stickers/");
                push_decimal(&mut s, sticker_id.get());
                s
            },
            Route::CreateGuildSticker { guild_id } => {
                let mut s = BASE_URL.to_owned();
                s.append("/guilds/");
                push_decimal(&mut s, guild_id.get());
                s.append("/stickers");
                s
            },
            Route::ModifyGuildSticker { guild_id, sticker_id } => {
                let mut s = BASE_URL.to_owned();
                s.append("/guilds/");
                push_decimal(&mut s, guild_id.get());
                s.append("/stickers/");
                push_decimal(&mut s, sticker_id.get());
                s
            },
            Route::DeleteGuildSticker { guild_id, sticker_id } => {
                let mut s = BASE_URL.to_owned();
                s.append("/guilds/");
                push_decimal(&mut s, guild_id.get());
                s.append("/stickers/");
                push_decimal(&mut s, sticker_id.get());
                s
            },
            Route::ListAutoModerationRules { guild_id } => {
                let mut s = BASE_URL.to_owned();
                s.append("/guilds/");
                push_decimal(&mut s, guild_id.get());
                s.append("/auto-moderation/rules");
                s
            },
            Route::GetAutoModerationRule { guild_id, rule_id } => {
                let mut s = BASE_URL.to_owned();
                s.append("/guilds/");
                push_decimal(&mut s, guild_id.get());
                s.append("/auto-moderation/rules/");
                push_decimal(&mut s, rule_id.get());
                s
            },
            Route::CreateAutoModerationRule { guild_id } => {
                let mut s = BASE_URL.to_owned();
                s.append("/guilds/");
                push_decimal(&mut s, guild_id.get());
                s.append("/auto-moderation/rules");
                s
            },
            Route::ModifyAutoModerationRule { guild_id, rule_id } => {
                let mut s = BASE_URL.to_owned();
                s.append("/guilds/");
                push_decimal(&mut s, guild_id.get());
                s.append("/auto-moderation/rules/");
                push_decimal(&mut s, rule_id.get());
                s
            },
            Route::DeleteAutoModerationRule { guild_id, rule_id } => {
                let mut s = BASE_URL.to_owned();
                s.append("/guilds/");
                push_decimal(&mut s, guild_id.get());
                s.append("/auto-moderation/rules/");
                push_decimal(&mut s, rule_id.get());
                s
            },
            Route::ListEntitlements { application_id } => {
                let mut s = BASE_URL.to_owned();
                s.append("/applications/");
                push_decimal(&mut s, application_id.get());
                s.append("/entitlements");
                s
            },
            Route::CreateTestEntitlement { application_id } => {
                let mut s = BASE_URL.to_owned();
                s.append("/applications/");
                push_decimal(&mut s, application_id.get());
                s.append("/entitlements");
                s
            },
            Route::DeleteTestEntitlement { application_id, entitlement_id } => {
                let mut s = BASE_URL.to_owned();
                s.append("/applications/");
                push_decimal(&mut s, application_id.get());
                s.append("/entitlements/");
                push_decimal(&mut s, entitlement_id.get());
                s
            },
            Route::ListSkus { application_id } => {
                let mut s = BASE_URL.to_owned();
                s.append("/applications/");
                push_decimal(&mut s, application_id.get());
                s.append("/skus");
                s
            },
        }
    }

    /// The rate-limit bucket identifier for this route.
    ///
    /// Discord buckets routes by their major path parameter (channel, guild,
    /// or webhook ID).  This is used as the lookup key of the rate limiter.
    #[verifier::rlimit(40)]
    pub fn bucket(&self) -> (r: String)
        ensures
            r@ == self.bucket_spec(),
    {
        match self {
            Route::GetChannel { channel_id } => {
                let mut s = "channel:".to_owned();
                push_decimal(&mut s, channel_id.get());
                s
            },
            Route::CreateMessage { channel_id } => {
                let mut s = "channel:".to_owned();
                push_decimal(&mut s, channel_id.get());
                s
            },
            Route::GetMessage { channel_id, message_id: _ } => {
                let mut s = "channel:".to_owned();
                push_decimal(&mut s, channel_id.get());
                s
            },
            Route::DeleteMessage { channel_id, message_id: _ } => {
                let mut s = "channel:".to_owned();
                push_decimal(&mut s, channel_id.get());
                s
            },
            Route::GetGuild { guild_id } => {
                let mut s = "guild:".to_owned();
                push_decimal(&mut s, guild_id.get());
                s
            },
            Route::GetGuildMember { guild_id, user_id: _ } => {
                let mut s = "guild:".to_owned();
                push_decimal(&mut s, guild_id.get());
                s
            },
            Route::GetCurrentUser => {
                "global".to_owned()
            },
            Route::GetUser { user_id: _ } => {
                "global".to_owned()
            },
            Route::GetGatewayBot => {
                "global".to_owned()
            },
            Route::GetGlobalCommands { application_id } => {
                let mut s = "application:".to_owned();
                push_decimal(&mut s, application_id.get());
                s.append(":commands");
                s
            },
            Route::CreateGlobalCommand { application_id } => {
                let mut s = "application:".to_owned();
                push_decimal(&mut s, application_id.get());
                s.append(":commands");
                s
            },
            Route::BulkOverwriteGlobalCommands { application_id } => {
                let mut s = "application:".to_owned();
                push_decimal(&mut s, application_id.get());
                s.append(":commands");
                s
            },
            Route::DeleteGlobalCommand { application_id, command_id: _ } => {
                let mut s = "application:".to_owned();
                push_decimal(&mut s, application_id.get());
                s.append(":commands");
                s
            },
            Route::GetGuildCommands { application_id, guild_id } => {
                let mut s = "application:".to_owned();
                push_decimal(&mut s, application_id.get());
                s.append(":guild:");
                push_decimal(&mut s, guild_id.get());
                s.append(":commands");
                s
            },
            Route::CreateGuildCommand { application_id, guild_id } => {
                let mut s = "application:".to_owned();
                push_decimal(&mut s, application_id.get());
                s.append(":guild:");
                push_decimal(&mut s, guild_id.get());
                s.append(":commands");
                s
            },
            Route::BulkOverwriteGuildCommands { application_id, guild_id } => {
                let mut s = "application:".to_owned();
                push_decimal(&mut s, application_id.get());
                s.append(":guild:");
                push_decimal(&mut s, guild_id.get());
                s.append(":commands");
                s
            },
            Route::DeleteGuildCommand { application_id, guild_id, command_id: _ } => {
                let mut s = "application:".to_owned();
                push_decimal(&mut s, application_id.get());
                s.append(":guild:");
                push_decimal(&mut s, guild_id.get());
                s.append(":commands");
                s
            },
            Route::CreateInteractionResponse { interaction_id: _, interaction_token: _ } => {
                "interaction".to_owned()
            },
            Route::EditMessage { channel_id, message_id: _ } => {
                let mut s = "channel:".to_owned();
                push_decimal(&mut s, channel_id.get());
                s
            },
            Route::EditOriginalInteractionResponse { application_id, interaction_token: _ } => {
                let mut s = "webhook:".to_owned();
                push_decimal(&mut s, application_id.get());
                s
            },
            Route::CreateThread { channel_id } => {
                let mut s = "channel:".to_owned();
                push_decimal(&mut s, channel_id.get());
                s
            },
            Route::CreateThreadFromMessage { channel_id, message_id: _ } => {
                let mut s = "channel:".to_owned();
                push_decimal(&mut s, channel_id.get());
                s
            },
            Route::JoinThread { thread_id } => {
                let mut s = "channel:".to_owned();
                push_decimal(&mut s, thread_id.get());
                s
            },
            Route::LeaveThread { thread_id } => {
                let mut s = "channel:".to_owned();
                push_decimal(&mut s, thread_id.get());
                s
            },
            Route::AddThreadMember { thread_id, user_id: _ } => {
                let mut s = "channel:".to_owned();
                push_decimal(&mut s, thread_id.get());
                s
            },
            Route::RemoveThreadMember { thread_id, user_id: _ } => {
                let mut s = "channel:".to_owned();
                push_decimal(&mut s, thread_id.get());
                s
            },
            Route::ListPublicArchivedThreads { channel_id } => {
                let mut s = "channel:".to_owned();
                push_decimal(&mut s, channel_id.get());
                s
            },
            Route::ListPrivateArchivedThreads { channel_id } => {
                let mut s = "channel:".to_owned();
                push_decimal(&mut s, channel_id.get());
                s
            },
            Route::ModifyThread { channel_id } => {
                let mut s = "channel:".to_owned();
                push_decimal(&mut s, channel_id.get());
                s
            },
            Route::ModifyGuildMember { guild_id, user_id: _ } => {
                let mut s = "guild:".to_owned();
                push_decimal(&mut s, guild_id.get());
                s
            },
            Route::ListScheduledEvents { guild_id } => {
                let mut s = "guild:".to_owned();
                push_decimal(&mut s, guild_id.get());
                s.append(":events");
                s
            },
            Route::CreateScheduledEvent { guild_id } => {
                let mut s = "guild:".to_owned();
                push_decimal(&mut s, guild_id.get());
                s.append(":events");
                s
            },
            Route::GetScheduledEvent { guild_id, event_id: _ } => {
                let mut s = "guild:".to_owned();
                push_decimal(&mut s, guild_id.get());
                s.append(":events");
                s
            },
            Route::ModifyScheduledEvent { guild_id, event_id: _ } => {
                let mut s = "guild:".to_owned();
                push_decimal(&mut s, guild_id.get());
                s.append(":events");
                s
            },
            Route::DeleteScheduledEvent { guild_id, event_id: _ } => {
                let mut s = "guild:".to_owned();
                push_decimal(&mut s, guild_id.get());
                s.append(":events");
                s
            },
            Route::ListGuildStickers { guild_id } => {
                let mut s = "guild:".to_owned();
                push_decimal(&mut s, guild_id.get());
                s.append(":stickers");
                s
            },
            Route::GetGuildSticker { guild_id, sticker_id: _ } => {
                let mut s = "guild:".to_owned();
                push_decimal(&mut s, guild_id.get());
                s.append(":stickers");
                s
            },
            Route::CreateGuildSticker { guild_id } => {
                let mut s = "guild:".to_owned();
                push_decimal(&mut s, guild_id.get());
                s.append(":stickers");
                s
            },
            Route::ModifyGuildSticker { guild_id, sticker_id: _ } => {
                let mut s = "guild:".to_owned();
                push_decimal(&mut s, guild_id.get());
                s.append(":stickers");
                s
            },
            Route::DeleteGuildSticker { guild_id, sticker_id: _ } => {
                let mut s = "guild:".to_owned();
                push_decimal(&mut s, guild_id.get());
                s.append(":stickers");
                s
            },
            Route::ListAutoModerationRules { guild_id } => {
                let mut s = "guild:".to_owned();
                push_decimal(&mut s, guild_id.get());
                s.append(":automod");
                s
            },
            Route::GetAutoModerationRule { guild_id, rule_id: _ } => {
                let mut s = "guild:".to_owned();
                push_decimal(&mut s, guild_id.get());
                s.append(":automod");
                s
            },
            Route::CreateAutoModerationRule { guild_id } => {
                let mut s = "guild:".to_owned();
                push_decimal(&mut s, guild_id.get());
                s.append(":automod");
                s
            },
            Route::ModifyAutoModerationRule { guild_id, rule_id: _ } => {
                let mut s = "guild:".to_owned();
                push_decimal(&mut s, guild_id.get());
                s.append(":automod");
                s
            },
            Route::DeleteAutoModerationRule { guild_id, rule_id: _ } => {
                let mut s = "guild:".to_owned();
                push_decimal(&mut s, guild_id.get());
                s.append(":automod");
                s
            },
            Route::ListEntitlements { application_id } => {
                let mut s = "application:".to_owned();
                push_decimal(&mut s, application_id.get());
                s.append(":entitlements");
                s
            },
            Route::CreateTestEntitlement { application_id } => {
                let mut s = "application:".to_owned();
                push_decimal(&mut s, application_id.get());
                s.append(":entitlements");
                s
            },
            Route::DeleteTestEntitlement { application_id, entitlement_id: _ } => {
                let mut s = "application:".to_owned();
                push_decimal(&mut s, application_id.get());
                s.append(":entitlements");
                s
            },
            Route::ListSkus { application_id } => {
                let mut s = "application:".to_owned();
                push_decimal(&mut s, application_id.get());
                s.append(":entitlements");
                s
            },
        }
    }

    /// The channel (or thread) a route acts on, for the routes bucketed by channel.
    pub open spec fn channel_of(&self) -> Option<Snowflake> {
        match *self {
            Route::GetChannel { channel_id } => Some(channel_id),
            Route::CreateMessage { channel_id } => Some(channel_id),
            Route::GetMessage { channel_id, message_id: _ } => Some(channel_id),
            Route::DeleteMessage { channel_id, message_id: _ } => Some(channel_id),
            Route::EditMessage { channel_id, message_id: _ } => Some(channel_id),
            Route::CreateThread { channel_id } => Some(channel_id),
            Route::CreateThreadFromMessage { channel_id, message_id: _ } => Some(channel_id),
            Route::JoinThread { thread_id } => Some(thread_id),
            Route::LeaveThread { thread_id } => Some(thread_id),
            Route::AddThreadMember { thread_id, user_id: _ } => Some(thread_id),
            Route::RemoveThreadMember { thread_id, user_id: _ } => Some(thread_id),
            Route::ListPublicArchivedThreads { channel_id } => Some(channel_id),
            Route::ListPrivateArchivedThreads { channel_id } => Some(channel_id),
            Route::ModifyThread { channel_id } => Some(channel_id),
            _ => None,
        }
    }

    /// The guild a route acts on, for the routes bucketed by guild alone.
    pub open spec fn guild_of(&self) -> Option<Snowflake> {
        match *self {
            Route::GetGuild { guild_id } => Some(guild_id),
            Route::GetGuildMember { guild_id, user_id: _ } => Some(guild_id),
            Route::ModifyGuildMember { guild_id, user_id: _ } => Some(guild_id),
            _ => None,
        }
    }
}

/// The resource whose rate limit a route counts against.
pub enum BucketScope {
    /// A channel or thread, by ID.
    Channel(u64),
    /// A guild itself and its members, by guild ID.
    Guild(u64),
    /// A guild's scheduled events, by guild ID.
    GuildEvents(u64),
    /// A guild's stickers, by guild ID.
    GuildStickers(u64),
    /// A guild's auto-moderation rules, by guild ID.
    GuildAutomod(u64),
    /// Routes limited only by the global limit.
    Global,
    /// An application's global commands, by application ID.
    Commands(u64),
    /// An application's commands in one guild, by application and guild ID.
    GuildCommands(u64, u64),
    /// An application's entitlements and SKUs, by application ID.
    Entitlements(u64),
    /// Interaction callbacks.
    Interaction,
    /// An application's interaction webhook, by application ID.
    Webhook(u64),
}

impl Route {
    /// The resource whose rate limit the route counts against: the channel,
    /// guild or application it acts on, narrowed to the kind of item where
    /// Discord limits those separately.
    pub open spec fn bucket_scope(&self) -> BucketScope {
        match *self {
            Route::GetChannel { channel_id } => BucketScope::Channel(channel_id@),
            Route::CreateMessage { channel_id } => BucketScope::Channel(channel_id@),
            Route::GetMessage { channel_id, message_id: _ } => BucketScope::Channel(channel_id@),
            Route::DeleteMessage { channel_id, message_id: _ } => BucketScope::Channel(channel_id@),
            Route::GetGuild { guild_id } => BucketScope::Guild(guild_id@),
            Route::GetGuildMember { guild_id, user_id: _ } => BucketScope::Guild(guild_id@),
            Route::GetCurrentUser => BucketScope::Global,
            Route::GetUser { user_id: _ } => BucketScope::Global,
            Route::GetGatewayBot => BucketScope::Global,
            Route::GetGlobalCommands { application_id } => BucketScope::Commands(application_id@),
            Route::CreateGlobalCommand { application_id } => BucketScope::Commands(application_id@),
            Route::BulkOverwriteGlobalCommands { application_id } => BucketScope::Commands(application_id@),
            Route::DeleteGlobalCommand { application_id, command_id: _ } => BucketScope::Commands(application_id@),
            Route::GetGuildCommands { application_id, guild_id } => BucketScope::GuildCommands(application_id@, guild_id@),
            Route::CreateGuildCommand { application_id, guild_id } => BucketScope::GuildCommands(application_id@, guild_id@),
            Route::BulkOverwriteGuildCommands { application_id, guild_id } => BucketScope::GuildCommands(application_id@, guild_id@),
            Route::DeleteGuildCommand { application_id, guild_id, command_id: _ } => BucketScope::GuildCommands(application_id@, guild_id@),
            Route::CreateInteractionResponse { interaction_id: _, interaction_token: _ } => BucketScope::Interaction,
            Route::EditMessage { channel_id, message_id: _ } => BucketScope::Channel(channel_id@),
            Route::EditOriginalInteractionResponse { application_id, interaction_token: _ } => BucketScope::Webhook(application_id@),
            Route::CreateThread { channel_id } => BucketScope::Channel(channel_id@),
            Route::CreateThreadFromMessage { channel_id, message_id: _ } => BucketScope::Channel(channel_id@),
            Route::JoinThread { thread_id } => BucketScope::Channel(thread_id@),
            Route::LeaveThread { thread_id } => BucketScope::Channel(thread_id@),
            Route::AddThreadMember { thread_id, user_id: _ } => BucketScope::Channel(thread_id@),
            Route::RemoveThreadMember { thread_id, user_id: _ } => BucketScope::Channel(thread_id@),
            Route::ListPublicArchivedThreads { channel_id } => BucketScope::Channel(channel_id@),
            Route::ListPrivateArchivedThreads { channel_id } => BucketScope::Channel(channel_id@),
            Route::ModifyThread { channel_id } => BucketScope::Channel(channel_id@),
            Route::ModifyGuildMember { guild_id, user_id: _ } => BucketScope::Guild(guild_id@),
            Route::ListScheduledEvents { guild_id } => BucketScope::GuildEvents(guild_id@),
            Route::CreateScheduledEvent { guild_id } => BucketScope::GuildEvents(guild_id@),
            Route::GetScheduledEvent { guild_id, event_id: _ } => BucketScope::GuildEvents(guild_id@),
            Route::ModifyScheduledEvent { guild_id, event_id: _ } => BucketScope::GuildEvents(guild_id@),
            Route::DeleteScheduledEvent { guild_id, event_id: _ } => BucketScope::GuildEvents(guild_id@),
            Route::ListGuildStickers { guild_id } => BucketScope::GuildStickers(guild_id@),
            Route::GetGuildSticker { guild_id, sticker_id: _ } => BucketScope::GuildStickers(guild_id@),
            Route::CreateGuildSticker { guild_id } => BucketScope::GuildStickers(guild_id@),
            Route::ModifyGuildSticker { guild_id, sticker_id: _ } => BucketScope::GuildStickers(guild_id@),
            Route::DeleteGuildSticker { guild_id, sticker_id: _ } => BucketScope::GuildStickers(guild_id@),
            Route::ListAutoModerationRules { guild_id } => BucketScope::GuildAutomod(guild_id@),
            Route::GetAutoModerationRule { guild_id, rule_id: _ } => BucketScope::GuildAutomod(guild_id@),
            Route::CreateAutoModerationRule { guild_id } => BucketScope::GuildAutomod(guild_id@),
            Route::ModifyAutoModerationRule { guild_id, rule_id: _ } => BucketScope::GuildAutomod(guild_id@),
            Route::DeleteAutoModerationRule { guild_id, rule_id: _ } => BucketScope::GuildAutomod(guild_id@),
            Route::ListEntitlements { application_id } => BucketScope::Entitlements(application_id@),
            Route::CreateTestEntitlement { application_id } => BucketScope::Entitlements(application_id@),
            Route::DeleteTestEntitlement { application_id, entitlement_id: _ } => BucketScope::Entitlements(application_id@),
            Route::ListSkus { application_id } => BucketScope::Entitlements(application_id@),
        }
    }
}

/// How a bucket identifier names its scope.
spec fn scope_text(s: BucketScope) -> Seq<char> {
    match s {
        BucketScope::Channel(c) => "channel:"@ + decimal(c as nat),
        BucketScope::Guild(g) => "guild:"@ + decimal(g as nat),
        BucketScope::GuildEvents(g) => "guild:"@ + decimal(g as nat) + ":events"@,
        BucketScope::GuildStickers(g) => "guild:"@ + decimal(g as nat) + ":stickers"@,
        BucketScope::GuildAutomod(g) => "guild:"@ + decimal(g as nat) + ":automod"@,
        BucketScope::Global => "global"@,
        BucketScope::Commands(a) => "application:"@ + decimal(a as nat) + ":commands"@,
        BucketScope::GuildCommands(a, g) => "application:"@ + decimal(a as nat) + ":guild:"@ + decimal(g as nat) + ":commands"@,
        BucketScope::Entitlements(a) => "application:"@ + decimal(a as nat) + ":entitlements"@,
        BucketScope::Interaction => "interaction"@,
        BucketScope::Webhook(a) => "webhook:"@ + decimal(a as nat),
    }
}

/// Whether a scope carries an ID.
spec fn scope_has_id(s: BucketScope) -> bool {
    !(s is Global) && !(s is Interaction)
}

/// The fixed text a scope's identifier starts with.
spec fn scope_prefix(s: BucketScope) -> Seq<char> {
    match s {
        BucketScope::Channel(_) => "channel:"@,
        BucketScope::Guild(_) => "guild:"@,
        BucketScope::GuildEvents(_) => "guild:"@,
        BucketScope::GuildStickers(_) => "guild:"@,
        BucketScope::GuildAutomod(_) => "guild:"@,
        BucketScope::Global => "global"@,
        BucketScope::Commands(_) => "application:"@,
        BucketScope::GuildCommands(_, _) => "application:"@,
        BucketScope::Entitlements(_) => "application:"@,
        BucketScope::Interaction => "interaction"@,
        BucketScope::Webhook(_) => "webhook:"@,
    }
}

/// The first ID a scope carries.
spec fn scope_id(s: BucketScope) -> nat {
    match s {
        BucketScope::Channel(c) => c as nat,
        BucketScope::Guild(g) => g as nat,
        BucketScope::GuildEvents(g) => g as nat,
        BucketScope::GuildStickers(g) => g as nat,
        BucketScope::GuildAutomod(g) => g as nat,
        BucketScope::Commands(a) => a as nat,
        BucketScope::GuildCommands(a, _) => a as nat,
        BucketScope::Entitlements(a) => a as nat,
        BucketScope::Webhook(a) => a as nat,
        _ => 0,
    }
}

/// What follows a scope's first ID in its identifier.
spec fn scope_tail(s: BucketScope) -> Seq<char> {
    match s {
        BucketScope::GuildEvents(_) => ":events"@,
        BucketScope::GuildStickers(_) => ":stickers"@,
        BucketScope::GuildAutomod(_) => ":automod"@,
        BucketScope::Commands(_) => ":commands"@,
        BucketScope::GuildCommands(_, g) => ":guild:"@ + decimal(g as nat) + ":commands"@,
        BucketScope::Entitlements(_) => ":entitlements"@,
        _ => Seq::empty(),
    }
}

/// Every bucket identifier names the route's scope.
proof fn lemma_bucket_names_scope(r: Route)
    ensures
        r.bucket_spec() == scope_text(r.bucket_scope()),
{
}

/// A scope's identifier is its prefix, then (for a scope with an ID) the
/// ID in decimal and the tail.
proof fn lemma_scope_text_parts(s: BucketScope)
    ensures
        scope_has_id(s) ==> scope_text(s) == scope_prefix(s) + (decimal(scope_id(s)) + scope_tail(s)),
        !scope_has_id(s) ==> scope_text(s) == scope_prefix(s),
        scope_tail(s).len() > 0 ==> scope_tail(s)[0] == ':',
        scope_prefix(s).len() >= 2,
{
    reveal_strlit(":events");
    reveal_strlit(":stickers");
    reveal_strlit(":automod");
    reveal_strlit(":commands");
    reveal_strlit(":guild:");
    reveal_strlit(":entitlements");
    reveal_strlit("channel:");
    reveal_strlit("guild:");
    reveal_strlit("global");
    reveal_strlit("application:");
    reveal_strlit("interaction");
    reveal_strlit("webhook:");
    let p = scope_prefix(s);
    let d = decimal(scope_id(s));
    let t = scope_tail(s);
    if scope_has_id(s) {
        assert(scope_text(s) =~= p + (d + t));
    }
    if t.len() > 0 {
        assert(t[0] == ':');
    }
}

/// Distinct scopes are named by distinct identifiers.
proof fn lemma_scope_text_injective(s1: BucketScope, s2: BucketScope)
    requires
        scope_text(s1) == scope_text(s2),
    ensures
        s1 == s2,
{
    lemma_scope_text_parts(s1);
    lemma_scope_text_parts(s2);
    reveal_strlit(":events");
    reveal_strlit(":stickers");
    reveal_strlit(":automod");
    reveal_strlit(":commands");
    reveal_strlit(":guild:");
    reveal_strlit(":entitlements");
    reveal_strlit("channel:");
    reveal_strlit("guild:");
    reveal_strlit("global");
    reveal_strlit("application:");
    reveal_strlit("interaction");
    reveal_strlit("webhook:");
    let t = scope_text(s1);
    let p1 = scope_prefix(s1);
    let p2 = scope_prefix(s2);
    assert(t[0] == p1[0] && t[1] == p1[1]);
    assert(t[0] == p2[0] && t[1] == p2[1]);
    assert(p1 == p2);
    if scope_has_id(s1) && scope_has_id(s2) {
        let d1 = decimal(scope_id(s1));
        let d2 = decimal(scope_id(s2));
        let t1 = scope_tail(s1);
        let t2 = scope_tail(s2);
        lemma_cancel_prefix(p1, d1 + t1, d2 + t2);
        lemma_decimal_split(scope_id(s1), scope_id(s2), t1, t2);
        if let BucketScope::GuildCommands(_, g1) = s1 {
            let dg1 = decimal(g1 as nat);
            assert(t1 =~= ":guild:"@ + (dg1 + ":commands"@));
            assert(t1[1] == 'g');
            if let BucketScope::GuildCommands(_, g2) = s2 {
                let dg2 = decimal(g2 as nat);
                assert(t2 =~= ":guild:"@ + (dg2 + ":commands"@));
                lemma_cancel_prefix(":guild:"@, dg1 + ":commands"@, dg2 + ":commands"@);
                lemma_decimal_split(g1 as nat, g2 as nat, ":commands"@, ":commands"@);
            }
        }
    }
}

/// Routes share a rate-limit bucket exactly when they count against the
/// same scope: all routes on one channel or thread, on one guild and its
/// members, on one guild's scheduled events, stickers or auto-moderation
/// rules, on one application's global commands, on one application's
/// commands in one guild, or on one application's entitlements.  Routes
/// on different channels, guilds or applications, or on different kinds of
/// item, never share a bucket; in particular the commands of an application
/// in one guild are limited apart from its global commands and from its
/// commands in every other guild.
pub proof fn lemma_bucket_is_scope(r1: Route, r2: Route)
    ensures
        r1.bucket_spec() == r2.bucket_spec() <==> r1.bucket_scope() == r2.bucket_scope(),
{
    lemma_bucket_names_scope(r1);
    lemma_bucket_names_scope(r2);
    if r1.bucket_spec() == r2.bucket_spec() {
        lemma_scope_text_injective(r1.bucket_scope(), r2.bucket_scope());
    }
}

/// Routes that act on the same channel or thread share one rate-limit
/// bucket, whatever they do with it; so do the routes on a guild itself and
/// its members.
pub proof fn lemma_major_parameter_shares_bucket(a: Route, b: Route)
    ensures
        a.channel_of() is Some && a.channel_of() == b.channel_of() ==> a.bucket_spec() == b.bucket_spec(),
        a.guild_of() is Some && a.guild_of() == b.guild_of() ==> a.bucket_spec() == b.bucket_spec(),
{
}

/// Every route's URL lies under the API base URL.
pub proof fn lemma_url_under_base(r: Route)
    ensures
        r.url_spec().subrange(0, BASE_URL@.len() as int) == BASE_URL@,
{
    assert(r.url_spec().subrange(0, BASE_URL@.len() as int) =~= BASE_URL@);
}

/// The URL of every channel, message and thread route: the API base
/// URL, then `/channels/` and the channel (or thread) ID, then the
/// documented sub-path with the message or user ID in its place.
pub proof fn lemma_channel_route_urls(c: Snowflake, m: Snowflake, u: Snowflake)
    ensures
        (Route::GetChannel { channel_id: c }).url_spec() == BASE_URL@ + "/channels/"@ + decimal(c@ as nat),
        (Route::ModifyThread { channel_id: c }).url_spec() == BASE_URL@ + "/channels/"@ + decimal(c@ as nat),
        (Route::CreateMessage { channel_id: c }).url_spec() == BASE_URL@ + "/channels/"@ + decimal(c@ as nat) + "/messages"@,
        (Route::GetMessage { channel_id: c, message_id: m }).url_spec() == BASE_URL@ + "/channels/"@ + decimal(c@ as nat) + "/messages/"@ + decimal(m@ as nat),
        (Route::DeleteMessage { channel_id: c, message_id: m }).url_spec() == BASE_URL@ + "/channels/"@ + decimal(c@ as nat) + "/messages/"@ + decimal(m@ as nat),
        (Route::EditMessage { channel_id: c, message_id: m }).url_spec() == BASE_URL@ + "/channels/"@ + decimal(c@ as nat) + "/messages/"@ + decimal(m@ as nat),
        (Route::CreateThread { channel_id: c }).url_spec() == BASE_URL@ + "/channels/"@ + decimal(c@ as nat) + "/threads"@,
        (Route::CreateThreadFromMessage { channel_id: c, message_id: m }).url_spec() == BASE_URL@ + "/channels/"@ + decimal(c@ as nat) + "/messages/"@ + decimal(m@ as nat) + "/threads"@,
        (Route::JoinThread { thread_id: c }).url_spec() == BASE_URL@ + "/channels/"@ + decimal(c@ as nat) + "/thread-members/@me"@,
        (Route::LeaveThread { thread_id: c }).url_spec() == BASE_URL@ + "/channels/"@ + decimal(c@ as nat) + "/thread-members/@me"@,
        (Route::AddThreadMember { thread_id: c, user_id: u }).url_spec() == BASE_URL@ + "/channels/"@ + decimal(c@ as nat) + "/thread-members/"@ + decimal(u@ as nat),
        (Route::RemoveThreadMember { thread_id: c, user_id: u }).url_spec() == BASE_URL@ + "/channels/"@ + decimal(c@ as nat) + "/thread-members/"@ + decimal(u@ as nat),
        (Route::ListPublicArchivedThreads { channel_id: c }).url_spec() == BASE_URL@ + "/channels/"@ + decimal(c@ as nat) + "/threads/archived/public"@,
        (Route::ListPrivateArchivedThreads { channel_id: c }).url_spec() == BASE_URL@ + "/channels/"@ + decimal(c@ as nat) + "/threads/archived/private"@,
{
    assert((Route::GetChannel { channel_id: c }).url_spec() =~= BASE_URL@ + "/channels/"@ + decimal(c@ as nat));
    assert((Route::ModifyThread { channel_id: c }).url_spec() =~= BASE_URL@ + "/channels/"@ + decimal(c@ as nat));
    assert((Route::CreateMessage { channel_id: c }).url_spec() =~= BASE_URL@ + "/channels/"@ + decimal(c@ as nat) + "/messages"@);
    assert((Route::GetMessage { channel_id: c, message_id: m }).url_spec() =~= BASE_URL@ + "/channels/"@ + decimal(c@ as nat) + "/messages/"@ + decimal(m@ as nat));
    assert((Route::DeleteMessage { channel_id: c, message_id: m }).url_spec() =~= BASE_URL@ + "/channels/"@ + decimal(c@ as nat) + "/messages/"@ + decimal(m@ as nat));
    assert((Route::EditMessage { channel_id: c, message_id: m }).url_spec() =~= BASE_URL@ + "/channels/"@ + decimal(c@ as nat) + "/messages/"@ + decimal(m@ as nat));
    assert((Route::CreateThread { channel_id: c }).url_spec() =~= BASE_URL@ + "/channels/"@ + decimal(c@ as nat) + "/threads"@);
    assert((Route::CreateThreadFromMessage { channel_id: c, message_id: m }).url_spec() =~= BASE_URL@ + "/channels/"@ + decimal(c@ as nat) + "/messages/"@ + decimal(m@ as nat) + "/threads"@);
    assert((Route::JoinThread { thread_id: c }).url_spec() =~= BASE_URL@ + "/channels/"@ + decimal(c@ as nat) + "/thread-members/@me"@);
    assert((Route::LeaveThread { thread_id: c }).url_spec() =~= BASE_URL@ + "/channels/"@ + decimal(c@ as nat) + "/thread-members/@me"@);
    assert((Route::AddThreadMember { thread_id: c, user_id: u }).url_spec() =~= BASE_URL@ + "/channels/"@ + decimal(c@ as nat) + "/thread-members/"@ + decimal(u@ as nat));
    assert((Route::RemoveThreadMember { thread_id: c, user_id: u }).url_spec() =~= BASE_URL@ + "/channels/"@ + decimal(c@ as nat) + "/thread-members/"@ + decimal(u@ as nat));
    assert((Route::ListPublicArchivedThreads { channel_id: c }).url_spec() =~= BASE_URL@ + "/channels/"@ + decimal(c@ as nat) + "/threads/archived/public"@);
    assert((Route::ListPrivateArchivedThreads { channel_id: c }).url_spec() =~= BASE_URL@ + "/channels/"@ + decimal(c@ as nat) + "/threads/archived/private"@);
}

/// The URL of every guild route: the API base URL, then `/guilds/` and the
/// guild ID, then the documented sub-path (members, scheduled events,
/// stickers, auto-moderation rules) with the member's or item's ID in its
/// place.
pub proof fn lemma_guild_route_urls(g: Snowflake, u: Snowflake, x: Snowflake)
    ensures
        (Route::GetGuild { guild_id: g }).url_spec() == BASE_URL@ + "/guilds/"@ + decimal(g@ as nat),
        (Route::GetGuildMember { guild_id: g, user_id: u }).url_spec() == BASE_URL@ + "/guilds/"@ + decimal(g@ as nat) + "/members/"@ + decimal(u@ as nat),
        (Route::ModifyGuildMember { guild_id: g, user_id: u }).url_spec() == BASE_URL@ + "/guilds/"@ + decimal(g@ as nat) + "/members/"@ + decimal(u@ as nat),
        (Route::ListScheduledEvents { guild_id: g }).url_spec() == BASE_URL@ + "/guilds/"@ + decimal(g@ as nat) + "/scheduled-events"@,
        (Route::CreateScheduledEvent { guild_id: g }).url_spec() == BASE_URL@ + "/guilds/"@ + decimal(g@ as nat) + "/scheduled-events"@,
        (Route::GetScheduledEvent { guild_id: g, event_id: x }).url_spec() == BASE_URL@ + "/guilds/"@ + decimal(g@ as nat) + "/scheduled-events/"@ + decimal(x@ as nat),
        (Route::ModifyScheduledEvent { guild_id: g, event_id: x }).url_spec() == BASE_URL@ + "/guilds/"@ + decimal(g@ as nat) + "/scheduled-events/"@ + decimal(x@ as nat),
        (Route::DeleteScheduledEvent { guild_id: g, event_id: x }).url_spec() == BASE_URL@ + "/guilds/"@ + decimal(g@ as nat) + "/scheduled-events/"@ + decimal(x@ as nat),
        (Route::ListGuildStickers { guild_id: g }).url_spec() == BASE_URL@ + "/guilds/"@ + decimal(g@ as nat) + "/stickers"@,
        (Route::CreateGuildSticker { guild_id: g }).url_spec() == BASE_URL@ + "/guilds/"@ + decimal(g@ as nat) + "/stickers"@,
        (Route::GetGuildSticker { guild_id: g, sticker_id: x }).url_spec() == BASE_URL@ + "/guilds/"@ + decimal(g@ as nat) + "/stickers/"@ + decimal(x@ as nat),
        (Route::ModifyGuildSticker { guild_id: g, sticker_id: x }).url_spec() == BASE_URL@ + "/guilds/"@ + decimal(g@ as nat) + "/stickers/"@ + decimal(x@ as nat),
        (Route::DeleteGuildSticker { guild_id: g, sticker_id: x }).url_spec() == BASE_URL@ + "/guilds/"@ + decimal(g@ as nat) + "/stickers/"@ + decimal(x@ as nat),
        (Route::ListAutoModerationRules { guild_id: g }).url_spec() == BASE_URL@ + "/guilds/"@ + decimal(g@ as nat) + "/auto-moderation/rules"@,
        (Route::CreateAutoModerationRule { guild_id: g }).url_spec() == BASE_URL@ + "/guilds/"@ + decimal(g@ as nat) + "/auto-moderation/rules"@,
        (Route::GetAutoModerationRule { guild_id: g, rule_id: x }).url_spec() == BASE_URL@ + "/guilds/"@ + decimal(g@ as nat) + "/auto-moderation/rules/"@ + decimal(x@ as nat),
        (Route::ModifyAutoModerationRule { guild_id: g, rule_id: x }).url_spec() == BASE_URL@ + "/guilds/"@ + decimal(g@ as nat) + "/auto-moderation/rules/"@ + decimal(x@ as nat),
        (Route::DeleteAutoModerationRule { guild_id: g, rule_id: x }).url_spec() == BASE_URL@ + "/guilds/"@ + decimal(g@ as nat) + "/auto-moderation/rules/"@ + decimal(x@ as nat),
{
    assert((Route::GetGuild { guild_id: g }).url_spec() =~= BASE_URL@ + "/guilds/"@ + decimal(g@ as nat));
    assert((Route::GetGuildMember { guild_id: g, user_id: u }).url_spec() =~= BASE_URL@ + "/guilds/"@ + decimal(g@ as nat) + "/members/"@ + decimal(u@ as nat));
    assert((Route::ModifyGuildMember { guild_id: g, user_id: u }).url_spec() =~= BASE_URL@ + "/guilds/"@ + decimal(g@ as nat) + "/members/"@ + decimal(u@ as nat));
    assert((Route::ListScheduledEvents { guild_id: g }).url_spec() =~= BASE_URL@ + "/guilds/"@ + decimal(g@ as nat) + "/scheduled-events"@);
    assert((Route::CreateScheduledEvent { guild_id: g }).url_spec() =~= BASE_URL@ + "/guilds/"@ + decimal(g@ as nat) + "/scheduled-events"@);
    assert((Route::GetScheduledEvent { guild_id: g, event_id: x }).url_spec() =~= BASE_URL@ + "/guilds/"@ + decimal(g@ as nat) + "/scheduled-events/"@ + decimal(x@ as nat));
    assert((Route::ModifyScheduledEvent { guild_id: g, event_id: x }).url_spec() =~= BASE_URL@ + "/guilds/"@ + decimal(g@ as nat) + "/scheduled-events/"@ + decimal(x@ as nat));
    assert((Route::DeleteScheduledEvent { guild_id: g, event_id: x }).url_spec() =~= BASE_URL@ + "/guilds/"@ + decimal(g@ as nat) + "/scheduled-events/"@ + decimal(x@ as nat));
    assert((Route::ListGuildStickers { guild_id: g }).url_spec() =~= BASE_URL@ + "/guilds/"@ + decimal(g@ as nat) + "/stickers"@);
    assert((Route::CreateGuildSticker { guild_id: g }).url_spec() =~= BASE_URL@ + "/guilds/"@ + decimal(g@ as nat) + "/stickers"@);
    assert((Route::GetGuildSticker { guild_id: g, sticker_id: x }).url_spec() =~= BASE_URL@ + "/guilds/"@ + decimal(g@ as nat) + "/stickers/"@ + decimal(x@ as nat));
    assert((Route::ModifyGuildSticker { guild_id: g, sticker_id: x }).url_spec() =~= BASE_URL@ + "/guilds/"@ + decimal(g@ as nat) + "/stickers/"@ + decimal(x@ as nat));
    assert((Route::DeleteGuildSticker { guild_id: g, sticker_id: x }).url_spec() =~= BASE_URL@ + "/guilds/"@ + decimal(g@ as nat) + "/stickers/"@ + decimal(x@ as nat));
    assert((Route::ListAutoModerationRules { guild_id: g }).url_spec() =~= BASE_URL@ + "/guilds/"@ + decimal(g@ as nat) + "/auto-moderation/rules"@);
    assert((Route::CreateAutoModerationRule { guild_id: g }).url_spec() =~= BASE_URL@ + "/guilds/"@ + decimal(g@ as nat) + "/auto-moderation/rules"@);
    assert((Route::GetAutoModerationRule { guild_id: g, rule_id: x }).url_spec() =~= BASE_URL@ + "/guilds/"@ + decimal(g@ as nat) + "/auto-moderation/rules/"@ + decimal(x@ as nat));
    assert((Route::ModifyAutoModerationRule { guild_id: g, rule_id: x }).url_spec() =~= BASE_URL@ + "/guilds/"@ + decimal(g@ as nat) + "/auto-moderation/rules/"@ + decimal(x@ as nat));
    assert((Route::DeleteAutoModerationRule { guild_id: g, rule_id: x }).url_spec() =~= BASE_URL@ + "/guilds/"@ + decimal(g@ as nat) + "/auto-moderation/rules/"@ + decimal(x@ as nat));
}

/// The URL of every application route: the API base URL, then
/// `/applications/` and the application ID, then for guild commands
/// `/guilds/` and the guild ID, then the documented sub-path with the
/// command's or entitlement's ID in its place.
pub proof fn lemma_application_route_urls(a: Snowflake, g: Snowflake, x: Snowflake)
    ensures
        (Route::GetGlobalCommands { application_id: a }).url_spec() == BASE_URL@ + "/applications/"@ + decimal(a@ as nat) + "/commands"@,
        (Route::CreateGlobalCommand { application_id: a }).url_spec() == BASE_URL@ + "/applications/"@ + decimal(a@ as nat) + "/commands"@,
        (Route::BulkOverwriteGlobalCommands { application_id: a }).url_spec() == BASE_URL@ + "/applications/"@ + decimal(a@ as nat) + "/commands"@,
        (Route::DeleteGlobalCommand { application_id: a, command_id: x }).url_spec() == BASE_URL@ + "/applications/"@ + decimal(a@ as nat) + "/commands/"@ + decimal(x@ as nat),
        (Route::GetGuildCommands { application_id: a, guild_id: g }).url_spec() == BASE_URL@ + "/applications/"@ + decimal(a@ as nat) + "/guilds/"@ + decimal(g@ as nat) + "/commands"@,
        (Route::CreateGuildCommand { application_id: a, guild_id: g }).url_spec() == BASE_URL@ + "/applications/"@ + decimal(a@ as nat) + "/guilds/"@ + decimal(g@ as nat) + "/commands"@,
        (Route::BulkOverwriteGuildCommands { application_id: a, guild_id: g }).url_spec() == BASE_URL@ + "/applications/"@ + decimal(a@ as nat) + "/guilds/"@ + decimal(g@ as nat) + "/commands"@,
        (Route::DeleteGuildCommand { application_id: a, guild_id: g, command_id: x }).url_spec() == BASE_URL@ + "/applications/"@ + decimal(a@ as nat) + "/guilds/"@ + decimal(g@ as nat) + "/commands/"@ + decimal(x@ as nat),
        (Route::ListEntitlements { application_id: a }).url_spec() == BASE_URL@ + "/applications/"@ + decimal(a@ as nat) + "/entitlements"@,
        (Route::CreateTestEntitlement { application_id: a }).url_spec() == BASE_URL@ + "/applications/"@ + decimal(a@ as nat) + "/entitlements"@,
        (Route::DeleteTestEntitlement { application_id: a, entitlement_id: x }).url_spec() == BASE_URL@ + "/applications/"@ + decimal(a@ as nat) + "/entitlements/"@ + decimal(x@ as nat),
        (Route::ListSkus { application_id: a }).url_spec() == BASE_URL@ + "/applications/"@ + decimal(a@ as nat) + "/skus"@,
{
    assert((Route::GetGlobalCommands { application_id: a }).url_spec() =~= BASE_URL@ + "/applications/"@ + decimal(a@ as nat) + "/commands"@);
    assert((Route::CreateGlobalCommand { application_id: a }).url_spec() =~= BASE_URL@ + "/applications/"@ + decimal(a@ as nat) + "/commands"@);
    assert((Route::BulkOverwriteGlobalCommands { application_id: a }).url_spec() =~= BASE_URL@ + "/applications/"@ + decimal(a@ as nat) + "/commands"@);
    assert((Route::DeleteGlobalCommand { application_id: a, command_id: x }).url_spec() =~= BASE_URL@ + "/applications/"@ + decimal(a@ as nat) + "/commands/"@ + decimal(x@ as nat));
    assert((Route::GetGuildCommands { application_id: a, guild_id: g }).url_spec() =~= BASE_URL@ + "/applications/"@ + decimal(a@ as nat) + "/guilds/"@ + decimal(g@ as nat) + "/commands"@);
    assert((Route::CreateGuildCommand { application_id: a, guild_id: g }).url_spec() =~= BASE_URL@ + "/applications/"@ + decimal(a@ as nat) + "/guilds/"@ + decimal(g@ as nat) + "/commands"@);
    assert((Route::BulkOverwriteGuildCommands { application_id: a, guild_id: g }).url_spec() =~= BASE_URL@ + "/applications/"@ + decimal(a@ as nat) + "/guilds/"@ + decimal(g@ as nat) + "/commands"@);
    assert((Route::DeleteGuildCommand { application_id: a, guild_id: g, command_id: x }).url_spec() =~= BASE_URL@ + "/applications/"@ + decimal(a@ as nat) + "/guilds/"@ + decimal(g@ as nat) + "/commands/"@ + decimal(x@ as nat));
    assert((Route::ListEntitlements { application_id: a }).url_spec() =~= BASE_URL@ + "/applications/"@ + decimal(a@ as nat) + "/entitlements"@);
    assert((Route::CreateTestEntitlement { application_id: a }).url_spec() =~= BASE_URL@ + "/applications/"@ + decimal(a@ as nat) + "/entitlements"@);
    assert((Route::DeleteTestEntitlement { application_id: a, entitlement_id: x }).url_spec() =~= BASE_URL@ + "/applications/"@ + decimal(a@ as nat) + "/entitlements/"@ + decimal(x@ as nat));
    assert((Route::ListSkus { application_id: a }).url_spec() =~= BASE_URL@ + "/applications/"@ + decimal(a@ as nat) + "/skus"@);
}

/// The URL of the user, gateway and interaction-callback routes: the API
/// base URL followed by the documented path, with the ID and the
/// interaction token in their places.
pub proof fn lemma_user_route_urls(u: Snowflake, i: Snowflake, token: String)
    ensures
        (Route::GetCurrentUser).url_spec() == BASE_URL@ + "/users/@me"@,
        (Route::GetUser { user_id: u }).url_spec() == BASE_URL@ + "/users/"@ + decimal(u@ as nat),
        (Route::GetGatewayBot).url_spec() == BASE_URL@ + "/gateway/bot"@,
        (Route::CreateInteractionResponse { interaction_id: i, interaction_token: token }).url_spec() == BASE_URL@ + "/interactions/"@ + decimal(i@ as nat) + "/"@ + token@ + "/callback"@,
        (Route::EditOriginalInteractionResponse { application_id: i, interaction_token: token }).url_spec() == BASE_URL@ + "/webhooks/"@ + decimal(i@ as nat) + "/"@ + token@ + "/messages/@original"@,
{
    assert((Route::GetCurrentUser).url_spec() =~= BASE_URL@ + "/users/@me"@);
    assert((Route::GetUser { user_id: u }).url_spec() =~= BASE_URL@ + "/users/"@ + decimal(u@ as nat));
    assert((Route::GetGatewayBot).url_spec() =~= BASE_URL@ + "/gateway/bot"@);
    assert((Route::CreateInteractionResponse { interaction_id: i, interaction_token: token }).url_spec() =~= BASE_URL@ + "/interactions/"@ + decimal(i@ as nat) + "/"@ + token@ + "/callback"@);
    assert((Route::EditOriginalInteractionResponse { application_id: i, interaction_token: token }).url_spec() =~= BASE_URL@ + "/webhooks/"@ + decimal(i@ as nat) + "/"@ + token@ + "/messages/@original"@);
}

/// Routes nest as Discord's resources do: the URL of a sub-resource is the
/// URL of the resource it belongs to, extended by its own segment and ID;
/// and the routes that act on one resource with different methods (get,
/// create, modify, delete, overwrite, join and leave) share its URL, with
/// each ID in its own place.
pub proof fn lemma_route_urls_nest(c: Snowflake, m: Snowflake, g: Snowflake, u: Snowflake, a: Snowflake, x: Snowflake)
    ensures
        (Route::CreateMessage { channel_id: c }).url_spec() == (Route::GetChannel { channel_id: c }).url_spec() + "/messages"@,
        (Route::GetMessage { channel_id: c, message_id: m }).url_spec() == (Route::CreateMessage { channel_id: c }).url_spec() + "/"@ + decimal(m@ as nat),
        (Route::CreateThreadFromMessage { channel_id: c, message_id: m }).url_spec() == (Route::GetMessage { channel_id: c, message_id: m }).url_spec() + "/threads"@,
        (Route::CreateThread { channel_id: c }).url_spec() == (Route::GetChannel { channel_id: c }).url_spec() + "/threads"@,
        (Route::ListPublicArchivedThreads { channel_id: c }).url_spec() == (Route::CreateThread { channel_id: c }).url_spec() + "/archived/public"@,
        (Route::ListPrivateArchivedThreads { channel_id: c }).url_spec() == (Route::CreateThread { channel_id: c }).url_spec() + "/archived/private"@,
        (Route::JoinThread { thread_id: c }).url_spec() == (Route::GetChannel { channel_id: c }).url_spec() + "/thread-members/@me"@,
        (Route::AddThreadMember { thread_id: c, user_id: u }).url_spec() == (Route::GetChannel { channel_id: c }).url_spec() + "/thread-members/"@ + decimal(u@ as nat),
        (Route::GetGuildMember { guild_id: g, user_id: u }).url_spec() == (Route::GetGuild { guild_id: g }).url_spec() + "/members/"@ + decimal(u@ as nat),
        (Route::ListScheduledEvents { guild_id: g }).url_spec() == (Route::GetGuild { guild_id: g }).url_spec() + "/scheduled-events"@,
        (Route::GetScheduledEvent { guild_id: g, event_id: x }).url_spec() == (Route::ListScheduledEvents { guild_id: g }).url_spec() + "/"@ + decimal(x@ as nat),
        (Route::ListGuildStickers { guild_id: g }).url_spec() == (Route::GetGuild { guild_id: g }).url_spec() + "/stickers"@,
        (Route::GetGuildSticker { guild_id: g, sticker_id: x }).url_spec() == (Route::ListGuildStickers { guild_id: g }).url_spec() + "/"@ + decimal(x@ as nat),
        (Route::ListAutoModerationRules { guild_id: g }).url_spec() == (Route::GetGuild { guild_id: g }).url_spec() + "/auto-moderation/rules"@,
        (Route::GetAutoModerationRule { guild_id: g, rule_id: x }).url_spec() == (Route::ListAutoModerationRules { guild_id: g }).url_spec() + "/"@ + decimal(x@ as nat),
        (Route::DeleteGlobalCommand { application_id: a, command_id: x }).url_spec() == (Route::GetGlobalCommands { application_id: a }).url_spec() + "/"@ + decimal(x@ as nat),
        (Route::DeleteGuildCommand { application_id: a, guild_id: g, command_id: x }).url_spec() == (Route::GetGuildCommands { application_id: a, guild_id: g }).url_spec() + "/"@ + decimal(x@ as nat),
        (Route::DeleteTestEntitlement { application_id: a, entitlement_id: x }).url_spec() == (Route::ListEntitlements { application_id: a }).url_spec() + "/"@ + decimal(x@ as nat),
        (Route::ModifyThread { channel_id: c }).url_spec() == (Route::GetChannel { channel_id: c }).url_spec(),
        (Route::DeleteMessage { channel_id: c, message_id: m }).url_spec() == (Route::GetMessage { channel_id: c, message_id: m }).url_spec(),
        (Route::EditMessage { channel_id: c, message_id: m }).url_spec() == (Route::GetMessage { channel_id: c, message_id: m }).url_spec(),
        (Route::LeaveThread { thread_id: c }).url_spec() == (Route::JoinThread { thread_id: c }).url_spec(),
        (Route::RemoveThreadMember { thread_id: c, user_id: u }).url_spec() == (Route::AddThreadMember { thread_id: c, user_id: u }).url_spec(),
        (Route::ModifyGuildMember { guild_id: g, user_id: u }).url_spec() == (Route::GetGuildMember { guild_id: g, user_id: u }).url_spec(),
        (Route::CreateScheduledEvent { guild_id: g }).url_spec() == (Route::ListScheduledEvents { guild_id: g }).url_spec(),
        (Route::ModifyScheduledEvent { guild_id: g, event_id: x }).url_spec() == (Route::GetScheduledEvent { guild_id: g, event_id: x }).url_spec(),
        (Route::DeleteScheduledEvent { guild_id: g, event_id: x }).url_spec() == (Route::GetScheduledEvent { guild_id: g, event_id: x }).url_spec(),
        (Route::CreateGuildSticker { guild_id: g }).url_spec() == (Route::ListGuildStickers { guild_id: g }).url_spec(),
        (Route::ModifyGuildSticker { guild_id: g, sticker_id: x }).url_spec() == (Route::GetGuildSticker { guild_id: g, sticker_id: x }).url_spec(),
        (Route::DeleteGuildSticker { guild_id: g, sticker_id: x }).url_spec() == (Route::GetGuildSticker { guild_id: g, sticker_id: x }).url_spec(),
        (Route::CreateAutoModerationRule { guild_id: g }).url_spec() == (Route::ListAutoModerationRules { guild_id: g }).url_spec(),
        (Route::ModifyAutoModerationRule { guild_id: g, rule_id: x }).url_spec() == (Route::GetAutoModerationRule { guild_id: g, rule_id: x }).url_spec(),
        (Route::DeleteAutoModerationRule { guild_id: g, rule_id: x }).url_spec() == (Route::GetAutoModerationRule { guild_id: g, rule_id: x }).url_spec(),
        (Route::CreateGlobalCommand { application_id: a }).url_spec() == (Route::GetGlobalCommands { application_id: a }).url_spec(),
        (Route::BulkOverwriteGlobalCommands { application_id: a }).url_spec() == (Route::GetGlobalCommands { application_id: a }).url_spec(),
        (Route::CreateGuildCommand { application_id: a, guild_id: g }).url_spec() == (Route::GetGuildCommands { application_id: a, guild_id: g }).url_spec(),
        (Route::BulkOverwriteGuildCommands { application_id: a, guild_id: g }).url_spec() == (Route::GetGuildCommands { application_id: a, guild_id: g }).url_spec(),
        (Route::CreateTestEntitlement { application_id: a }).url_spec() == (Route::ListEntitlements { application_id: a }).url_spec(),
{
    reveal_strlit("/messages/");
    reveal_strlit("/messages");
    reveal_strlit("/");
    reveal_strlit("/threads/archived/public");
    reveal_strlit("/threads");
    reveal_strlit("/archived/public");
    reveal_strlit("/threads/archived/private");
    reveal_strlit("/archived/private");
    reveal_strlit("/scheduled-events/");
    reveal_strlit("/scheduled-events");
    reveal_strlit("/stickers/");
    reveal_strlit("/stickers");
    reveal_strlit("/auto-moderation/rules/");
    reveal_strlit("/auto-moderation/rules");
    reveal_strlit("/commands/");
    reveal_strlit("/commands");
    reveal_strlit("/entitlements/");
    reveal_strlit("/entitlements");
    assert("/messages/"@ =~= "/messages"@ + "/"@);
    assert("/threads/archived/public"@ =~= "/threads"@ + "/archived/public"@);
    assert("/threads/archived/private"@ =~= "/threads"@ + "/archived/private"@);
    assert("/scheduled-events/"@ =~= "/scheduled-events"@ + "/"@);
    assert("/stickers/"@ =~= "/stickers"@ + "/"@);
    assert("/auto-moderation/rules/"@ =~= "/auto-moderation/rules"@ + "/"@);
    assert("/commands/"@ =~= "/commands"@ + "/"@);
    assert("/entitlements/"@ =~= "/entitlements"@ + "/"@);
    assert((Route::CreateMessage { channel_id: c }).url_spec() =~= (Route::GetChannel { channel_id: c }).url_spec() + "/messages"@);
    assert((Route::GetMessage { channel_id: c, message_id: m }).url_spec() =~= (Route::CreateMessage { channel_id: c }).url_spec() + "/"@ + decimal(m@ as nat));
    assert((Route::CreateThreadFromMessage { channel_id: c, message_id: m }).url_spec() =~= (Route::GetMessage { channel_id: c, message_id: m }).url_spec() + "/threads"@);
    assert((Route::CreateThread { channel_id: c }).url_spec() =~= (Route::GetChannel { channel_id: c }).url_spec() + "/threads"@);
    assert((Route::ListPublicArchivedThreads { channel_id: c }).url_spec() =~= (Route::CreateThread { channel_id: c }).url_spec() + "/archived/public"@);
    assert((Route::ListPrivateArchivedThreads { channel_id: c }).url_spec() =~= (Route::CreateThread { channel_id: c }).url_spec() + "/archived/private"@);
    assert((Route::JoinThread { thread_id: c }).url_spec() =~= (Route::GetChannel { channel_id: c }).url_spec() + "/thread-members/@me"@);
    assert((Route::AddThreadMember { thread_id: c, user_id: u }).url_spec() =~= (Route::GetChannel { channel_id: c }).url_spec() + "/thread-members/"@ + decimal(u@ as nat));
    assert((Route::GetGuildMember { guild_id: g, user_id: u }).url_spec() =~= (Route::GetGuild { guild_id: g }).url_spec() + "/members/"@ + decimal(u@ as nat));
    assert((Route::ListScheduledEvents { guild_id: g }).url_spec() =~= (Route::GetGuild { guild_id: g }).url_spec() + "/scheduled-events"@);
    assert((Route::GetScheduledEvent { guild_id: g, event_id: x }).url_spec() =~= (Route::ListScheduledEvents { guild_id: g }).url_spec() + "/"@ + decimal(x@ as nat));
    assert((Route::ListGuildStickers { guild_id: g }).url_spec() =~= (Route::GetGuild { guild_id: g }).url_spec() + "/stickers"@);
    assert((Route::GetGuildSticker { guild_id: g, sticker_id: x }).url_spec() =~= (Route::ListGuildStickers { guild_id: g }).url_spec() + "/"@ + decimal(x@ as nat));
    assert((Route::ListAutoModerationRules { guild_id: g }).url_spec() =~= (Route::GetGuild { guild_id: g }).url_spec() + "/auto-moderation/rules"@);
    assert((Route::GetAutoModerationRule { guild_id: g, rule_id: x }).url_spec() =~= (Route::ListAutoModerationRules { guild_id: g }).url_spec() + "/"@ + decimal(x@ as nat));
    assert((Route::DeleteGlobalCommand { application_id: a, command_id: x }).url_spec() =~= (Route::GetGlobalCommands { application_id: a }).url_spec() + "/"@ + decimal(x@ as nat));
    assert((Route::DeleteGuildCommand { application_id: a, guild_id: g, command_id: x }).url_spec() =~= (Route::GetGuildCommands { application_id: a, guild_id: g }).url_spec() + "/"@ + decimal(x@ as nat));
    assert((Route::DeleteTestEntitlement { application_id: a, entitlement_id: x }).url_spec() =~= (Route::ListEntitlements { application_id: a }).url_spec() + "/"@ + decimal(x@ as nat));
}

/// The bucket identifier of every route: `channel:` and the channel (or
/// thread) ID for the routes on a channel; `guild:` and the guild ID for a
/// guild and its members, followed by `:events`, `:stickers` or
/// `:automod` for those items of the guild; `application:` and the
/// application ID followed by `:commands` for its global commands, by
/// `:guild:`, the guild ID and `:commands` for its commands in that guild,
/// or by `:entitlements` for its entitlements and SKUs; `webhook:` and the
/// application ID for its interaction webhook; `interaction` for
/// interaction callbacks; `global` for the rest.  The ID of the item acted
/// on (message, member, command, ...) and the interaction token play no part.
pub proof fn lemma_route_buckets(c: Snowflake, g: Snowflake, a: Snowflake, x: Snowflake, token: String)
    ensures
        (Route::GetChannel { channel_id: c }).bucket_spec() == "channel:"@ + decimal(c@ as nat),
        (Route::CreateMessage { channel_id: c }).bucket_spec() == "channel:"@ + decimal(c@ as nat),
        (Route::GetMessage { channel_id: c, message_id: x }).bucket_spec() == "channel:"@ + decimal(c@ as nat),
        (Route::DeleteMessage { channel_id: c, message_id: x }).bucket_spec() == "channel:"@ + decimal(c@ as nat),
        (Route::EditMessage { channel_id: c, message_id: x }).bucket_spec() == "channel:"@ + decimal(c@ as nat),
        (Route::CreateThread { channel_id: c }).bucket_spec() == "channel:"@ + decimal(c@ as nat),
        (Route::CreateThreadFromMessage { channel_id: c, message_id: x }).bucket_spec() == "channel:"@ + decimal(c@ as nat),
        (Route::JoinThread { thread_id: c }).bucket_spec() == "channel:"@ + decimal(c@ as nat),
        (Route::LeaveThread { thread_id: c }).bucket_spec() == "channel:"@ + decimal(c@ as nat),
        (Route::AddThreadMember { thread_id: c, user_id: x }).bucket_spec() == "channel:"@ + decimal(c@ as nat),
        (Route::RemoveThreadMember { thread_id: c, user_id: x }).bucket_spec() == "channel:"@ + decimal(c@ as nat),
        (Route::ListPublicArchivedThreads { channel_id: c }).bucket_spec() == "channel:"@ + decimal(c@ as nat),
        (Route::ListPrivateArchivedThreads { channel_id: c }).bucket_spec() == "channel:"@ + decimal(c@ as nat),
        (Route::ModifyThread { channel_id: c }).bucket_spec() == "channel:"@ + decimal(c@ as nat),
        (Route::GetGuild { guild_id: g }).bucket_spec() == "guild:"@ + decimal(g@ as nat),
        (Route::GetGuildMember { guild_id: g, user_id: x }).bucket_spec() == "guild:"@ + decimal(g@ as nat),
        (Route::ModifyGuildMember { guild_id: g, user_id: x }).bucket_spec() == "guild:"@ + decimal(g@ as nat),
        (Route::ListScheduledEvents { guild_id: g }).bucket_spec() == "guild:"@ + decimal(g@ as nat) + ":events"@,
        (Route::CreateScheduledEvent { guild_id: g }).bucket_spec() == "guild:"@ + decimal(g@ as nat) + ":events"@,
        (Route::GetScheduledEvent { guild_id: g, event_id: x }).bucket_spec() == "guild:"@ + decimal(g@ as nat) + ":events"@,
        (Route::ModifyScheduledEvent { guild_id: g, event_id: x }).bucket_spec() == "guild:"@ + decimal(g@ as nat) + ":events"@,
        (Route::DeleteScheduledEvent { guild_id: g, event_id: x }).bucket_spec() == "guild:"@ + decimal(g@ as nat) + ":events"@,
        (Route::ListGuildStickers { guild_id: g }).bucket_spec() == "guild:"@ + decimal(g@ as nat) + ":stickers"@,
        (Route::CreateGuildSticker { guild_id: g }).bucket_spec() == "guild:"@ + decimal(g@ as nat) + ":stickers"@,
        (Route::GetGuildSticker { guild_id: g, sticker_id: x }).bucket_spec() == "guild:"@ + decimal(g@ as nat) + ":stickers"@,
        (Route::ModifyGuildSticker { guild_id: g, sticker_id: x }).bucket_spec() == "guild:"@ + decimal(g@ as nat) + ":stickers"@,
        (Route::DeleteGuildSticker { guild_id: g, sticker_id: x }).bucket_spec() == "guild:"@ + decimal(g@ as nat) + ":stickers"@,
        (Route::ListAutoModerationRules { guild_id: g }).bucket_spec() == "guild:"@ + decimal(g@ as nat) + ":automod"@,
        (Route::CreateAutoModerationRule { guild_id: g }).bucket_spec() == "guild:"@ + decimal(g@ as nat) + ":automod"@,
        (Route::GetAutoModerationRule { guild_id: g, rule_id: x }).bucket_spec() == "guild:"@ + decimal(g@ as nat) + ":automod"@,
        (Route::ModifyAutoModerationRule { guild_id: g, rule_id: x }).bucket_spec() == "guild:"@ + decimal(g@ as nat) + ":automod"@,
        (Route::DeleteAutoModerationRule { guild_id: g, rule_id: x }).bucket_spec() == "guild:"@ + decimal(g@ as nat) + ":automod"@,
        (Route::GetGlobalCommands { application_id: a }).bucket_spec() == "application:"@ + decimal(a@ as nat) + ":commands"@,
        (Route::CreateGlobalCommand { application_id: a }).bucket_spec() == "application:"@ + decimal(a@ as nat) + ":commands"@,
        (Route::BulkOverwriteGlobalCommands { application_id: a }).bucket_spec() == "application:"@ + decimal(a@ as nat) + ":commands"@,
        (Route::DeleteGlobalCommand { application_id: a, command_id: x }).bucket_spec() == "application:"@ + decimal(a@ as nat) + ":commands"@,
        (Route::GetGuildCommands { application_id: a, guild_id: g }).bucket_spec() == "application:"@ + decimal(a@ as nat) + ":guild:"@ + decimal(g@ as nat) + ":commands"@,
        (Route::CreateGuildCommand { application_id: a, guild_id: g }).bucket_spec() == "application:"@ + decimal(a@ as nat) + ":guild:"@ + decimal(g@ as nat) + ":commands"@,
        (Route::BulkOverwriteGuildCommands { application_id: a, guild_id: g }).bucket_spec() == "application:"@ + decimal(a@ as nat) + ":guild:"@ + decimal(g@ as nat) + ":commands"@,
        (Route::DeleteGuildCommand { application_id: a, guild_id: g, command_id: x }).bucket_spec() == "application:"@ + decimal(a@ as nat) + ":guild:"@ + decimal(g@ as nat) + ":commands"@,
        (Route::ListEntitlements { application_id: a }).bucket_spec() == "application:"@ + decimal(a@ as nat) + ":entitlements"@,
        (Route::CreateTestEntitlement { application_id: a }).bucket_spec() == "application:"@ + decimal(a@ as nat) + ":entitlements"@,
        (Route::DeleteTestEntitlement { application_id: a, entitlement_id: x }).bucket_spec() == "application:"@ + decimal(a@ as nat) + ":entitlements"@,
        (Route::ListSkus { application_id: a }).bucket_spec() == "application:"@ + decimal(a@ as nat) + ":entitlements"@,
        (Route::GetCurrentUser).bucket_spec() == "global"@,
        (Route::GetUser { user_id: x }).bucket_spec() == "global"@,
        (Route::GetGatewayBot).bucket_spec() == "global"@,
        (Route::CreateInteractionResponse { interaction_id: x, interaction_token: token }).bucket_spec() == "interaction"@,
        (Route::EditOriginalInteractionResponse { application_id: a, interaction_token: token }).bucket_spec() == "webhook:"@ + decimal(a@ as nat),
{
}

} // verus!
