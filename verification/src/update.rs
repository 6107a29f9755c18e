//! The update envelope decoder.
//!
//! An inbound event arrives as an envelope carrying a required identifier and
//! up to nine optional kind fields, of which exactly one is expected to be
//! present. Decoding resolves the envelope into a single tagged update value
//! by testing the kind fields in a fixed precedence order and taking the
//! first one present; co-occurring later fields are ignored deliberately
//! rather than treated as an error.

use vstd::prelude::*;

use crate::errors::DecodeError;
use crate::types::{
    CallbackQuery, ChosenInlineResult, InlineQuery, Integer, Message, PreCheckoutQuery,
    ShippingQuery, User,
};

verus! {

/// The raw shape of an inbound update envelope, after the plain
/// field-for-field mapping from its wire form: the required identifier plus
/// the nine optional kind fields.
#[derive(Clone, Debug, PartialEq)]
pub struct RawUpdate {
    /// The update's unique identifier.
    pub update_id: Integer,
    /// New incoming message of any kind.
    pub message: Option<Message>,
    /// New version of a message that is known to the bot and was edited.
    pub edited_message: Option<Message>,
    /// New incoming channel post of any kind.
    pub channel_post: Option<Message>,
    /// New version of a channel post that is known to the bot and was edited.
    pub edited_channel_post: Option<Message>,
    /// New incoming inline query.
    pub inline_query: Option<InlineQuery>,
    /// The result of an inline query that was chosen by a user.
    pub chosen_inline_result: Option<ChosenInlineResult>,
    /// New incoming callback query.
    pub callback_query: Option<CallbackQuery>,
    /// New incoming shipping query.
    pub shipping_query: Option<ShippingQuery>,
    /// New incoming pre-checkout query.
    pub pre_checkout_query: Option<PreCheckoutQuery>,
}

/// Incoming update.
#[derive(Clone, Debug, PartialEq)]
pub struct Update {
    /// The update's unique identifier.
    ///
    /// Update identifiers start from a certain positive number and increase
    /// sequentially. After long inactivity the remote platform may restart
    /// numbering, so monotonicity is an expected, not an enforced, property.
    pub id: Integer,
    /// Kind of update.
    pub kind: UpdateKind,
}

/// Kind of update: exactly one of the nine event varieties the platform
/// delivers.
#[derive(Clone, Debug, PartialEq)]
pub enum UpdateKind {
    /// New incoming message of any kind.
    Message(Message),
    /// New version of a message that is known to the bot and was edited.
    EditedMessage(Message),
    /// New incoming channel post of any kind.
    ChannelPost(Message),
    /// New version of a channel post that is known to the bot and was edited.
    EditedChannelPost(Message),
    /// New incoming inline query.
    InlineQuery(InlineQuery),
    /// The result of an inline query that was chosen by a user.
    ChosenInlineResult(ChosenInlineResult),
    /// New incoming callback query.
    CallbackQuery(CallbackQuery),
    /// New incoming shipping query.
    ShippingQuery(ShippingQuery),
    /// New incoming pre-checkout query.
    PreCheckoutQuery(PreCheckoutQuery),
}

/// True if the envelope carries none of the nine kind fields.
pub open spec fn spec_no_kind(raw: RawUpdate) -> bool {
    &&& raw.message is None
    &&& raw.edited_message is None
    &&& raw.channel_post is None
    &&& raw.edited_channel_post is None
    &&& raw.inline_query is None
    &&& raw.chosen_inline_result is None
    &&& raw.callback_query is None
    &&& raw.shipping_query is None
    &&& raw.pre_checkout_query is None
}

/// The kind an envelope resolves to: the first kind field present, in the
/// fixed precedence order, or nothing when none is present.
pub open spec fn spec_update_kind(raw: RawUpdate) -> Option<UpdateKind> {
    if raw.message is Some {
        Some(UpdateKind::Message(raw.message->0))
    } else if raw.edited_message is Some {
        Some(UpdateKind::EditedMessage(raw.edited_message->0))
    } else if raw.channel_post is Some {
        Some(UpdateKind::ChannelPost(raw.channel_post->0))
    } else if raw.edited_channel_post is Some {
        Some(UpdateKind::EditedChannelPost(raw.edited_channel_post->0))
    } else if raw.inline_query is Some {
        Some(UpdateKind::InlineQuery(raw.inline_query->0))
    } else if raw.chosen_inline_result is Some {
        Some(UpdateKind::ChosenInlineResult(raw.chosen_inline_result->0))
    } else if raw.callback_query is Some {
        Some(UpdateKind::CallbackQuery(raw.callback_query->0))
    } else if raw.shipping_query is Some {
        Some(UpdateKind::ShippingQuery(raw.shipping_query->0))
    } else if raw.pre_checkout_query is Some {
        Some(UpdateKind::PreCheckoutQuery(raw.pre_checkout_query->0))
    } else {
        None
    }
}

/// What decoding an envelope yields: the update with the envelope's id and
/// the resolved kind, or nothing when no kind field is present.
pub open spec fn spec_decode_update(raw: RawUpdate) -> Option<Update> {
    match spec_update_kind(raw) {
        Some(kind) => Some(Update { id: raw.update_id, kind }),
        None => None,
    }
}

/// Resolves a raw envelope into a single tagged update.
///
/// The nine kind fields are tested in the fixed precedence order — message,
/// edited message, channel post, edited channel post, inline query, chosen
/// inline result, callback query, shipping query, pre-checkout query — and
/// the first one present wins; any further fields are ignored. An envelope
/// with no kind field present is rejected.
pub fn decode_update(raw: RawUpdate) -> (r: Result<Update, DecodeError>)
    ensures
        match spec_decode_update(raw) {
            Some(u) => r == Ok::<Update, DecodeError>(u),
            None => r == Err::<Update, DecodeError>(DecodeError::UnknownKind),
        },
{
    let RawUpdate {
        update_id,
        message,
        edited_message,
        channel_post,
        edited_channel_post,
        inline_query,
        chosen_inline_result,
        callback_query,
        shipping_query,
        pre_checkout_query,
    } = raw;
    let kind = if let Some(data) = message {
        UpdateKind::Message(data)
    } else if let Some(data) = edited_message {
        UpdateKind::EditedMessage(data)
    } else if let Some(data) = channel_post {
        UpdateKind::ChannelPost(data)
    } else if let Some(data) = edited_channel_post {
        UpdateKind::EditedChannelPost(data)
    } else if let Some(data) = inline_query {
        UpdateKind::InlineQuery(data)
    } else if let Some(data) = chosen_inline_result {
        UpdateKind::ChosenInlineResult(data)
    } else if let Some(data) = callback_query {
        UpdateKind::CallbackQuery(data)
    } else if let Some(data) = shipping_query {
        UpdateKind::ShippingQuery(data)
    } else if let Some(data) = pre_checkout_query {
        UpdateKind::PreCheckoutQuery(data)
    } else {
        return Err(DecodeError::UnknownKind);
    };
    Ok(Update { id: update_id, kind })
}

/// The updates a raw batch decodes to: each envelope resolved by the
/// decoder, envelopes with no known kind skipped, order kept.
pub open spec fn spec_decode_batch(s: Seq<RawUpdate>) -> Seq<Update>
    decreases s.len(),
{
    if s.len() == 0 {
        Seq::<Update>::empty()
    } else {
        spec_decode_batch(s.drop_last()) + (match spec_decode_update(s.last()) {
            Some(u) => seq![u],
            None => Seq::<Update>::empty(),
        })
    }
}

/// Decodes a fetched batch of raw envelopes in order. A single malformed
/// envelope is skipped — it does not abort the batch; the embedding logs it.
pub fn decode_batch(raws: Vec<RawUpdate>) -> (r: Vec<Update>)
    ensures
        r@ == spec_decode_batch(raws@),
{
    let ghost all = raws@;
    let mut rest = raws;
    let mut out: Vec<Update> = Vec::new();
    while rest.len() > 0
        invariant
            rest@.len() <= all.len(),
            rest@ == all.skip(all.len() - rest@.len()),
            out@ == spec_decode_batch(all.take(all.len() - rest@.len())),
        decreases rest@.len(),
    {
        let ghost k = all.len() - rest@.len();
        let raw = rest.remove(0);
        proof {
            assert(all.skip(k as int)[0] == all[k as int]);
            assert(raw == all[k as int]);
            assert(rest@ =~= all.skip(k + 1 as int));
        }
        match decode_update(raw) {
            Ok(u) => out.push(u),
            Err(_) => (),
        }
        proof {
            assert(all.take(k + 1 as int).drop_last() =~= all.take(k as int));
            assert(all.take(k + 1 as int).last() == all[k as int]);
            assert(out@ =~= spec_decode_batch(all.take(k + 1 as int)));
        }
    }
    proof {
        assert(all.take(all.len() as int) =~= all);
    }
    out
}

/// Every update decoded from a batch keeps its envelope's identifier, so a
/// bound on the envelope identifiers bounds the decoded ones.
pub proof fn lemma_decode_batch_id_bound(s: Seq<RawUpdate>, bound: int)
    requires
        forall|i: int| 0 <= i < s.len() ==> #[trigger] s[i].update_id < bound,
    ensures
        forall|k: int|
            0 <= k < spec_decode_batch(s).len() ==> #[trigger] spec_decode_batch(s)[k].id < bound,
    decreases s.len(),
{
    if s.len() > 0 {
        let d = s.drop_last();
        assert(forall|i: int| 0 <= i < d.len() ==> #[trigger] d[i].update_id < bound);
        lemma_decode_batch_id_bound(d, bound);
        assert forall|k: int| 0 <= k < spec_decode_batch(s).len() implies #[trigger] spec_decode_batch(
            s,
        )[k].id < bound by {
            if k < spec_decode_batch(d).len() {
                assert(spec_decode_batch(s)[k] == spec_decode_batch(d)[k]);
            } else {
                assert(spec_decode_batch(s)[k].id == s.last().update_id);
            }
        }
    }
}

/// Decoding keeps the batch order: a batch whose envelope identifiers
/// strictly increase is delivered in ascending id order.
pub proof fn lemma_batch_delivered_in_ascending_order(s: Seq<RawUpdate>)
    requires
        forall|i: int, j: int|
            0 <= i < j < s.len() ==> #[trigger] s[i].update_id < #[trigger] s[j].update_id,
    ensures
        forall|i: int, j: int|
            0 <= i < j < spec_decode_batch(s).len() ==> #[trigger] spec_decode_batch(s)[i].id
                < #[trigger] spec_decode_batch(s)[j].id,
    decreases s.len(),
{
    if s.len() == 1 {
        assert(spec_decode_batch(s.drop_last()) == Seq::<Update>::empty());
        assert(spec_decode_batch(s).len() <= 1);
    } else if s.len() > 1 {
        let d = s.drop_last();
        assert(forall|i: int, j: int|
            0 <= i < j < d.len() ==> #[trigger] d[i].update_id < #[trigger] d[j].update_id);
        lemma_batch_delivered_in_ascending_order(d);
        assert(forall|i: int| 0 <= i < d.len() ==> #[trigger] d[i].update_id < s.last().update_id);
        lemma_decode_batch_id_bound(d, s.last().update_id as int);
        assert forall|i: int, j: int|
            0 <= i < j < spec_decode_batch(s).len() implies #[trigger] spec_decode_batch(s)[i].id
            < #[trigger] spec_decode_batch(s)[j].id by {
            if j < spec_decode_batch(d).len() {
                assert(spec_decode_batch(s)[i] == spec_decode_batch(d)[i]);
                assert(spec_decode_batch(s)[j] == spec_decode_batch(d)[j]);
            } else {
                assert(spec_decode_batch(s)[i] == spec_decode_batch(d)[i]);
                assert(spec_decode_batch(s)[j].id == s.last().update_id);
            }
        }
    }
}

/// Decoding fails exactly on the envelopes that carry no kind field, and the
/// failure is the decoder's own error, never a silent default.
pub proof fn lemma_decode_no_kind(raw: RawUpdate)
    ensures
        spec_no_kind(raw) <==> spec_decode_update(raw) is None,
{
}

/// Decoding is deterministic under co-occurring kind fields: whenever the
/// message field is present, the result is that message update, whatever
/// else the envelope carries.
pub proof fn lemma_decode_precedence(raw: RawUpdate)
    requires
        raw.message is Some,
    ensures
        spec_decode_update(raw) == Some(
            Update { id: raw.update_id, kind: UpdateKind::Message(raw.message->0) },
        ),
{
}

impl Update {
    /// The chat identifier an update refers to, when its kind carries a
    /// message: the four message-bearing kinds map to their message's chat,
    /// the five query kinds to nothing.
    pub open spec fn spec_chat_id(self) -> Option<Integer> {
        match self.kind {
            UpdateKind::Message(m) => Some(m.chat.id),
            UpdateKind::EditedMessage(m) => Some(m.chat.id),
            UpdateKind::ChannelPost(m) => Some(m.chat.id),
            UpdateKind::EditedChannelPost(m) => Some(m.chat.id),
            _ => None,
        }
    }

    /// The username of the chat an update refers to, when its kind carries a
    /// message and the chat has one.
    pub open spec fn spec_chat_username(self) -> Option<String> {
        match self.kind {
            UpdateKind::Message(m) => m.chat.username,
            UpdateKind::EditedMessage(m) => m.chat.username,
            UpdateKind::ChannelPost(m) => m.chat.username,
            UpdateKind::EditedChannelPost(m) => m.chat.username,
            _ => None,
        }
    }

    /// The user behind an update: the sender of the carried message for the
    /// four message-bearing kinds, the query's originator for the five query
    /// kinds.
    pub open spec fn spec_user(self) -> Option<User> {
        match self.kind {
            UpdateKind::Message(m) => m.from,
            UpdateKind::EditedMessage(m) => m.from,
            UpdateKind::ChannelPost(m) => m.from,
            UpdateKind::EditedChannelPost(m) => m.from,
            UpdateKind::InlineQuery(q) => Some(q.from),
            UpdateKind::ChosenInlineResult(r) => Some(r.from),
            UpdateKind::CallbackQuery(q) => Some(q.from),
            UpdateKind::ShippingQuery(q) => Some(q.from),
            UpdateKind::PreCheckoutQuery(q) => Some(q.from),
        }
    }

    /// Returns a chat ID from update.
    pub fn get_chat_id(&self) -> (r: Option<Integer>)
        ensures
            r == self.spec_chat_id(),
    {
        match &self.kind {
            UpdateKind::Message(msg)
            | UpdateKind::EditedMessage(msg)
            | UpdateKind::ChannelPost(msg)
            | UpdateKind::EditedChannelPost(msg) => Some(msg.get_chat_id()),
            _ => None,
        }
    }

    /// Returns a chat username from update.
    pub fn get_chat_username(&self) -> (r: Option<&str>)
        ensures
            match self.spec_chat_username() {
                Some(u) => r matches Some(s) && s@ == u@,
                None => r is None,
            },
    {
        match &self.kind {
            UpdateKind::Message(msg)
            | UpdateKind::EditedMessage(msg)
            | UpdateKind::ChannelPost(msg)
            | UpdateKind::EditedChannelPost(msg) => msg.get_chat_username(),
            _ => None,
        }
    }

    /// Returns a user ID from update.
    pub fn get_user(&self) -> (r: Option<&User>)
        ensures
            match self.spec_user() {
                Some(u) => r matches Some(x) && *x == u,
                None => r is None,
            },
    {
        match &self.kind {
            UpdateKind::Message(msg)
            | UpdateKind::EditedMessage(msg)
            | UpdateKind::ChannelPost(msg)
            | UpdateKind::EditedChannelPost(msg) => msg.get_user(),
            UpdateKind::InlineQuery(query) => Some(&query.from),
            UpdateKind::ChosenInlineResult(result) => Some(&result.from),
            UpdateKind::CallbackQuery(query) => Some(&query.from),
            UpdateKind::ShippingQuery(query) => Some(&query.from),
            UpdateKind::PreCheckoutQuery(query) => Some(&query.from),
        }
    }
}

/// Information about the current status of a webhook.
#[derive(Clone, Debug, PartialEq)]
pub struct WebhookInfo {
    /// Webhook URL, may be empty if webhook is not set up.
    pub url: String,
    /// True, if a custom certificate was provided for webhook certificate
    /// checks.
    pub has_custom_certificate: bool,
    /// Number of updates awaiting delivery.
    pub pending_update_count: Integer,
    /// Unix time for the most recent error that happened when trying to
    /// deliver an update via webhook.
    pub last_error_date: Option<Integer>,
    /// Error message in human-readable format for the most recent error that
    /// happened when trying to deliver an update via webhook.
    pub last_error_message: Option<String>,
    /// Maximum allowed number of simultaneous connections to the webhook for
    /// update delivery.
    pub max_connections: Option<Integer>,
    /// A list of update types the bot is subscribed to. Defaults to all
    /// update types.
    pub allowed_updates: Vec<AllowedUpdate>,
}

/// Type of update to receive.
#[derive(Clone, Copy, Debug, PartialEq, Eq, Structural, Hash)]
pub enum AllowedUpdate {
    /// Message.
    Message,
    /// Edited message.
    EditedMessage,
    /// Channel post.
    ChannelPost,
    /// Edited channel post.
    EditedChannelPost,
    /// Inline query.
    InlineQuery,
    /// Chosen inline result.
    ChosenInlineResult,
    /// Callback query.
    CallbackQuery,
    /// Shipping query.
    ShippingQuery,
    /// Pre checkout query.
    PreCheckoutQuery,
}

impl AllowedUpdate {
    /// The wire name of the update type, as the platform spells it.
    pub fn wire_name(&self) -> (r: &'static str)
        ensures
            r@ == self.spec_wire_name()@,
    {
        match self {
            AllowedUpdate::Message => "message",
            AllowedUpdate::EditedMessage => "edited_message",
            AllowedUpdate::ChannelPost => "channel_post",
            AllowedUpdate::EditedChannelPost => "edited_channel_post",
            AllowedUpdate::InlineQuery => "inline_query",
            AllowedUpdate::ChosenInlineResult => "chosen_inline_result",
            AllowedUpdate::CallbackQuery => "callback_query",
            AllowedUpdate::ShippingQuery => "shipping_query",
            AllowedUpdate::PreCheckoutQuery => "pre_checkout_query",
        }
    }

    /// The wire name of each update type.
    pub open spec fn spec_wire_name(self) -> &'static str {
        match self {
            AllowedUpdate::Message => "message",
            AllowedUpdate::EditedMessage => "edited_message",
            AllowedUpdate::ChannelPost => "channel_post",
            AllowedUpdate::EditedChannelPost => "edited_channel_post",
            AllowedUpdate::InlineQuery => "inline_query",
            AllowedUpdate::ChosenInlineResult => "chosen_inline_result",
            AllowedUpdate::CallbackQuery => "callback_query",
            AllowedUpdate::ShippingQuery => "shipping_query",
            AllowedUpdate::PreCheckoutQuery => "pre_checkout_query",
        }
    }
}

} // verus!
