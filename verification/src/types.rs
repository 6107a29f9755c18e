//! Plain data types mirroring the remote platform's API objects.
//!
//! These are direct field-for-field mappings with no logic of their own; the
//! interesting behaviour lives in the decoder, the request builder and the
//! ingestion subsystems.

use vstd::prelude::*;

verus! {

/// Integer type used by the remote platform for identifiers and counters.
pub type Integer = i64;

/// A user or bot account on the platform.
#[derive(Clone, Debug, PartialEq)]
pub struct User {
    /// Unique identifier of the account.
    pub id: Integer,
    /// True, if the account belongs to a bot.
    pub is_bot: bool,
    /// First name of the user.
    pub first_name: String,
    /// Last name of the user.
    pub last_name: Option<String>,
    /// Username of the user.
    pub username: Option<String>,
    /// Language tag of the user's client, if known.
    pub language_code: Option<String>,
}

/// What kind of conversation a chat is.
#[derive(Clone, Copy, Debug, PartialEq, Eq, Structural)]
pub enum ChatType {
    /// A one-on-one conversation.
    Private,
    /// A basic group.
    Group,
    /// A supergroup.
    Supergroup,
    /// A broadcast channel.
    Channel,
}

/// A conversation the bot takes part in.
#[derive(Clone, Debug, PartialEq)]
pub struct Chat {
    /// Unique identifier of the chat.
    pub id: Integer,
    /// Kind of the chat.
    pub chat_type: ChatType,
    /// Title, for groups, supergroups and channels.
    pub title: Option<String>,
    /// Username, for private chats, supergroups and channels when available.
    pub username: Option<String>,
    /// First name of the other party in a private chat.
    pub first_name: Option<String>,
    /// Last name of the other party in a private chat.
    pub last_name: Option<String>,
}

/// Unique identifier of a target chat: either its numeric id or the username
/// of the target channel.
#[derive(Clone, Debug, PartialEq)]
pub enum ChatId {
    /// The numeric identifier of the chat.
    Id(Integer),
    /// The username of the target channel.
    Username(String),
}

/// A message of any kind sent in a chat.
#[derive(Clone, Debug, PartialEq)]
pub struct Message {
    /// Unique message identifier inside its chat.
    pub id: Integer,
    /// Date the message was sent, as a Unix timestamp.
    pub date: Integer,
    /// Sender, absent for messages posted on behalf of a channel.
    pub from: Option<User>,
    /// Conversation the message belongs to.
    pub chat: Chat,
    /// Text of the message, for text messages.
    pub text: Option<String>,
}

impl Message {
    /// Returns the identifier of the chat the message belongs to.
    pub fn get_chat_id(&self) -> (r: Integer)
        ensures
            r == self.chat.id,
    {
        self.chat.id
    }

    /// Returns the username of the chat the message belongs to, if it has one.
    pub fn get_chat_username(&self) -> (r: Option<&str>)
        ensures
            match self.chat.username {
                Some(u) => r matches Some(s) && s@ == u@,
                None => r is None,
            },
    {
        match &self.chat.username {
            Some(s) => Some(s.as_str()),
            None => None,
        }
    }

    /// Returns the sender of the message, when one is recorded.
    pub fn get_user(&self) -> (r: Option<&User>)
        ensures
            match self.from {
                Some(u) => r matches Some(x) && *x == u,
                None => r is None,
            },
    {
        self.from.as_ref()
    }
}

/// An incoming inline query.
#[derive(Clone, Debug, PartialEq)]
pub struct InlineQuery {
    /// Unique identifier of the query.
    pub id: String,
    /// Sender of the query.
    pub from: User,
    /// Text of the query.
    pub query: String,
    /// Offset of the results to be returned.
    pub offset: String,
}

/// The result of an inline query chosen by a user and sent to their partner.
#[derive(Clone, Debug, PartialEq)]
pub struct ChosenInlineResult {
    /// Identifier of the result that was chosen.
    pub result_id: String,
    /// The user that chose the result.
    pub from: User,
    /// Identifier of the sent inline message, when available.
    pub inline_message_id: Option<String>,
    /// The query that was used to obtain the result.
    pub query: String,
}

/// An incoming callback query from an inline keyboard button.
#[derive(Clone, Debug, PartialEq)]
pub struct CallbackQuery {
    /// Unique identifier of the query.
    pub id: String,
    /// Sender of the query.
    pub from: User,
    /// Message with the button that originated the query, when available.
    pub message: Option<Message>,
    /// Identifier of the inline message that originated the query.
    pub inline_message_id: Option<String>,
    /// Data associated with the pressed button.
    pub data: Option<String>,
}

/// An incoming shipping query, for invoices with flexible price.
#[derive(Clone, Debug, PartialEq)]
pub struct ShippingQuery {
    /// Unique identifier of the query.
    pub id: String,
    /// Sender of the query.
    pub from: User,
    /// Invoice payload the bot specified.
    pub invoice_payload: String,
}

/// An incoming pre-checkout query with full checkout information.
#[derive(Clone, Debug, PartialEq)]
pub struct PreCheckoutQuery {
    /// Unique identifier of the query.
    pub id: String,
    /// Sender of the query.
    pub from: User,
    /// Three-letter currency code.
    pub currency: String,
    /// Total price in the smallest units of the currency.
    pub total_amount: Integer,
    /// Invoice payload the bot specified.
    pub invoice_payload: String,
    /// Identifier of the shipping option chosen by the user.
    pub shipping_option_id: Option<String>,
}

/// One size of a photo or a thumbnail.
#[derive(Clone, Debug, PartialEq)]
pub struct PhotoSize {
    /// Unique identifier for this file.
    pub file_id: String,
    /// Photo width.
    pub width: Integer,
    /// Photo height.
    pub height: Integer,
    /// File size.
    pub file_size: Option<Integer>,
}

/// Audio file to be treated as music by the platform's clients.
#[derive(Clone, Debug, PartialEq)]
pub struct Audio {
    /// Unique identifier for this file.
    pub file_id: String,
    /// Duration of the audio in seconds as defined by sender.
    pub duration: Integer,
    /// Performer of the audio as defined by sender or by audio tags.
    pub performer: Option<String>,
    /// Title of the audio as defined by sender or by audio tags.
    pub title: Option<String>,
    /// MIME type of the file as defined by sender.
    pub mime_type: Option<String>,
    /// File size.
    pub file_size: Option<Integer>,
    /// Thumbnail of the album cover to which the music file belongs.
    pub thumb: Option<PhotoSize>,
}

/// Video file.
#[derive(Clone, Debug, PartialEq)]
pub struct Video {
    /// Unique identifier for this file.
    pub file_id: String,
    /// Video width as defined by sender.
    pub width: Integer,
    /// Video height as defined by sender.
    pub height: Integer,
    /// Duration of the video in seconds as defined by sender.
    pub duration: Integer,
    /// Video thumbnail.
    pub thumb: Option<PhotoSize>,
    /// Mime type of a file as defined by sender.
    pub mime_type: Option<String>,
    /// File size.
    pub file_size: Option<Integer>,
}

} // verus!
