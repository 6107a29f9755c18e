//! Results a bot can answer an inline query with.
//!
//! These are plain data-transfer shapes with no logic of their own; they ride
//! through the request builder as the payload of an answer call. Map
//! coordinates are carried in microdegrees, as whole numbers.

use vstd::prelude::*;

use crate::types::Integer;

verus! {

/// Link to an article or web page.
#[derive(Clone, Debug, PartialEq)]
pub struct InlineQueryResultArticle {
    /// Unique identifier for this result.
    pub id: String,
    /// Title of the result.
    pub title: String,
    /// URL of the result.
    pub url: Option<String>,
}

/// Link to an mp3 audio file.
#[derive(Clone, Debug, PartialEq)]
pub struct InlineQueryResultAudio {
    /// Unique identifier for this result.
    pub id: String,
    /// A valid URL for the audio file.
    pub audio_url: String,
    /// Title of the result.
    pub title: String,
}

/// Link to an mp3 audio file stored on the platform's servers.
#[derive(Clone, Debug, PartialEq)]
pub struct InlineQueryResultCachedAudio {
    /// Unique identifier for this result.
    pub id: String,
    /// A valid file identifier for the audio file.
    pub audio_file_id: String,
}

/// Link to a file stored on the platform's servers.
#[derive(Clone, Debug, PartialEq)]
pub struct InlineQueryResultCachedDocument {
    /// Unique identifier for this result.
    pub id: String,
    /// Title of the result.
    pub title: String,
    /// A valid file identifier for the file.
    pub document_file_id: String,
}

/// Link to an animated GIF file stored on the platform's servers.
#[derive(Clone, Debug, PartialEq)]
pub struct InlineQueryResultCachedGif {
    /// Unique identifier for this result.
    pub id: String,
    /// A valid file identifier for the GIF file.
    pub gif_file_id: String,
    /// Title of the result.
    pub title: Option<String>,
}

/// Link to a video animation (no sound) stored on the platform's servers.
#[derive(Clone, Debug, PartialEq)]
pub struct InlineQueryResultCachedMpeg4Gif {
    /// Unique identifier for this result.
    pub id: String,
    /// A valid file identifier for the animation.
    pub mpeg4_file_id: String,
    /// Title of the result.
    pub title: Option<String>,
}

/// Link to a photo stored on the platform's servers.
#[derive(Clone, Debug, PartialEq)]
pub struct InlineQueryResultCachedPhoto {
    /// Unique identifier for this result.
    pub id: String,
    /// A valid file identifier of the photo.
    pub photo_file_id: String,
    /// Title of the result.
    pub title: Option<String>,
}

/// Link to a sticker stored on the platform's servers.
#[derive(Clone, Debug, PartialEq)]
pub struct InlineQueryResultCachedSticker {
    /// Unique identifier for this result.
    pub id: String,
    /// A valid file identifier of the sticker.
    pub sticker_file_id: String,
}

/// Link to a video file stored on the platform's servers.
#[derive(Clone, Debug, PartialEq)]
pub struct InlineQueryResultCachedVideo {
    /// Unique identifier for this result.
    pub id: String,
    /// A valid file identifier of the video.
    pub video_file_id: String,
    /// Title of the result.
    pub title: String,
}

/// Link to a voice message stored on the platform's servers.
#[derive(Clone, Debug, PartialEq)]
pub struct InlineQueryResultCachedVoice {
    /// Unique identifier for this result.
    pub id: String,
    /// A valid file identifier of the voice message.
    pub voice_file_id: String,
    /// Title of the result.
    pub title: String,
}

/// Contact with a phone number.
#[derive(Clone, Debug, PartialEq)]
pub struct InlineQueryResultContact {
    /// Unique identifier for this result.
    pub id: String,
    /// Contact's phone number.
    pub phone_number: String,
    /// Contact's first name.
    pub first_name: String,
}

/// Link to a file.
#[derive(Clone, Debug, PartialEq)]
pub struct InlineQueryResultDocument {
    /// Unique identifier for this result.
    pub id: String,
    /// Title of the result.
    pub title: String,
    /// A valid URL for the file.
    pub document_url: String,
    /// Mime type of the content of the file.
    pub mime_type: String,
}

/// Game.
#[derive(Clone, Debug, PartialEq)]
pub struct InlineQueryResultGame {
    /// Unique identifier for this result.
    pub id: String,
    /// Short name of the game.
    pub game_short_name: String,
}

/// Link to an animated GIF file.
#[derive(Clone, Debug, PartialEq)]
pub struct InlineQueryResultGif {
    /// Unique identifier for this result.
    pub id: String,
    /// A valid URL for the GIF file.
    pub gif_url: String,
    /// URL of the static thumbnail for the result.
    pub thumb_url: String,
}

/// Location on a map.
#[derive(Clone, Debug, PartialEq)]
pub struct InlineQueryResultLocation {
    /// Unique identifier for this result.
    pub id: String,
    /// Location latitude in microdegrees.
    pub latitude_e6: Integer,
    /// Location longitude in microdegrees.
    pub longitude_e6: Integer,
    /// Location title.
    pub title: String,
}

/// Link to a video animation (no sound).
#[derive(Clone, Debug, PartialEq)]
pub struct InlineQueryResultMpeg4Gif {
    /// Unique identifier for this result.
    pub id: String,
    /// A valid URL for the animation.
    pub mpeg4_url: String,
    /// URL of the static thumbnail for the result.
    pub thumb_url: String,
}

/// Link to a photo.
#[derive(Clone, Debug, PartialEq)]
pub struct InlineQueryResultPhoto {
    /// Unique identifier for this result.
    pub id: String,
    /// A valid URL of the photo.
    pub photo_url: String,
    /// URL of the static thumbnail for the result.
    pub thumb_url: String,
}

/// Venue.
#[derive(Clone, Debug, PartialEq)]
pub struct InlineQueryResultVenue {
    /// Unique identifier for this result.
    pub id: String,
    /// Venue latitude in microdegrees.
    pub latitude_e6: Integer,
    /// Venue longitude in microdegrees.
    pub longitude_e6: Integer,
    /// Title of the venue.
    pub title: String,
    /// Address of the venue.
    pub address: String,
}

/// Link to a page containing an embedded video player or a video file.
#[derive(Clone, Debug, PartialEq)]
pub struct InlineQueryResultVideo {
    /// Unique identifier for this result.
    pub id: String,
    /// A valid URL for the embedded video player or video file.
    pub video_url: String,
    /// Mime type of the content of the video URL.
    pub mime_type: String,
    /// URL of the thumbnail for the video.
    pub thumb_url: String,
    /// Title of the result.
    pub title: String,
}

/// Link to a voice recording.
#[derive(Clone, Debug, PartialEq)]
pub struct InlineQueryResultVoice {
    /// Unique identifier for this result.
    pub id: String,
    /// A valid URL for the voice recording.
    pub voice_url: String,
    /// Title of the result.
    pub title: String,
}

/// Result of an inline query.
#[derive(Clone, Debug, PartialEq)]
pub enum InlineQueryResult {
    /// Link to an article or web page.
    Article(InlineQueryResultArticle),
    /// Link to an mp3 audio file.
    Audio(InlineQueryResultAudio),
    /// Link to an mp3 audio file stored on the platform's servers.
    CachedAudio(InlineQueryResultCachedAudio),
    /// Link to a file stored on the platform's servers.
    CachedDocument(InlineQueryResultCachedDocument),
    /// Link to an animated GIF file stored on the platform's servers.
    CachedGif(InlineQueryResultCachedGif),
    /// Link to a video animation (no sound) stored on the platform's servers.
    CachedMpeg4Gif(InlineQueryResultCachedMpeg4Gif),
    /// Link to a photo stored on the platform's servers.
    CachedPhoto(InlineQueryResultCachedPhoto),
    /// Link to a sticker stored on the platform's servers.
    CachedSticker(InlineQueryResultCachedSticker),
    /// Link to a video file stored on the platform's servers.
    CachedVideo(InlineQueryResultCachedVideo),
    /// Link to a voice message stored on the platform's servers.
    CachedVoice(InlineQueryResultCachedVoice),
    /// Contact with a phone number.
    Contact(InlineQueryResultContact),
    /// Link to a file.
    Document(InlineQueryResultDocument),
    /// Game.
    Game(InlineQueryResultGame),
    /// Link to an animated GIF file.
    Gif(InlineQueryResultGif),
    /// Location on a map.
    Location(InlineQueryResultLocation),
    /// Link to a video animation (no sound).
    Mpeg4Gif(InlineQueryResultMpeg4Gif),
    /// Link to a photo.
    Photo(InlineQueryResultPhoto),
    /// Venue.
    Venue(InlineQueryResultVenue),
    /// Link to a page containing an embedded video player or a video file.
    Video(InlineQueryResultVideo),
    /// Link to a voice recording.
    Voice(InlineQueryResultVoice),
}

} // verus!
