//! Resource families of the API, the envelope their responses share, and the
//! catalogues of field and expansion names that requests can carry.

use vstd::prelude::*;
use vstd::string::StringExecFns;
use crate::text::joined;
use crate::resources::search::SearchMeta;
use crate::resources::user::User;

pub mod search;
pub mod tweet;
pub mod user;

verus! {

/// A value that has a fixed spelling in a query string.
pub trait AsQueryStr {
    /// The spelling, as the API documents it.
    spec fn query_text(&self) -> Seq<char>;

    fn as_str(&self) -> (s: &'static str)
        ensures
            s@ == self.query_text(),
    ;
}

/// The spellings of a sequence of values, in order.
pub open spec fn query_texts<T: AsQueryStr>(items: Seq<T>) -> Seq<Seq<char>> {
    Seq::new(items.len(), |i: int| items[i].query_text())
}

/// Writes the spellings of `items` as one comma-separated list.
pub fn join_query_param_enums_as_string<T: AsQueryStr>(items: &[T]) -> (out: String)
    ensures
        out@ == joined(query_texts(items@), ","@),
{
    let mut out = String::new();
    let mut i: usize = 0;
    while i < items.len()
        invariant
            i <= items.len(),
            out@ == joined(query_texts(items@).take(i as int), ","@),
        decreases items.len() - i,
    {
        proof {
            let done = query_texts(items@).take(i as int);
            crate::text::lemma_joined_push(done, items@[i as int].query_text(), ","@);
            assert(query_texts(items@).take(i + 1) =~= done.push(items@[i as int].query_text()));
        }
        if i > 0 {
            out.append(",");
        }
        out.append(items[i].as_str());
        i += 1;
    }
    assert(query_texts(items@).take(items.len() as int) =~= query_texts(items@));
    out
}
/// A field of a user object that a request can ask for.
#[derive(Debug, Clone)]
pub enum UserField {
    Affiliation,
    ConfirmedEmail,
    ConnectionStatus,
    CreatedAt,
    Description,
    Entities,
    Id,
    IsIdentityVerified,
    Location,
    MostRecentTweetId,
    Name,
    Parody,
    PinnedTweetId,
    ProfileBannerUrl,
    ProfileImageUrl,
    Protected,
    PublicMetrics,
    ReceivesYourDm,
    Subscription,
    SubscriptionType,
    Url,
    Username,
    Verified,
    VerifiedFollowersCount,
    VerifiedType,
    Withheld,
}

impl AsQueryStr for UserField {
    open spec fn query_text(&self) -> Seq<char> {
        match self {
            Self::Affiliation => "affiliation"@,
            Self::ConfirmedEmail => "confirmed_email"@,
            Self::ConnectionStatus => "connection_status"@,
            Self::CreatedAt => "created_at"@,
            Self::Description => "description"@,
            Self::Entities => "entities"@,
            Self::Id => "id"@,
            Self::IsIdentityVerified => "is_identity_verified"@,
            Self::Location => "location"@,
            Self::MostRecentTweetId => "most_recent_tweet_id"@,
            Self::Name => "name"@,
            Self::Parody => "parody"@,
            Self::PinnedTweetId => "pinned_tweet_id"@,
            Self::ProfileBannerUrl => "profile_banner_url"@,
            Self::ProfileImageUrl => "profile_image_url"@,
            Self::Protected => "protected"@,
            Self::PublicMetrics => "public_metrics"@,
            Self::ReceivesYourDm => "receives_your_dm"@,
            Self::Subscription => "subscription"@,
            Self::SubscriptionType => "subscription_type"@,
            Self::Url => "url"@,
            Self::Username => "username"@,
            Self::Verified => "verified"@,
            Self::VerifiedFollowersCount => "verified_followers_count"@,
            Self::VerifiedType => "verified_type"@,
            Self::Withheld => "withheld"@,
        }
    }

    fn as_str(&self) -> (s: &'static str) {
        match self {
            Self::Affiliation => "affiliation",
            Self::ConfirmedEmail => "confirmed_email",
            Self::ConnectionStatus => "connection_status",
            Self::CreatedAt => "created_at",
            Self::Description => "description",
            Self::Entities => "entities",
            Self::Id => "id",
            Self::IsIdentityVerified => "is_identity_verified",
            Self::Location => "location",
            Self::MostRecentTweetId => "most_recent_tweet_id",
            Self::Name => "name",
            Self::Parody => "parody",
            Self::PinnedTweetId => "pinned_tweet_id",
            Self::ProfileBannerUrl => "profile_banner_url",
            Self::ProfileImageUrl => "profile_image_url",
            Self::Protected => "protected",
            Self::PublicMetrics => "public_metrics",
            Self::ReceivesYourDm => "receives_your_dm",
            Self::Subscription => "subscription",
            Self::SubscriptionType => "subscription_type",
            Self::Url => "url",
            Self::Username => "username",
            Self::Verified => "verified",
            Self::VerifiedFollowersCount => "verified_followers_count",
            Self::VerifiedType => "verified_type",
            Self::Withheld => "withheld",
        }
    }
}

/// A field of a tweet object that a request can ask for.
#[derive(Debug, Clone)]
pub enum TweetField {
    Article,
    Attachments,
    AuthorId,
    CardUri,
    CommunityId,
    ContextAnnotations,
    ConversationId,
    CreatedAt,
    DisplayTextRange,
    EditControls,
    EditHistoryTweetIds,
    Entities,
    Geo,
    Id,
    InReplyToUserId,
    Lang,
    MediaMetadata,
    NonPublicMetrics,
    NoteTweet,
    OrganicMetrics,
    PossiblySensitive,
    PromotedMetrics,
    PublicMetrics,
    ReferencedTweets,
    ReplySettings,
    Scopes,
    Source,
    SuggestedSourceLinks,
    Text,
    Withheld,
}

impl AsQueryStr for TweetField {
    open spec fn query_text(&self) -> Seq<char> {
        match self {
            Self::Article => "article"@,
            Self::Attachments => "attachments"@,
            Self::AuthorId => "author_id"@,
            Self::CardUri => "card_uri"@,
            Self::CommunityId => "community_id"@,
            Self::ContextAnnotations => "context_annotations"@,
            Self::ConversationId => "conversation_id"@,
            Self::CreatedAt => "created_at"@,
            Self::DisplayTextRange => "display_text_range"@,
            Self::EditControls => "edit_controls"@,
            Self::EditHistoryTweetIds => "edit_history_tweet_ids"@,
            Self::Entities => "entities"@,
            Self::Geo => "geo"@,
            Self::Id => "id"@,
            Self::InReplyToUserId => "in_reply_to_user_id"@,
            Self::Lang => "lang"@,
            Self::MediaMetadata => "media_metadata"@,
            Self::NonPublicMetrics => "non_public_metrics"@,
            Self::NoteTweet => "note_tweet"@,
            Self::OrganicMetrics => "organic_metrics"@,
            Self::PossiblySensitive => "possibly_sensitive"@,
            Self::PromotedMetrics => "promoted_metrics"@,
            Self::PublicMetrics => "public_metrics"@,
            Self::ReferencedTweets => "referenced_tweets"@,
            Self::ReplySettings => "reply_settings"@,
            Self::Scopes => "scopes"@,
            Self::Source => "source"@,
            Self::SuggestedSourceLinks => "suggested_source_links"@,
            Self::Text => "text"@,
            Self::Withheld => "withheld"@,
        }
    }

    fn as_str(&self) -> (s: &'static str) {
        match self {
            Self::Article => "article",
            Self::Attachments => "attachments",
            Self::AuthorId => "author_id",
            Self::CardUri => "card_uri",
            Self::CommunityId => "community_id",
            Self::ContextAnnotations => "context_annotations",
            Self::ConversationId => "conversation_id",
            Self::CreatedAt => "created_at",
            Self::DisplayTextRange => "display_text_range",
            Self::EditControls => "edit_controls",
            Self::EditHistoryTweetIds => "edit_history_tweet_ids",
            Self::Entities => "entities",
            Self::Geo => "geo",
            Self::Id => "id",
            Self::InReplyToUserId => "in_reply_to_user_id",
            Self::Lang => "lang",
            Self::MediaMetadata => "media_metadata",
            Self::NonPublicMetrics => "non_public_metrics",
            Self::NoteTweet => "note_tweet",
            Self::OrganicMetrics => "organic_metrics",
            Self::PossiblySensitive => "possibly_sensitive",
            Self::PromotedMetrics => "promoted_metrics",
            Self::PublicMetrics => "public_metrics",
            Self::ReferencedTweets => "referenced_tweets",
            Self::ReplySettings => "reply_settings",
            Self::Scopes => "scopes",
            Self::Source => "source",
            Self::SuggestedSourceLinks => "suggested_source_links",
            Self::Text => "text",
            Self::Withheld => "withheld",
        }
    }
}

/// A related object that a request can ask to have expanded.
#[derive(Debug, Clone)]
pub enum TweetExpansion {
    ArticleCoverMedia,
    ArticleMediaEntities,
    AttachmentsMediaKeys,
    AttachmentsMediaSourceTweet,
    AttachmentsPollIds,
    AuthorId,
    EditHistoryTweetIds,
    EntitiesMentionsUsername,
    GeoPlaceId,
    InReplyToUserId,
    EntitiesNoteMentionsUsername,
    ReferencedTweetsId,
    ReferencedTweetsIdAttachmentsMediaKeys,
    ReferencedTweetsIdAuthorId,
}

impl AsQueryStr for TweetExpansion {
    open spec fn query_text(&self) -> Seq<char> {
        match self {
            Self::ArticleCoverMedia => "article.cover_media"@,
            Self::ArticleMediaEntities => "article.media_entities"@,
            Self::AttachmentsMediaKeys => "attachments.media_keys"@,
            Self::AttachmentsMediaSourceTweet => "attachments.media_source_tweet"@,
            Self::AttachmentsPollIds => "attachments.poll_ids"@,
            Self::AuthorId => "author_id"@,
            Self::EditHistoryTweetIds => "edit_history_tweet_ids"@,
            Self::EntitiesMentionsUsername => "entities.mentions.username"@,
            Self::GeoPlaceId => "geo.place_id"@,
            Self::InReplyToUserId => "in_reply_to_user_id"@,
            Self::EntitiesNoteMentionsUsername => "entities.note.mentions.username"@,
            Self::ReferencedTweetsId => "referenced_tweets.id"@,
            Self::ReferencedTweetsIdAttachmentsMediaKeys => "referenced_tweets.id.attachments.media_keys"@,
            Self::ReferencedTweetsIdAuthorId => "referenced_tweets.id.author_id"@,
        }
    }

    fn as_str(&self) -> (s: &'static str) {
        match self {
            Self::ArticleCoverMedia => "article.cover_media",
            Self::ArticleMediaEntities => "article.media_entities",
            Self::AttachmentsMediaKeys => "attachments.media_keys",
            Self::AttachmentsMediaSourceTweet => "attachments.media_source_tweet",
            Self::AttachmentsPollIds => "attachments.poll_ids",
            Self::AuthorId => "author_id",
            Self::EditHistoryTweetIds => "edit_history_tweet_ids",
            Self::EntitiesMentionsUsername => "entities.mentions.username",
            Self::GeoPlaceId => "geo.place_id",
            Self::InReplyToUserId => "in_reply_to_user_id",
            Self::EntitiesNoteMentionsUsername => "entities.note.mentions.username",
            Self::ReferencedTweetsId => "referenced_tweets.id",
            Self::ReferencedTweetsIdAttachmentsMediaKeys => "referenced_tweets.id.attachments.media_keys",
            Self::ReferencedTweetsIdAuthorId => "referenced_tweets.id.author_id",
        }
    }
}

/// Objects that a response carries beside its primary data.
#[derive(Debug, Clone)]
pub struct Includes {
    pub users: Option<Vec<User>>,
}

/// The envelope of every successful response. `data` may be absent: the API
/// answers some lookups that find nothing with a success status.
#[derive(Debug, Clone)]
pub struct TwitterApiResponse<T> {
    pub data: Option<T>,
    pub includes: Option<Includes>,
    pub meta: Option<SearchMeta>,
}

} // verus!
