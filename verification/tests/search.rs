use rusx::resources::search::{SearchParams, SearchSortOrder};
use rusx::resources::{
    join_query_param_enums_as_string, AsQueryStr, TweetExpansion, TweetField, UserField,
};

#[test]
fn query_string_of_query_and_max_results() {
    let mut params = SearchParams::new("rust");
    params.max_results = Some(10);
    assert_eq!(params.to_query_string(), "?query=rust&max_results=10");
}

#[test]
fn query_string_of_query_alone() {
    assert_eq!(SearchParams::new("rust").to_query_string(), "?query=rust");
}

#[test]
fn query_string_of_empty_query() {
    assert_eq!(SearchParams::new("").to_query_string(), "?query=");
}

#[test]
fn query_text_is_percent_encoded() {
    let params = SearchParams::new("rust lang");
    assert_eq!(params.to_query_string(), "?query=rust%20lang");
}

#[test]
fn query_text_keeps_unreserved_characters() {
    let params = SearchParams::new("AZaz09-._~");
    assert_eq!(params.to_query_string(), "?query=AZaz09-._~");
}

#[test]
fn query_text_encodes_reserved_characters_in_upper_case_hex() {
    let params = SearchParams::new("a&b=c/d?e#f+g:h");
    assert_eq!(
        params.to_query_string(),
        "?query=a%26b%3Dc%2Fd%3Fe%23f%2Bg%3Ah"
    );
}

#[test]
fn query_text_encodes_each_byte_of_a_character() {
    let params = SearchParams::new("caf\u{e9} \u{20ac}");
    assert_eq!(params.to_query_string(), "?query=caf%C3%A9%20%E2%82%AC");
}

#[test]
fn other_parameters_are_not_escaped() {
    let mut params = SearchParams::new("x");
    params.start_time = Some("2024-01-01T00:00:00Z".to_string());
    params.next_token = Some("a b&c".to_string());
    assert_eq!(
        params.to_query_string(),
        "?query=x&start_time=2024-01-01T00:00:00Z&next_token=a b&c"
    );
}

#[test]
fn every_parameter_in_its_order() {
    let params = SearchParams {
        query: "from:a OR from:b".to_string(),
        start_time: Some("S".to_string()),
        end_time: Some("E".to_string()),
        since_id: Some("1".to_string()),
        until_id: Some("2".to_string()),
        max_results: Some(100),
        next_token: Some("N".to_string()),
        sort_order: Some(SearchSortOrder::Relevancy),
        tweet_fields: Some(vec![TweetField::Id, TweetField::Text, TweetField::PublicMetrics]),
        expansions: Some(vec![TweetExpansion::AuthorId]),
        user_fields: Some(vec![UserField::Username, UserField::Verified]),
    };
    assert_eq!(
        params.to_query_string(),
        "?query=from%3Aa%20OR%20from%3Ab&start_time=S&end_time=E&since_id=1&until_id=2\
         &max_results=100&next_token=N&sort_order=relevancy\
         &tweet.fields=id,text,public_metrics&expansions=author_id\
         &user.fields=username,verified"
    );
}

#[test]
fn an_empty_list_still_makes_a_pair() {
    let mut params = SearchParams::new("x");
    params.tweet_fields = Some(Vec::new());
    assert_eq!(params.to_query_string(), "?query=x&tweet.fields=");
}

#[test]
fn max_results_is_written_in_decimal() {
    let mut params = SearchParams::new("x");
    params.max_results = Some(0);
    assert_eq!(params.to_query_string(), "?query=x&max_results=0");
    params.max_results = Some(u32::MAX);
    assert_eq!(params.to_query_string(), "?query=x&max_results=4294967295");
}

#[test]
fn sort_order_recency() {
    let mut params = SearchParams::new("x");
    params.sort_order = Some(SearchSortOrder::Recency);
    assert_eq!(params.to_query_string(), "?query=x&sort_order=recency");
}

#[test]
fn new_sets_the_query_only() {
    let params = SearchParams::new("rust");
    assert_eq!(params.query, "rust");
    assert!(params.start_time.is_none());
    assert!(params.end_time.is_none());
    assert!(params.since_id.is_none());
    assert!(params.until_id.is_none());
    assert!(params.max_results.is_none());
    assert!(params.next_token.is_none());
    assert!(params.sort_order.is_none());
    assert!(params.tweet_fields.is_none());
    assert!(params.expansions.is_none());
    assert!(params.user_fields.is_none());
}

#[test]
fn default_parameters_are_empty() {
    let params = SearchParams::default();
    assert_eq!(params.query, "");
    assert!(params.max_results.is_none());
    assert_eq!(params.to_query_string(), "?query=");
}

#[test]
fn whitelist_of_two_users_with_keywords() {
    let users = vec!["alice".to_string(), "bob".to_string()];
    let params = SearchParams::build_whitelist_query(&users, Some("rust"));
    assert_eq!(params.query, "(from:alice OR from:bob) rust");
    assert!(params.max_results.is_none());
    assert!(params.sort_order.is_none());
}

#[test]
fn whitelist_of_two_users_without_keywords() {
    let users = vec!["alice".to_string(), "bob".to_string()];
    let params = SearchParams::build_whitelist_query(&users, None);
    assert_eq!(params.query, "from:alice OR from:bob");
}

#[test]
fn whitelist_of_one_user() {
    let users = vec!["alice".to_string()];
    assert_eq!(SearchParams::build_whitelist_query(&users, None).query, "from:alice");
    assert_eq!(
        SearchParams::build_whitelist_query(&users, Some("a b")).query,
        "(from:alice) a b"
    );
}

#[test]
fn whitelist_of_no_user() {
    let users: Vec<String> = Vec::new();
    assert_eq!(SearchParams::build_whitelist_query(&users, None).query, "");
    assert_eq!(SearchParams::build_whitelist_query(&users, Some("k")).query, "() k");
}

#[test]
fn whitelist_query_is_encoded_in_the_query_string() {
    let users = vec!["alice".to_string(), "bob".to_string()];
    let params = SearchParams::build_whitelist_query(&users, Some("rust"));
    assert_eq!(
        params.to_query_string(),
        "?query=%28from%3Aalice%20OR%20from%3Abob%29%20rust"
    );
}

#[test]
fn join_of_no_item_is_empty() {
    let none: Vec<UserField> = Vec::new();
    assert_eq!(join_query_param_enums_as_string(&none), "");
}

#[test]
fn join_of_one_item_has_no_comma() {
    assert_eq!(join_query_param_enums_as_string(&[TweetField::Lang]), "lang");
}

#[test]
fn join_of_several_items_keeps_their_order() {
    let items = [
        TweetExpansion::ReferencedTweetsId,
        TweetExpansion::AuthorId,
        TweetExpansion::ReferencedTweetsId,
    ];
    assert_eq!(
        join_query_param_enums_as_string(&items),
        "referenced_tweets.id,author_id,referenced_tweets.id"
    );
}

#[test]
fn sort_order_spellings() {
    assert_eq!(SearchSortOrder::Recency.as_str(), "recency");
    assert_eq!(SearchSortOrder::Relevancy.as_str(), "relevancy");
}

#[test]
fn user_field_spellings() {
    let all = [
        (UserField::Affiliation, "affiliation"),
        (UserField::ConfirmedEmail, "confirmed_email"),
        (UserField::ConnectionStatus, "connection_status"),
        (UserField::CreatedAt, "created_at"),
        (UserField::Description, "description"),
        (UserField::Entities, "entities"),
        (UserField::Id, "id"),
        (UserField::IsIdentityVerified, "is_identity_verified"),
        (UserField::Location, "location"),
        (UserField::MostRecentTweetId, "most_recent_tweet_id"),
        (UserField::Name, "name"),
        (UserField::Parody, "parody"),
        (UserField::PinnedTweetId, "pinned_tweet_id"),
        (UserField::ProfileBannerUrl, "profile_banner_url"),
        (UserField::ProfileImageUrl, "profile_image_url"),
        (UserField::Protected, "protected"),
        (UserField::PublicMetrics, "public_metrics"),
        (UserField::ReceivesYourDm, "receives_your_dm"),
        (UserField::Subscription, "subscription"),
        (UserField::SubscriptionType, "subscription_type"),
        (UserField::Url, "url"),
        (UserField::Username, "username"),
        (UserField::Verified, "verified"),
        (UserField::VerifiedFollowersCount, "verified_followers_count"),
        (UserField::VerifiedType, "verified_type"),
        (UserField::Withheld, "withheld"),
    ];
    for (field, text) in all.iter() {
        assert_eq!(field.as_str(), *text);
    }
}

#[test]
fn tweet_field_spellings() {
    let all = [
        (TweetField::Article, "article"),
        (TweetField::Attachments, "attachments"),
        (TweetField::AuthorId, "author_id"),
        (TweetField::CardUri, "card_uri"),
        (TweetField::CommunityId, "community_id"),
        (TweetField::ContextAnnotations, "context_annotations"),
        (TweetField::ConversationId, "conversation_id"),
        (TweetField::CreatedAt, "created_at"),
        (TweetField::DisplayTextRange, "display_text_range"),
        (TweetField::EditControls, "edit_controls"),
        (TweetField::EditHistoryTweetIds, "edit_history_tweet_ids"),
        (TweetField::Entities, "entities"),
        (TweetField::Geo, "geo"),
        (TweetField::Id, "id"),
        (TweetField::InReplyToUserId, "in_reply_to_user_id"),
        (TweetField::Lang, "lang"),
        (TweetField::MediaMetadata, "media_metadata"),
        (TweetField::NonPublicMetrics, "non_public_metrics"),
        (TweetField::NoteTweet, "note_tweet"),
        (TweetField::OrganicMetrics, "organic_metrics"),
        (TweetField::PossiblySensitive, "possibly_sensitive"),
        (TweetField::PromotedMetrics, "promoted_metrics"),
        (TweetField::PublicMetrics, "public_metrics"),
        (TweetField::ReferencedTweets, "referenced_tweets"),
        (TweetField::ReplySettings, "reply_settings"),
        (TweetField::Scopes, "scopes"),
        (TweetField::Source, "source"),
        (TweetField::SuggestedSourceLinks, "suggested_source_links"),
        (TweetField::Text, "text"),
        (TweetField::Withheld, "withheld"),
    ];
    for (field, text) in all.iter() {
        assert_eq!(field.as_str(), *text);
    }
}

#[test]
fn tweet_expansion_spellings() {
    let all = [
        (TweetExpansion::ArticleCoverMedia, "article.cover_media"),
        (TweetExpansion::ArticleMediaEntities, "article.media_entities"),
        (TweetExpansion::AttachmentsMediaKeys, "attachments.media_keys"),
        (TweetExpansion::AttachmentsMediaSourceTweet, "attachments.media_source_tweet"),
        (TweetExpansion::AttachmentsPollIds, "attachments.poll_ids"),
        (TweetExpansion::AuthorId, "author_id"),
        (TweetExpansion::EditHistoryTweetIds, "edit_history_tweet_ids"),
        (TweetExpansion::EntitiesMentionsUsername, "entities.mentions.username"),
        (TweetExpansion::GeoPlaceId, "geo.place_id"),
        (TweetExpansion::InReplyToUserId, "in_reply_to_user_id"),
        (TweetExpansion::EntitiesNoteMentionsUsername, "entities.note.mentions.username"),
        (TweetExpansion::ReferencedTweetsId, "referenced_tweets.id"),
        (
            TweetExpansion::ReferencedTweetsIdAttachmentsMediaKeys,
            "referenced_tweets.id.attachments.media_keys",
        ),
        (TweetExpansion::ReferencedTweetsIdAuthorId, "referenced_tweets.id.author_id"),
    ];
    for (expansion, text) in all.iter() {
        assert_eq!(expansion.as_str(), *text);
    }
}

#[test]
fn every_ascii_character_is_kept_or_written_in_hex() {
    let hex = b"0123456789ABCDEF";
    for byte in 0u8..128 {
        let c = byte as char;
        let kept = c.is_ascii_alphanumeric() || c == '-' || c == '.' || c == '_' || c == '~';
        let mut expected = String::from("?query=");
        if kept {
            expected.push(c);
        } else {
            expected.push('%');
            expected.push(hex[(byte / 16) as usize] as char);
            expected.push(hex[(byte % 16) as usize] as char);
        }
        let query = c.to_string();
        assert_eq!(SearchParams::new(&query).to_query_string(), expected);
    }
}

#[test]
fn four_byte_characters_are_written_byte_by_byte() {
    let params = SearchParams::new("\u{1f980}");
    assert_eq!(params.to_query_string(), "?query=%F0%9F%A6%80");
}
