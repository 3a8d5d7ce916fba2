//! Post rows.
use vstd::prelude::*;

use crate::json::Json;

verus! {

/// A post as stored.
#[derive(Debug, PartialEq)]
pub struct PostInternal {
    pub id: i64,
    pub uid: Option<i64>,
    pub text: String,
    pub created_at: String,
    pub attitudes_count: Option<i64>,
    pub attitudes_status: i64,
    pub comments_count: Option<i64>,
    pub reposts_count: Option<i64>,
    pub repost_type: Option<i64>,
    pub retweeted_id: Option<i64>,
    pub pic_num: Option<i64>,
    pub edit_count: Option<i64>,
    pub deleted: bool,
    pub favorited: bool,
    pub mblogid: String,
    pub geo: Option<Json>,
    pub mix_media_ids: Option<Json>,
    pub mix_media_info: Option<Json>,
    pub page_info: Option<Json>,
    pub pic_ids: Option<Json>,
    pub pic_infos: Option<Json>,
    pub url_struct: Option<Json>,
    pub tag_struct: Option<Json>,
    pub topic_ids: Option<Json>,
    pub at_users: Option<Json>,
    pub raw_data: Option<Json>,
    pub source: Option<String>,
    pub region_name: Option<String>,
    pub bid: Option<String>,
    pub location: Option<String>,
    pub video_url: Option<String>,
    pub content_status: String,
    pub fetch_error: Option<String>,
    pub first_fetched_at: Option<String>,
    pub last_refreshed_at: Option<String>,
    pub is_long_text: bool,
}

} // verus!
