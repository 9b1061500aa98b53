use vstd::prelude::*;
use vstd::string::*;
use crate::names::push_char;

verus! {

/// A picture at several sizes.
#[derive(Debug, Clone)]
pub struct LabelTop {
    pub url_list: Vec<String>,
    pub uri: String,
}

/// Where a video can be played or downloaded from.
#[derive(Debug, Clone)]
pub struct PlayAddr {
    pub url_list: Vec<String>,
    pub url_key: String,
    pub uri: String,
}

/// The author of a video.
#[derive(Debug, Clone)]
pub struct Author {
    pub uid: String,
    pub avatar_larger: LabelTop,
    pub birthday: String,
    pub custom_verify: String,
    pub is_verified: bool,
    pub nickname: String,
    pub user_mode: i64,
    pub short_id: String,
    pub hide_location: bool,
    pub gender: i64,
    pub secret: i64,
    pub user_period: i64,
    pub avatar_medium: LabelTop,
    pub signature: String,
    pub avatar_thumb: LabelTop,
    pub weibo_verify: String,
    pub unique_id: String,
}

/// Policy versions of a user.
#[derive(Debug, Clone)]
pub struct PolicyVersion {
    pub _global: Option<i64>,
    pub _se: Option<i64>,
}

/// Risk information of a video.
#[derive(Debug, Clone)]
pub struct RiskInfos {
    pub warn: bool,
    pub content: String,
    pub risk_sink: bool,
    pub _type: i64,
}

/// How a video is shared.
#[derive(Debug, Clone)]
pub struct ShareInfo {
    pub share_weibo_desc: String,
    pub bool_persist: i64,
    pub share_quote: String,
    pub share_title: String,
    pub share_signature_desc: String,
    pub share_signature_url: String,
    pub share_link_desc: String,
    pub share_url: String,
    pub share_desc: String,
}

/// Counters of a video.
#[derive(Debug, Clone)]
pub struct Statistics {
    pub comment_count_str: String,
    pub digg_count_str: String,
    pub forward_count: i64,
    pub digg_count: i64,
    pub share_count_str: String,
    pub play_count: i64,
    pub comment_count: i64,
    pub aweme_id: String,
    pub share_count: i64,
}

/// Review and visibility state of a video.
#[derive(Debug, Clone)]
pub struct Status {
    pub private_status: i64,
    pub reviewed: i64,
    pub is_prohibited: bool,
    pub with_goods: bool,
    pub is_private: bool,
    pub download_status: i64,
    pub is_delete: bool,
    pub with_fusion_goods: bool,
    pub self_see: bool,
    pub in_reviewing: bool,
    pub allow_share: bool,
    pub allow_comment: bool,
}

/// A hashtag inside a video description.
#[derive(Debug, Clone)]
pub struct TextExtra {
    pub start: i64,
    pub end: i64,
    pub hashtag_name: String,
    pub _type: i64,
}

/// The media of a video.
#[derive(Debug, Clone)]
pub struct Video {
    pub ratio: String,
    pub origin_cover: LabelTop,
    pub play_addr: PlayAddr,
    pub cover: LabelTop,
    pub height: i64,
    pub width: i64,
    pub download_addr: PlayAddr,
    pub has_watermark: bool,
    pub play_addr_lowbr: PlayAddr,
    pub dynamic_cover: LabelTop,
}

/// A comment on a video.
#[derive(Debug, Clone)]
pub struct Comments {
    pub status: i64,
    pub from_author: bool,
    pub reply_comment: Vec<String>,
    pub text: String,
    pub cid: String,
    pub digg_count: i64,
    pub text_extra: Vec<String>,
    pub create_time: i64,
    pub reply_id: String,
    pub user: User,
    pub aweme_id: String,
    pub user_digged: i64,
}

/// A user of the site.
#[derive(Debug, Clone)]
pub struct User {
    pub youtube_channel_title: String,
    pub share_qrcode_uri: String,
    pub app_id: i64,
    pub original_music_qrcode: Option<String>,
    pub is_gov_media_vip: bool,
    pub live_commerce: bool,
    pub account_region: String,
    pub user_period: i64,
    pub reflow_page_gid: i64,
    pub is_binded_weibo: bool,
    pub video_icon_virtual_uri: String,
    pub risk_flag: i64,
    pub school_name: String,
    pub download_setting: i64,
    pub cv_level: String,
    pub custom_verify: String,
    pub special_lock: i64,
    pub user_canceled: bool,
    pub shield_comment_notice: i64,
    pub type_label: Vec<String>,
    pub hide_location: bool,
    pub gender: i64,
    pub video_icon: LabelTop,
    pub school_poi_id: String,
    pub live_agreement: i64,
    pub is_phone_binded: bool,
    pub prevent_download: bool,
    pub weibo_schema: String,
    pub create_time: i64,
    pub has_insights: bool,
    pub react_setting: i64,
    pub google_account: String,
    pub community_discipline_status: i64,
    pub user_mode: i64,
    pub need_recommend: i64,
    pub update_before: i64,
    pub has_register_notice: i64,
    pub room_id: i64,
    pub avatar_medium: LabelTop,
    pub has_orders: bool,
    pub reflow_page_uid: i64,
    pub cover_url: Vec<LabelTop>,
    pub duet_setting: i64,
    pub language: String,
    pub geofencing: Vec<String>,
    pub ins_id: String,
    pub unique_id_modify_time: i64,
    pub school_type: i64,
    pub twitter_name: String,
    pub avatar_uri: String,
    pub signature: String,
    pub weibo_verify: String,
    pub comment_setting: i64,
    pub with_fusion_shop_entry: bool,
    pub youtube_channel_id: String,
    pub avatar_larger: LabelTop,
    pub enterprise_verify_reason: String,
    pub user_rate: i64,
    pub live_verify: i64,
    pub short_id: String,
    pub secret: i64,
    pub avatar_thumb: LabelTop,
    pub is_verified: bool,
    pub hide_search: bool,
    pub with_commerce_entry: bool,
    pub download_prompt_ts: i64,
    pub twitter_id: String,
    pub has_email: bool,
    pub policy_version: PolicyVersion,
    pub region: String,
    pub uid: String,
    pub bind_phone: String,
    pub weibo_url: String,
    pub live_agreement_time: i64,
    pub weibo_name: String,
    pub commerce_user_level: i64,
    pub verify_info: String,
    pub apple_account: i64,
    pub accept_private_policy: bool,
    pub shield_digg_notice: i64,
    pub verification_type: i64,
    pub neiguang_shield: i64,
    pub live_rec_level: i64,
    pub authority_status: i64,
    pub enterprise_verify: bool,
    pub birthday: String,
    pub is_ad_fake: bool,
    pub nickname: String,
    pub shield_follow_notice: i64,
    pub original_music_cover: Option<String>,
    pub creator_level: i64,
    pub nickname_lock: i64,
    pub status: i64,
    pub unique_id: String,
}

/// Whether a video is a xigua task.
#[derive(Debug, Clone)]
pub struct XiguaTask {
    pub is_xigua_task: bool,
}

impl Video {
    /// The URL a video is downloaded from: the first of its download
    /// addresses, if it has any.
    pub fn download_url(&self) -> (r: Option<String>)
        ensures
            match r {
                Some(u) => self.download_addr.url_list@.len() > 0
                    && u@ == self.download_addr.url_list@[0]@,
                None => self.download_addr.url_list@.len() == 0,
            },
    {
        if self.download_addr.url_list.len() > 0 {
            Some(self.download_addr.url_list[0].clone())
        } else {
            None
        }
    }
}

/// The default file name of a video: `<id>-<title>-<author>.<ext>`.
pub open spec fn video_file_name(
    id: Seq<char>,
    title: Seq<char>,
    author: Seq<char>,
    ext: Seq<char>,
) -> Seq<char> {
    id + seq!['-'] + title + seq!['-'] + author + seq!['.'] + ext
}

/// Builds the default file name of a video.
pub fn video_default_name(id: &str, title: &str, author: &str, ext: &str) -> (r: String)
    ensures
        r@ == video_file_name(id@, title@, author@, ext@),
{
    let mut s = String::from_str(id);
    push_char(&mut s, '-');
    s.append(title);
    push_char(&mut s, '-');
    s.append(author);
    push_char(&mut s, '.');
    s.append(ext);
    proof {
        assert(s@ =~= video_file_name(id@, title@, author@, ext@));
    }
    s
}

} // verus!
