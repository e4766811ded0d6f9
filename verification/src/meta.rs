//! The unit of work the filters produce: one downloadable image.

use vstd::prelude::*;
use crate::paths::{file_location, join_path};

verus! {

/// The ghost value of a download candidate.
#[verifier::ext_equal]
pub struct MetaView {
    pub url: Seq<char>,
    pub subreddit_name: Seq<char>,
    pub image_height: u32,
    pub image_width: u32,
    pub post_link: Seq<char>,
    pub nsfw: bool,
    pub filename: Seq<char>,
    pub title: Seq<char>,
    pub author: Seq<char>,
}

/// A post that passed every content filter and is eligible for download.
#[derive(Debug, Clone)]
pub struct DownloadMeta {
    pub url: String,
    pub subreddit_name: String,
    pub image_height: u32,
    pub image_width: u32,
    pub post_link: String,
    pub nsfw: bool,
    pub filename: String,
    pub title: String,
    pub author: String,
}

impl View for DownloadMeta {
    type V = MetaView;

    open spec fn view(&self) -> MetaView {
        MetaView {
            url: self.url@,
            subreddit_name: self.subreddit_name@,
            image_height: self.image_height,
            image_width: self.image_width,
            post_link: self.post_link@,
            nsfw: self.nsfw,
            filename: self.filename@,
            title: self.title@,
            author: self.author@,
        }
    }
}

impl DownloadMeta {
    /// The destination this candidate is stored at:
    /// `base_location/subreddit/filename`. The base is handed in already
    /// resolved.
    pub fn get_file_location(&self, base_location: &str) -> (r: String)
        ensures
            r@ == file_location(base_location@, self.subreddit_name@, self.filename@),
    {
        let dir = join_path(base_location, self.subreddit_name.as_str());
        join_path(dir.as_str(), self.filename.as_str())
    }
}

} // verus!
