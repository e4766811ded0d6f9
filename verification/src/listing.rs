//! The shape of a listing response, modelled as plain values.
//!
//! Unknown or extra fields of the wire format are simply not modelled;
//! decoding the wire bytes into these records is the caller's business.

use vstd::prelude::*;

verus! {

/// The source rendition of a preview image.
#[derive(Debug, Clone)]
pub struct Source {
    pub url: String,
    pub width: u32,
    pub height: u32,
}

/// A reduced rendition of a preview image.
#[derive(Debug, Clone)]
pub struct Resolution {
    pub url: String,
    pub width: i64,
    pub height: i64,
}

/// One preview image with its renditions.
#[derive(Debug, Clone)]
pub struct Image {
    pub source: Source,
    pub resolutions: Vec<Resolution>,
    pub id: String,
}

/// The preview block of a post.
#[derive(Debug, Clone)]
pub struct Preview {
    pub images: Vec<Image>,
    pub enabled: bool,
}

/// Embedded-media block; nothing of it is read.
#[derive(Debug, Clone)]
pub struct MediaEmbed {}

/// Secure embedded-media block; nothing of it is read.
#[derive(Debug, Clone)]
pub struct SecureMediaEmbed {}

/// Awards a post carries; nothing of it is read by the filters.
#[derive(Debug, Clone)]
pub struct Gildings {
    pub gid1: Option<i64>,
    pub gid2: Option<i64>,
}

/// The attributes of one listed post.
#[derive(Debug, Clone)]
pub struct ChildrenData {
    pub subreddit: String,
    pub title: String,
    pub post_hint: Option<String>,
    pub over_18: bool,
    pub preview: Option<Preview>,
    pub id: String,
    pub author: String,
    pub permalink: String,
    pub stickied: bool,
    pub url: String,
    pub is_video: bool,
    pub is_gallery: Option<bool>,
}

/// One entry of a listing page.
#[derive(Debug, Clone)]
pub struct Children {
    pub data: ChildrenData,
}

/// The payload of a listing page.
#[derive(Debug, Clone)]
pub struct Data {
    pub modhash: String,
    pub dist: i64,
    pub children: Vec<Children>,
    pub after: String,
}

/// One listing page for one subreddit.
#[derive(Debug, Clone)]
pub struct Listing {
    pub data: Data,
}

/// The effective size of a preview: its first image's source dimensions,
/// as `(width, height)`; a preview without images resolves no size.
pub open spec fn preview_size(p: Preview) -> Option<(u32, u32)> {
    if p.images@.len() > 0 {
        Some((p.images@[0].source.width, p.images@[0].source.height))
    } else {
        None
    }
}

impl Preview {
    /// The first preview image's source dimensions, as `(width, height)`.
    pub fn get_image_size(&self) -> (r: Option<(u32, u32)>)
        ensures
            r == preview_size(*self),
    {
        if self.images.len() > 0 {
            let source = &self.images[0].source;
            Some((source.width, source.height))
        } else {
            None
        }
    }
}

} // verus!
