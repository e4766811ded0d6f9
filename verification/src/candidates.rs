//! Filtering a listing into download candidates.
//!
//! Filtering is a total function from post to at most one candidate: a post
//! that is a video, that the NSFW policy bars, whose preview resolves no
//! size, or that fails the aspect-ratio or minimum-size filter yields
//! nothing; every other post yields exactly one candidate, in listing order.

use vstd::prelude::*;
use crate::config::Config;
use crate::filters::{aspect_ratio_ok, minimum_size_ok, passed_aspect_ratio, passed_minimum_size};
use crate::listing::{Children, ChildrenData, Listing, preview_size};
use crate::meta::{DownloadMeta, MetaView};
use crate::urls::{filename_from_url, last_segment, post_link, post_link_view};

verus! {

/// The effective size of a post, when its preview resolves one.
pub open spec fn post_size(d: ChildrenData) -> Option<(u32, u32)> {
    match d.preview {
        Some(p) => preview_size(p),
        None => None,
    }
}

/// Whether a post passes every content filter and becomes a candidate.
pub open spec fn eligible(d: ChildrenData, cfg: Config) -> bool {
    &&& !d.is_video
    &&& !(d.over_18 && !cfg.downloads.nsfw)
    &&& post_size(d) is Some
    &&& aspect_ratio_ok(post_size(d).unwrap().0, post_size(d).unwrap().1, cfg.aspect_ratio)
    &&& minimum_size_ok(post_size(d).unwrap().0, post_size(d).unwrap().1, cfg.minimum_size)
}

/// The candidate an eligible post yields.
pub open spec fn meta_view_of(d: ChildrenData) -> MetaView {
    MetaView {
        url: d.url@,
        subreddit_name: d.subreddit@,
        image_width: post_size(d).unwrap().0,
        image_height: post_size(d).unwrap().1,
        post_link: post_link_view(d.permalink@),
        nsfw: d.over_18,
        filename: last_segment(d.url@),
        title: d.title@,
        author: d.author@,
    }
}

/// The candidates a sequence of posts yields, in listing order.
pub open spec fn metas_of(children: Seq<Children>, cfg: Config) -> Seq<MetaView>
    decreases children.len(),
{
    if children.len() == 0 {
        Seq::empty()
    } else {
        metas_of(children.drop_last(), cfg) + (if eligible(children.last().data, cfg) {
            seq![meta_view_of(children.last().data)]
        } else {
            Seq::<MetaView>::empty()
        })
    }
}

impl Listing {
    /// Apply every content filter to this page and keep the candidates, in
    /// listing order.
    pub fn into_download_metas(self, config: &Config) -> (r: Vec<DownloadMeta>)
        ensures
            r@.map_values(|m: DownloadMeta| m@) == metas_of(self.data.children@, *config),
    {
        let children = self.data.children;
        let mut result: Vec<DownloadMeta> = Vec::new();
        let mut i: usize = 0;
        while i < children.len()
            invariant
                0 <= i <= children@.len(),
                result@.map_values(|m: DownloadMeta| m@) == metas_of(
                    children@.take(i as int),
                    *config,
                ),
            decreases children@.len() - i,
        {
            proof {
                assert(children@.take(i as int + 1).drop_last() =~= children@.take(i as int));
                assert(children@.take(i as int + 1).last() == children@[i as int]);
            }
            let ghost prev = result@.map_values(|m: DownloadMeta| m@);
            let d = &children[i].data;
            let mut kept = false;
            if !d.is_video && !(d.over_18 && !config.downloads.nsfw) {
                let size = match &d.preview {
                    Some(p) => p.get_image_size(),
                    None => None,
                };
                if let Some((w, h)) = size {
                    if passed_aspect_ratio(w, h, &config.aspect_ratio) && passed_minimum_size(
                        w,
                        h,
                        &config.minimum_size,
                    ) {
                        let meta = DownloadMeta {
                            subreddit_name: d.subreddit.clone(),
                            post_link: post_link(d.permalink.as_str()),
                            image_width: w,
                            image_height: h,
                            url: d.url.clone(),
                            nsfw: d.over_18,
                            title: d.title.clone(),
                            author: d.author.clone(),
                            filename: filename_from_url(d.url.as_str()),
                        };
                        proof {
                            assert(meta@ =~= meta_view_of(children@[i as int].data));
                        }
                        result.push(meta);
                        kept = true;
                    }
                }
            }
            proof {
                assert(eligible(children@[i as int].data, *config) == kept);
                if kept {
                    assert(result@.map_values(|m: DownloadMeta| m@) =~= prev.push(
                        meta_view_of(children@[i as int].data),
                    ));
                    assert(prev.push(meta_view_of(children@[i as int].data)) =~= metas_of(
                        children@.take(i as int + 1),
                        *config,
                    ));
                } else {
                    assert(metas_of(children@.take(i as int + 1), *config) =~= prev);
                }
            }
            i = i + 1;
        }
        proof {
            assert(children@.take(children@.len() as int) =~= children@);
        }
        result
    }
}

/// No video post ever becomes a candidate, whatever its other attributes.
pub proof fn lemma_video_never_candidate(d: ChildrenData, cfg: Config)
    requires
        d.is_video,
    ensures
        !eligible(d, cfg),
{
}

/// While NSFW is disallowed, no adult post becomes a candidate.
pub proof fn lemma_adult_excluded_when_nsfw_disallowed(d: ChildrenData, cfg: Config)
    requires
        d.over_18,
        !cfg.downloads.nsfw,
    ensures
        !eligible(d, cfg),
{
}

/// While NSFW is allowed, adult status alone never decides eligibility:
/// two posts that differ in nothing but their adult flag are either both
/// eligible or both not.
pub proof fn lemma_adult_ignored_when_nsfw_allowed(d1: ChildrenData, d2: ChildrenData, cfg: Config)
    requires
        cfg.downloads.nsfw,
        d1.subreddit == d2.subreddit,
        d1.title == d2.title,
        d1.post_hint == d2.post_hint,
        d1.preview == d2.preview,
        d1.id == d2.id,
        d1.author == d2.author,
        d1.permalink == d2.permalink,
        d1.stickied == d2.stickied,
        d1.url == d2.url,
        d1.is_video == d2.is_video,
        d1.is_gallery == d2.is_gallery,
    ensures
        eligible(d1, cfg) == eligible(d2, cfg),
{
}

/// A post whose image ratio lies strictly outside the enabled tolerance
/// window never becomes a candidate.
pub proof fn lemma_aspect_outside_never_candidate(d: ChildrenData, cfg: Config)
    requires
        cfg.aspect_ratio.enable,
        post_size(d) is Some,
        !aspect_ratio_ok(post_size(d).unwrap().0, post_size(d).unwrap().1, cfg.aspect_ratio),
    ensures
        !eligible(d, cfg),
{
}

/// A post whose image falls below either enabled minimum dimension never
/// becomes a candidate.
pub proof fn lemma_below_minimum_never_candidate(d: ChildrenData, cfg: Config)
    requires
        cfg.minimum_size.enable,
        post_size(d) is Some,
        post_size(d).unwrap().0 < cfg.minimum_size.minimum_width || post_size(d).unwrap().1
            < cfg.minimum_size.minimum_height,
    ensures
        !eligible(d, cfg),
{
}

/// Every eligible post yields its candidate: filtering drops nothing that
/// passes every filter.
pub proof fn lemma_eligible_posts_kept(children: Seq<Children>, cfg: Config)
    ensures
        forall|i: int|
            0 <= i < children.len() && eligible(#[trigger] children[i].data, cfg) ==> metas_of(
                children,
                cfg,
            ).contains(meta_view_of(children[i].data)),
    decreases children.len(),
{
    if children.len() > 0 {
        lemma_eligible_posts_kept(children.drop_last(), cfg);
        assert forall|i: int|
            0 <= i < children.len() && eligible(#[trigger] children[i].data, cfg) implies metas_of(
            children,
            cfg,
        ).contains(meta_view_of(children[i].data)) by {
            let s = metas_of(children, cfg);
            let p = metas_of(children.drop_last(), cfg);
            if i < children.len() - 1 {
                assert(children.drop_last()[i] == children[i]);
                assert(p.contains(meta_view_of(children[i].data)));
                let k = choose|k: int| 0 <= k < p.len() && p[k] == meta_view_of(children[i].data);
                assert(s[k] == meta_view_of(children[i].data));
            } else {
                assert(s[p.len() as int] == meta_view_of(children.last().data));
            }
        }
    }
}

/// Every candidate a listing yields stems from an eligible post of that
/// listing; filtering invents nothing.
pub proof fn lemma_metas_only_from_eligible(children: Seq<Children>, cfg: Config)
    ensures
        forall|m: MetaView| #[trigger]
            metas_of(children, cfg).contains(m) ==> exists|i: int|
                0 <= i < children.len() && eligible(#[trigger] children[i].data, cfg) && m
                    == meta_view_of(children[i].data),
    decreases children.len(),
{
    if children.len() == 0 {
    } else {
        let pre = children.drop_last();
        lemma_metas_only_from_eligible(pre, cfg);
        assert forall|m: MetaView| #[trigger] metas_of(children, cfg).contains(m) implies exists|i: int|
            0 <= i < children.len() && eligible(#[trigger] children[i].data, cfg) && m
                == meta_view_of(children[i].data) by {
            let s = metas_of(children, cfg);
            let p = metas_of(pre, cfg);
            let k = choose|k: int| 0 <= k < s.len() && s[k] == m;
            if k < p.len() {
                assert(p[k] == m);
                assert(p.contains(m));
                let i = choose|i: int|
                    0 <= i < pre.len() && eligible(#[trigger] pre[i].data, cfg) && m
                        == meta_view_of(pre[i].data);
                assert(children[i] == pre[i]);
                assert(eligible(children[i].data, cfg) && m == meta_view_of(children[i].data));
            } else {
                assert(eligible(children.last().data, cfg));
                assert(m == meta_view_of(children[children.len() - 1].data));
            }
        }
    }
}

} // verus!
