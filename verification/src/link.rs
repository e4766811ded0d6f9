//! Planning the consolidated link for one stored file.
//!
//! When the link feature is on, every stored file gets a reference of the
//! same name in one consolidated directory: a configured custom directory,
//! or `_joined` under the download root. Creating the link is best-effort
//! and a failure never retracts the stored file.

use vstd::prelude::*;
use crate::config::Config;
use crate::meta::DownloadMeta;
use crate::paths::{file_location, join_path, joined};

verus! {

/// Where one stored file's link goes: the directory to ensure, the link
/// path inside it, and the stored file it points at.
#[derive(Debug, Clone)]
pub struct LinkPlan {
    pub directory: String,
    pub link_path: String,
    pub source: String,
}

/// Plan the link for one stored candidate: nothing when the feature is
/// off; otherwise a link named after the file, inside the custom directory
/// when one is configured and inside `_joined` under the download root
/// when not, pointing at the stored file.
pub fn link_plan(config: &Config, meta: &DownloadMeta) -> (r: Option<LinkPlan>)
    ensures
        r is Some <==> config.symbolic_link.enable,
        r is Some ==> r.unwrap().source@ == file_location(
            config.downloads.path@,
            meta.subreddit_name@,
            meta.filename@,
        ),
        r is Some && config.symbolic_link.use_custom_path ==> r.unwrap().directory@
            == config.symbolic_link.custom_path@,
        r is Some && !config.symbolic_link.use_custom_path ==> r.unwrap().directory@ == joined(
            config.downloads.path@,
            "_joined"@,
        ),
        r is Some ==> r.unwrap().link_path@ == joined(r.unwrap().directory@, meta.filename@),
{
    if !config.symbolic_link.enable {
        return None;
    }
    let source = meta.get_file_location(config.downloads.path.as_str());
    let directory = if config.symbolic_link.use_custom_path {
        config.symbolic_link.custom_path.clone()
    } else {
        join_path(config.downloads.path.as_str(), "_joined")
    };
    let link_path = join_path(directory.as_str(), meta.filename.as_str());
    Some(LinkPlan { directory, link_path, source })
}

} // verus!
