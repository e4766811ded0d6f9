use ridit::meta::DownloadMeta;
use ridit::paths::{check_config_exists, config_file_path, join_path, xdg_config_dir};
use ridit::sort::Sort;
use ridit::urls::{filename_from_url, listing_url, post_link};

#[test]
fn join_path_puts_one_slash_between() {
    assert_eq!(join_path("/data", "wallpapers"), "/data/wallpapers");
    assert_eq!(join_path("", "x"), "/x");
}

#[test]
fn listing_url_names_subreddit_and_sort() {
    assert_eq!(
        listing_url("wallpapers", Sort::Hot),
        "https://reddit.com/r/wallpapers/hot.json?limit=100"
    );
    assert_eq!(
        listing_url("earthporn", Sort::Controversial),
        "https://reddit.com/r/earthporn/controversial.json?limit=100"
    );
}

#[test]
fn post_link_prefixes_the_site() {
    assert_eq!(
        post_link("/r/wallpapers/comments/x1/foo/"),
        "https://reddit.com/r/wallpapers/comments/x1/foo/"
    );
}

#[test]
fn filename_is_the_last_url_segment() {
    assert_eq!(filename_from_url("https://i.example.com/abcd.jpg"), "abcd.jpg");
    assert_eq!(filename_from_url("https://i.example.com/a/b/c.png"), "c.png");
    // Kept as-is: no slash means the whole string, and a query string stays.
    assert_eq!(filename_from_url("plain"), "plain");
    assert_eq!(filename_from_url("https://x.example.com/f.jpg?width=1"), "f.jpg?width=1");
    assert_eq!(filename_from_url("https://x.example.com/dir/"), "");
}

#[test]
fn file_location_is_root_subreddit_filename() {
    let m = DownloadMeta {
        url: "https://i.example.com/pic.jpg".to_string(),
        subreddit_name: "wallpapers".to_string(),
        image_height: 2160,
        image_width: 3840,
        post_link: String::new(),
        nsfw: false,
        filename: "pic.jpg".to_string(),
        title: String::new(),
        author: String::new(),
    };
    assert_eq!(m.get_file_location("/data/ridit"), "/data/ridit/wallpapers/pic.jpg");
}

#[test]
fn sort_parsing_ignores_ascii_case_and_falls_back_to_hot() {
    assert_eq!(Sort::from_name("new"), Sort::New);
    assert_eq!(Sort::from_name("NEW"), Sort::New);
    assert_eq!(Sort::from_name("Top"), Sort::Top);
    assert_eq!(Sort::from_name("rIsInG"), Sort::Rising);
    assert_eq!(Sort::from_name("controversial"), Sort::Controversial);
    assert_eq!(Sort::from_name("hot"), Sort::Hot);
    assert_eq!(Sort::from_name(""), Sort::Hot);
    assert_eq!(Sort::from_name("bogus"), Sort::Hot);
}

#[test]
fn sort_names_are_the_url_keywords() {
    assert_eq!(Sort::Hot.name(), "hot");
    assert_eq!(Sort::New.name(), "new");
    assert_eq!(Sort::Rising.name(), "rising");
    assert_eq!(Sort::Controversial.name(), "controversial");
    assert_eq!(Sort::Top.name(), "top");
}

#[test]
fn xdg_config_dir_depends_on_platform() {
    assert_eq!(xdg_config_dir("/home/u", false), "/home/u/.config/ridit");
    assert_eq!(xdg_config_dir("C:/Users/u", true), "C:/Users/u/AppData/local/ridit");
}

#[test]
fn config_file_is_ridit_toml() {
    assert_eq!(config_file_path("/home/u/.config/ridit"), "/home/u/.config/ridit/ridit.toml");
}

#[test]
fn unresolvable_config_candidates_count_as_absent() {
    assert_eq!(check_config_exists(None, None), (false, false));
    let nowhere = "/nonexistent-ridit-test-dir/ridit.toml".to_string();
    assert_eq!(check_config_exists(Some(&nowhere), Some(&nowhere)), (false, false));
}
