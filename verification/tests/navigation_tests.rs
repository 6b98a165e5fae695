use open_donate::navigation::{
    dashboard_nav_active, header_nav_active, localized_href, switch_language_path,
};

#[test]
fn hrefs() {
    assert_eq!(localized_href("en", "/"), "/en");
    assert_eq!(localized_href("vi", "/about"), "/vi/about");
    assert_eq!(localized_href("en", "//faq"), "/en/faq");
    assert_eq!(localized_href("en", "dashboard"), "/en/dashboard");
}

#[test]
fn header_highlighting() {
    assert!(header_nav_active("/en", "en", "/"));
    assert!(header_nav_active("/en/", "en", "/"));
    assert!(!header_nav_active("/en/about", "en", "/"));
    assert!(header_nav_active("/en/dashboard/settings", "en", "/dashboard"));
    assert!(!header_nav_active("/vi/dashboard", "en", "/dashboard"));
}

#[test]
fn language_switch() {
    assert_eq!(switch_language_path("/en/about", "en", "vi"), "/vi/about");
    assert_eq!(switch_language_path("/about", "en", "vi"), "/vi/about");
    assert_eq!(switch_language_path("/en", "en", "vi"), "/vi");
    let there = switch_language_path("/en/streamer/kim", "en", "vi");
    assert_eq!(switch_language_path(&there, "vi", "en"), "/en/streamer/kim");
}

#[test]
fn dashboard_highlighting() {
    assert!(dashboard_nav_active("/dashboard", "/dashboard"));
    assert!(dashboard_nav_active("/dashboard/", "/dashboard"));
    assert!(!dashboard_nav_active("/dashboard/", "/dashboard/settings"));
    assert!(dashboard_nav_active("/dashboard/settings", "/dashboard/settings"));
}
