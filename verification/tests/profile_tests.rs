use open_donate::profile::{
    avatar_or_default, bio_has_toggle, dicebear_avatar_url, donate_page_title,
    email_username_prefix, is_valid_username, new_streamer_bio, new_streamer_display_name,
    overlay_url, public_name, streamer_profile_path, username_candidate, username_taken_by_other,
    username_taken_message, UsernameSearch,
};

#[test]
fn avatar_url_percent_encodes_username() {
    assert_eq!(
        dicebear_avatar_url("neon_viper-1.x~"),
        "https://api.dicebear.com/9.x/avataaars/svg?seed=neon_viper-1.x~"
    );
    assert_eq!(
        dicebear_avatar_url("a b/é"),
        "https://api.dicebear.com/9.x/avataaars/svg?seed=a%20b%2F%C3%A9"
    );
}

#[test]
fn email_prefix() {
    assert_eq!(email_username_prefix("kim@example.com"), "kim");
    assert_eq!(email_username_prefix("noatsign"), "noatsign");
    assert_eq!(email_username_prefix("a@b@c"), "a");
}

#[test]
fn candidates() {
    assert_eq!(username_candidate("kim", 0), "kim_0");
    assert_eq!(username_candidate("kim", 65535), "kim_65535");
}

#[test]
fn username_search_stops_on_free_name() {
    let mut s = UsernameSearch::new("kim".to_string());
    assert_eq!(s.candidate(), "kim");
    assert!(!s.record_check(false));
    assert_eq!(s.candidate(), "kim");
}

#[test]
fn username_search_tries_random_suffixes() {
    let mut s = UsernameSearch::new("kim".to_string());
    let mut checks = 0;
    loop {
        checks += 1;
        let again = s.record_check(true);
        let c = s.candidate();
        let suffix = c.strip_prefix("kim_").expect("prefix kept");
        assert!(suffix.parse::<u16>().is_ok());
        if !again {
            break;
        }
    }
    assert_eq!(checks, 10);
}

#[test]
fn new_streamer_defaults() {
    assert_eq!(new_streamer_display_name("", "kim"), "kim");
    assert_eq!(new_streamer_display_name("Kim L", "kim"), "Kim L");
    assert_eq!(new_streamer_bio(), "New to Glint!");
}

#[test]
fn username_conflicts() {
    assert!(username_taken_by_other(&Some("other".to_string()), "me"));
    assert!(!username_taken_by_other(&Some("me".to_string()), "me"));
    assert!(!username_taken_by_other(&None, "me"));
    assert_eq!(username_taken_message(), "Username is already taken by another user.");
}

#[test]
fn username_pattern() {
    assert!(is_valid_username("Neon_Viper99"));
    assert!(!is_valid_username(""));
    assert!(!is_valid_username("neon viper"));
    assert!(!is_valid_username("neon-viper"));
    assert!(!is_valid_username("név"));
}

#[test]
fn public_names_and_links() {
    assert_eq!(public_name("", "neonviper"), "neonviper");
    assert_eq!(public_name("NeonViper", "neonviper"), "NeonViper");
    assert_eq!(avatar_or_default(""), "https://api.dicebear.com/9.x/avataaars/svg");
    assert_eq!(avatar_or_default("https://x/y.png"), "https://x/y.png");
    assert_eq!(streamer_profile_path("neonviper"), "/streamer/neonviper");
    assert_eq!(donate_page_title("", "neonviper"), "Donate to neonviper | Glint");
    assert_eq!(donate_page_title("NeonViper", "neonviper"), "Donate to NeonViper | Glint");
    assert_eq!(overlay_url("https://glint.app", "tok-1"), "https://glint.app/overlay/tok-1");
}

#[test]
fn bio_toggle_threshold() {
    assert!(!bio_has_toggle(&"a".repeat(100)));
    assert!(bio_has_toggle(&"a".repeat(101)));
    assert!(bio_has_toggle(&"é".repeat(51)));
}

#[test]
fn avatar_seed_is_query_safe() {
    for name in ["a&b=c", "x#y?z", "ünï cødé", "~-._", "100%"] {
        let url = dicebear_avatar_url(name);
        let seed = url.strip_prefix("https://api.dicebear.com/9.x/avataaars/svg?seed=").unwrap();
        assert!(seed.chars().all(|c| c.is_ascii_alphanumeric() || "-._~%".contains(c)));
    }
    assert!(dicebear_avatar_url("100%").ends_with("seed=100%25"));
}

#[test]
fn candidates_differ_by_number() {
    let a = username_candidate("kim", 12);
    let b = username_candidate("kim", 120);
    let c = username_candidate("kim", 1);
    assert_ne!(a, b);
    assert_ne!(a, c);
    assert_ne!(b, c);
}
