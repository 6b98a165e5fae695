use open_donate::sitemap::{robots_txt, site_url_or_default, sitemap_xml};

fn entry(loc: &str, freq: &str, prio: &str) -> String {
    format!(
        "\n  <url>\n    <loc>{loc}</loc>\n    <lastmod>2024-05-01</lastmod>\n    <changefreq>{freq}</changefreq>\n    <priority>{prio}</priority>\n  </url>"
    )
}

#[test]
fn sitemap_document() {
    let xml = sitemap_xml("https://glint.app", "2024-05-01", &vec!["neonviper".to_string(), "kim".to_string()]);
    let mut expected = String::from("<?xml version=\"1.0\" encoding=\"UTF-8\"?>\n<urlset xmlns=\"http://www.sitemaps.org/schemas/sitemap/0.9\">");
    for (p, pr, f) in [
        ("/", "1.0", "daily"),
        ("/explore", "0.9", "hourly"),
        ("/leaderboard", "0.8", "hourly"),
        ("/about", "0.5", "monthly"),
        ("/faq", "0.5", "monthly"),
        ("/privacy", "0.3", "monthly"),
        ("/terms", "0.3", "monthly"),
    ] {
        expected.push_str(&entry(&format!("https://glint.app{p}"), f, pr));
    }
    expected.push_str(&entry("https://glint.app/streamer/neonviper", "daily", "0.8"));
    expected.push_str(&entry("https://glint.app/streamer/kim", "daily", "0.8"));
    expected.push_str("\n</urlset>\n");
    assert_eq!(xml, expected);
}

#[test]
fn sitemap_lists_every_streamer() {
    let names: Vec<String> = (0..25).map(|i| format!("s{i}")).collect();
    let xml = sitemap_xml("http://h", "d", &names);
    for n in &names {
        assert!(xml.contains(&format!("<loc>http://h/streamer/{n}</loc>")));
    }
    assert_eq!(xml.matches("<url>").count(), 7 + names.len());
}

#[test]
fn sitemap_without_streamers() {
    let xml = sitemap_xml("http://h", "d", &vec![]);
    assert_eq!(xml.matches("<url>").count(), 7);
    assert!(xml.ends_with("</url>\n</urlset>\n"));
}

#[test]
fn robots() {
    assert_eq!(
        robots_txt("https://glint.app"),
        "User-agent: *\nAllow: /\nDisallow: /dashboard/\nDisallow: /overlay/\nDisallow: /api/\n\nSitemap: https://glint.app/sitemap.xml\n"
    );
}

#[test]
fn site_url_default() {
    assert_eq!(site_url_or_default(None), "http://localhost:3000");
    assert_eq!(site_url_or_default(Some("https://g".to_string())), "https://g");
}
