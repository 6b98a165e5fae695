//! The sitemap and robots.txt served for search engines.
use vstd::prelude::*;
use crate::text::{contains_seq, occurs_at, owned};

verus! {

/// The site's base URL: the configured one, or the local development server.
pub fn site_url_or_default(configured: Option<String>) -> (r: String)
    ensures
        configured matches Some(c) ==> r@ == c@,
        configured is None ==> r@ == "http://localhost:3000"@,
{
    match configured {
        Some(c) => c,
        None => owned("http://localhost:3000"),
    }
}

/// One `<url>` entry of the sitemap.
pub open spec fn url_entry(
    loc: Seq<char>,
    today: Seq<char>,
    changefreq: Seq<char>,
    priority: Seq<char>,
) -> Seq<char> {
    "\n  <url>\n    <loc>"@ + loc + "</loc>\n    <lastmod>"@ + today
        + "</lastmod>\n    <changefreq>"@ + changefreq + "</changefreq>\n    <priority>"@ + priority
        + "</priority>\n  </url>"@
}

/// The opening of the sitemap document.
pub open spec fn sitemap_head() -> Seq<char> {
    "<?xml version=\"1.0\" encoding=\"UTF-8\"?>\n<urlset xmlns=\"http://www.sitemaps.org/schemas/sitemap/0.9\">"@
}

/// The entries of the public pages, in menu order.
pub open spec fn static_entries(base: Seq<char>, today: Seq<char>) -> Seq<char> {
    url_entry(base + "/"@, today, "daily"@, "1.0"@) + url_entry(
        base + "/explore"@,
        today,
        "hourly"@,
        "0.9"@,
    ) + url_entry(base + "/leaderboard"@, today, "hourly"@, "0.8"@) + url_entry(
        base + "/about"@,
        today,
        "monthly"@,
        "0.5"@,
    ) + url_entry(base + "/faq"@, today, "monthly"@, "0.5"@) + url_entry(
        base + "/privacy"@,
        today,
        "monthly"@,
        "0.3"@,
    ) + url_entry(base + "/terms"@, today, "monthly"@, "0.3"@)
}

/// The entry of one streamer's donation page.
pub open spec fn streamer_entry(base: Seq<char>, today: Seq<char>, username: Seq<char>) -> Seq<
    char,
> {
    url_entry(base + "/streamer/"@ + username, today, "daily"@, "0.8"@)
}

/// The entries of the streamers' pages, in the order given.
pub open spec fn streamer_entries(base: Seq<char>, today: Seq<char>, names: Seq<Seq<char>>) -> Seq<
    char,
>
    decreases names.len(),
{
    if names.len() == 0 {
        Seq::empty()
    } else {
        streamer_entries(base, today, names.drop_last()) + streamer_entry(
            base,
            today,
            names.last(),
        )
    }
}

/// The whole sitemap for `base`, dated `today`, listing the public pages
/// and then each streamer's page.
pub open spec fn spec_sitemap(base: Seq<char>, today: Seq<char>, names: Seq<Seq<char>>) -> Seq<
    char,
> {
    sitemap_head() + static_entries(base, today) + streamer_entries(base, today, names)
        + "\n</urlset>\n"@
}

fn push_entry(xml: &mut String, loc_base: &str, loc_rest: &str, today: &str, changefreq: &str, priority: &str)
    ensures
        final(xml)@ == old(xml)@ + url_entry(loc_base@ + loc_rest@, today@, changefreq@, priority@),
{
    xml.append("\n  <url>\n    <loc>");
    xml.append(loc_base);
    xml.append(loc_rest);
    xml.append("</loc>\n    <lastmod>");
    xml.append(today);
    xml.append("</lastmod>\n    <changefreq>");
    xml.append(changefreq);
    xml.append("</changefreq>\n    <priority>");
    xml.append(priority);
    xml.append("</priority>\n  </url>");
    assert(final(xml)@ =~= old(xml)@ + url_entry(
        loc_base@ + loc_rest@,
        today@,
        changefreq@,
        priority@,
    ));
}

/// The sitemap document: the public pages, then one entry per streamer
/// username in the order given, all dated `today`.
pub fn sitemap_xml(base_url: &str, today: &str, usernames: &Vec<String>) -> (xml: String)
    ensures
        xml@ == spec_sitemap(base_url@, today@, usernames@.map_values(|s: String| s@)),
{
    let ghost names = usernames@.map_values(|s: String| s@);
    let mut xml = owned(
        "<?xml version=\"1.0\" encoding=\"UTF-8\"?>\n<urlset xmlns=\"http://www.sitemaps.org/schemas/sitemap/0.9\">",
    );
    push_entry(&mut xml, base_url, "/", today, "daily", "1.0");
    push_entry(&mut xml, base_url, "/explore", today, "hourly", "0.9");
    push_entry(&mut xml, base_url, "/leaderboard", today, "hourly", "0.8");
    push_entry(&mut xml, base_url, "/about", today, "monthly", "0.5");
    push_entry(&mut xml, base_url, "/faq", today, "monthly", "0.5");
    push_entry(&mut xml, base_url, "/privacy", today, "monthly", "0.3");
    push_entry(&mut xml, base_url, "/terms", today, "monthly", "0.3");
    let ghost head = xml@;
    assert(head =~= sitemap_head() + static_entries(base_url@, today@));
    let mut i: usize = 0;
    while i < usernames.len()
        invariant
            i <= usernames@.len(),
            names == usernames@.map_values(|s: String| s@),
            head == sitemap_head() + static_entries(base_url@, today@),
            xml@ == head + streamer_entries(base_url@, today@, names.take(i as int)),
        decreases usernames@.len() - i,
    {
        let mut loc = owned("/streamer/");
        loc.append(usernames[i].as_str());
        push_entry(&mut xml, base_url, loc.as_str(), today, "daily", "0.8");
        assert(names.take(i + 1).drop_last() =~= names.take(i as int));
        assert(base_url@ + loc@ =~= base_url@ + "/streamer/"@ + names[i as int]);
        assert(xml@ =~= head + streamer_entries(base_url@, today@, names.take(i + 1)));
        i = i + 1;
    }
    assert(names.take(usernames@.len() as int) =~= names);
    xml.append("\n</urlset>\n");
    assert(xml@ =~= spec_sitemap(base_url@, today@, names));
    xml
}

proof fn lemma_entries_contain(base: Seq<char>, today: Seq<char>, names: Seq<Seq<char>>, i: int)
    requires
        0 <= i < names.len(),
    ensures
        contains_seq(streamer_entries(base, today, names), streamer_entry(base, today, names[i])),
    decreases names.len(),
{
    let all = streamer_entries(base, today, names);
    let front = streamer_entries(base, today, names.drop_last());
    let e = streamer_entry(base, today, names.last());
    assert(all == front + e);
    if i == names.len() - 1 {
        assert(all.subrange(front.len() as int, (front.len() + e.len()) as int) =~= e);
        assert(occurs_at(all, e, front.len() as int));
    } else {
        lemma_entries_contain(base, today, names.drop_last(), i);
        let ei = streamer_entry(base, today, names[i]);
        let k: int = choose|k: int| occurs_at(front, ei, k);
        assert(all.subrange(k, k + ei.len()) =~= front.subrange(k, k + ei.len()));
        assert(occurs_at(all, ei, k));
    }
}

/// Every streamer's donation page is listed in the sitemap with its own
/// entry.
pub proof fn law_sitemap_lists_every_streamer(
    base: Seq<char>,
    today: Seq<char>,
    names: Seq<Seq<char>>,
    i: int,
)
    requires
        0 <= i < names.len(),
    ensures
        contains_seq(spec_sitemap(base, today, names), streamer_entry(base, today, names[i])),
{
    lemma_entries_contain(base, today, names, i);
    let ents = streamer_entries(base, today, names);
    let ei = streamer_entry(base, today, names[i]);
    let k: int = choose|k: int| occurs_at(ents, ei, k);
    let pre = sitemap_head() + static_entries(base, today);
    let doc = spec_sitemap(base, today, names);
    assert(doc == pre + ents + "\n</urlset>\n"@);
    assert(doc.subrange(pre.len() + k, pre.len() + k + ei.len()) =~= ents.subrange(
        k,
        k + ei.len(),
    ));
    assert(occurs_at(doc, ei, pre.len() + k));
}

/// The body of robots.txt: everything may be crawled except the dashboard,
/// the overlays and the API, and the sitemap is announced.
pub fn robots_txt(base_url: &str) -> (r: String)
    ensures
        r@ == "User-agent: *\nAllow: /\nDisallow: /dashboard/\nDisallow: /overlay/\nDisallow: /api/\n\nSitemap: "@
            + base_url@ + "/sitemap.xml\n"@,
{
    let mut r = owned(
        "User-agent: *\nAllow: /\nDisallow: /dashboard/\nDisallow: /overlay/\nDisallow: /api/\n\nSitemap: ",
    );
    r.append(base_url);
    r.append("/sitemap.xml\n");
    r
}

} // verus!
