//! Links between pages: language-prefixed hrefs of the header and footer,
//! which navigation entry is highlighted, and the path a language switch
//! leads to.
use vstd::prelude::*;
use crate::text::{has_prefix, owned, starts_with, str_eq, to_chars, trim_leading, trim_start_char, string_from_chars};

verus! {

/// The href of a page under the current language: `/{lang}` for the home
/// page, `/{lang}/{page}` otherwise (leading slashes of the page dropped).
pub open spec fn spec_localized_href(lang: Seq<char>, base_path: Seq<char>) -> Seq<char> {
    if base_path == "/"@ {
        "/"@ + lang
    } else {
        "/"@ + lang + "/"@ + trim_leading(base_path, '/')
    }
}

/// The href of a page under the current language.
pub fn localized_href(lang: &str, base_path: &str) -> (r: String)
    ensures
        r@ == spec_localized_href(lang@, base_path@),
{
    let mut r = owned("/");
    r.append(lang);
    if str_eq(base_path, "/") {
        r
    } else {
        r.append("/");
        let rest = trim_start_char(base_path, '/');
        r.append(rest.as_str());
        r
    }
}

/// Whether the header highlights the entry for `base_path` while the
/// browser is at `path`: the home entry only on the home page itself, any
/// other entry on every path below it.
pub open spec fn spec_header_nav_active(path: Seq<char>, lang: Seq<char>, base_path: Seq<char>) -> bool {
    let target = spec_localized_href(lang, base_path);
    if base_path == "/"@ {
        path == target || path == target + "/"@
    } else {
        has_prefix(path, target)
    }
}

/// Whether the header highlights the entry for `base_path`.
pub fn header_nav_active(path: &str, lang: &str, base_path: &str) -> (b: bool)
    ensures
        b == spec_header_nav_active(path@, lang@, base_path@),
{
    let target = localized_href(lang, base_path);
    if str_eq(base_path, "/") {
        if str_eq(path, target.as_str()) {
            true
        } else {
            let mut with_slash = owned(target.as_str());
            with_slash.append("/");
            str_eq(path, with_slash.as_str())
        }
    } else {
        starts_with(path, target.as_str())
    }
}

/// The path a language switch leads to: the current language prefix
/// replaced by the new one, or the new prefix put in front of a path that
/// has none.
pub open spec fn spec_switch_language(path: Seq<char>, current: Seq<char>, new_lang: Seq<char>) -> Seq<char> {
    let prefix = "/"@ + current;
    if has_prefix(path, prefix) {
        "/"@ + new_lang + path.subrange(prefix.len() as int, path.len() as int)
    } else {
        "/"@ + new_lang + path
    }
}

/// The path a language switch leads to.
pub fn switch_language_path(path: &str, current_lang: &str, new_lang: &str) -> (r: String)
    ensures
        r@ == spec_switch_language(path@, current_lang@, new_lang@),
{
    let mut prefix = owned("/");
    prefix.append(current_lang);
    let mut r = owned("/");
    r.append(new_lang);
    if starts_with(path, prefix.as_str()) {
        let v = to_chars(path);
        let plen: usize = to_chars(prefix.as_str()).len();
        let rest = string_from_chars(&v, plen, v.len());
        r.append(rest.as_str());
    } else {
        r.append(path);
    }
    r
}

/// Switching to another language and back returns to the same page.
pub proof fn law_language_switch_round_trip(path: Seq<char>, a: Seq<char>, b: Seq<char>)
    requires
        has_prefix(path, "/"@ + a),
    ensures
        spec_switch_language(spec_switch_language(path, a, b), b, a) == path,
{
    let pa = "/"@ + a;
    let pb = "/"@ + b;
    let rest = path.subrange(pa.len() as int, path.len() as int);
    let mid = pb + rest;
    assert(spec_switch_language(path, a, b) == mid);
    assert(mid.subrange(0, pb.len() as int) =~= pb);
    assert(mid.subrange(pb.len() as int, mid.len() as int) =~= rest);
    assert(pa + rest =~= path) by {
        assert(path.subrange(0, pa.len() as int) == pa);
    }
}

/// Whether the dashboard's side menu highlights the entry `entry` while the
/// browser is at `path`; the dashboard home also matches with a trailing
/// slash.
pub fn dashboard_nav_active(path: &str, entry: &str) -> (b: bool)
    ensures
        b == (path@ == entry@ || (entry@ == "/dashboard"@ && path@ == "/dashboard/"@)),
{
    str_eq(path, entry) || (str_eq(entry, "/dashboard") && str_eq(path, "/dashboard/"))
}

} // verus!
