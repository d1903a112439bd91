//! The proxy settings of the browser session: one URL for all outbound
//! HTTP, HTTPS and FTP traffic, with no excluded domain.
use vstd::prelude::*;

verus! {

/// The view of a list of key and value pairs.
pub open spec fn pair_views(v: Seq<(String, String)>) -> Seq<(Seq<char>, Seq<char>)> {
    v.map_values(|e: (String, String)| (e.0@, e.1@))
}

/// The settings, in order, as key and value pairs.
pub open spec fn proxy_entries(proxy: Seq<char>) -> Seq<(Seq<char>, Seq<char>)> {
    seq![
        ("proxyType"@, "manual"@),
        ("httpProxy"@, proxy),
        ("sslProxy"@, proxy),
        ("ftpProxy"@, proxy),
        ("noProxy"@, ""@),
    ]
}

/// The proxy settings for a proxy URL.
pub fn proxy_settings(proxy: &str) -> (r: Vec<(String, String)>)
    ensures
        pair_views(r@) == proxy_entries(proxy@),
{
    let mut r: Vec<(String, String)> = Vec::new();
    r.push((String::from_str("proxyType"), String::from_str("manual")));
    r.push((String::from_str("httpProxy"), String::from_str(proxy)));
    r.push((String::from_str("sslProxy"), String::from_str(proxy)));
    r.push((String::from_str("ftpProxy"), String::from_str(proxy)));
    r.push((String::from_str("noProxy"), String::from_str("")));
    assert(pair_views(r@) =~= proxy_entries(proxy@));
    r
}

} // verus!
