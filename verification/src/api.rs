//! URL building for the outbound API pages: the configurable caller
//! (endpoint lookup, parameter merging, query encoding) and the fixed
//! proxy with its closed set of endpoint keywords.
//!
//! Performing the HTTP request and shipping the response back are the
//! host's concern; everything up to the final URL is decided here.

use crate::assoc::AssocList;
use crate::routes::ApiEndpointConfig;
use vstd::prelude::*;

verus! {

/// Query parameters accepted by the fixed proxy page.
#[allow(non_snake_case)]
pub struct ApiProxyParams {
    /// The endpoint keyword to call.
    pub endpoint: String,
    /// Only for the news feed: maximum number of entries.
    pub maxEntries: Option<i32>,
    /// Only for the news feed: only entries after this timestamp.
    pub fromTimestamp: Option<i64>,
}

/// What the Unicode-lowercased form of the characters `s` looks like.
/// Named rather than spelled out; the endpoint keywords below are all
/// ASCII, so a lowercased parameter matches them exactly when it should.
pub uninterp spec fn lowercased(s: Seq<char>) -> Seq<char>;

/// Relies on `str::to_lowercase`: the Unicode-lowercased text, a
/// function of the characters alone.
#[verifier::external_body]
fn to_lowercase_str(s: &str) -> (r: String)
    ensures
        r@ == lowercased(s@),
{
    s.to_lowercase()
}

/// What the `application/x-www-form-urlencoded` rendering of the given
/// key/value pairs, in order, looks like. Named rather than spelled out;
/// the URL contracts compose it.
pub uninterp spec fn form_urlencoded_of(pairs: Seq<(Seq<char>, Seq<char>)>) -> Seq<char>;

/// The views of a vector of string pairs.
pub open spec fn pairs_view(s: Seq<(String, String)>) -> Seq<(Seq<char>, Seq<char>)> {
    s.map_values(|p: (String, String)| (p.0@, p.1@))
}

/// Relies on `serde_urlencoded::to_string` applied to a sequence of
/// string pairs: the form-urlencoded rendering, in order, a function of
/// the pairs alone; serializing string pairs into a buffer cannot fail.
#[verifier::external_body]
fn urlencode_pairs(pairs: &Vec<(String, String)>) -> (r: String)
    ensures
        r@ == form_urlencoded_of(pairs_view(pairs@)),
{
    match serde_urlencoded::to_string(pairs) {
        Ok(s) => s,
        Err(_) => String::new(),
    }
}

/// The key/value pairs of a vector folded into a map, later entries
/// winning.
pub open spec fn pairs_map(s: Seq<(String, String)>) -> Map<Seq<char>, String>
    decreases s.len(),
{
    if s.len() == 0 {
        Map::empty()
    } else {
        pairs_map(s.drop_last()).insert(s.last().0@, s.last().1)
    }
}

/// The defaults overridden by the request's parameters: every pair of
/// `s` but the endpoint selector itself is written over `m`, later
/// entries winning.
pub open spec fn override_params(m: Map<Seq<char>, String>, s: Seq<(String, String)>) -> Map<
    Seq<char>,
    String,
>
    decreases s.len(),
{
    if s.len() == 0 {
        m
    } else {
        let prev = override_params(m, s.drop_last());
        if s.last().0@ == "endpoint"@ {
            prev
        } else {
            prev.insert(s.last().0@, s.last().1)
        }
    }
}

/// Merge an endpoint's default parameters with the request's: defaults
/// first (later duplicates winning, as a map), then every request
/// parameter except the endpoint selector written over them.
pub fn merge_params(defaults: &Vec<(String, String)>, params: &Vec<(String, String)>) -> (r:
    AssocList<String>)
    ensures
        r.wf(),
        r.view_map() =~= override_params(pairs_map(defaults@), params@),
{
    let mut merged: AssocList<String> = AssocList::new();
    let dn = defaults.len();
    let mut i: usize = 0;
    while i < dn
        invariant
            i <= dn,
            dn == defaults@.len(),
            merged.wf(),
            merged.view_map() =~= pairs_map(defaults@.take(i as int)),
        decreases dn - i,
    {
        let (k, v) = (&defaults[i].0, &defaults[i].1);
        merged.insert(k.clone(), v.clone());
        proof {
            assert(defaults@.take(i + 1).drop_last() =~= defaults@.take(i as int));
            assert(defaults@.take(i + 1).last() == defaults@[i as int]);
        }
        i += 1;
    }
    proof {
        assert(defaults@.take(dn as int) =~= defaults@);
    }
    let endpoint_key = String::from_str("endpoint");
    let pn = params.len();
    let mut j: usize = 0;
    while j < pn
        invariant
            j <= pn,
            pn == params@.len(),
            merged.wf(),
            merged.view_map() =~= override_params(pairs_map(defaults@), params@.take(j as int)),
            endpoint_key@ == "endpoint"@,
        decreases pn - j,
    {
        let (k, v) = (&params[j].0, &params[j].1);
        if *k != endpoint_key {
            merged.insert(k.clone(), v.clone());
        }
        proof {
            assert(params@.take(j + 1).drop_last() =~= params@.take(j as int));
            assert(params@.take(j + 1).last() == params@[j as int]);
        }
        j += 1;
    }
    proof {
        assert(params@.take(pn as int) =~= params@);
    }
    merged
}

/// Look up an endpoint's configuration by its (lowercased) keyword: the
/// first pair with that key.
pub fn find_endpoint<'a>(
    endpoints: &'a Vec<(String, ApiEndpointConfig)>,
    key: &String,
) -> (r: Option<&'a ApiEndpointConfig>)
    ensures
        match r {
            Some(cfg) => exists|i: int|
                0 <= i < endpoints@.len() && #[trigger] endpoints@[i].0@ == key@ && *cfg
                    == endpoints@[i].1,
            None => forall|i: int| 0 <= i < endpoints@.len() ==> #[trigger] endpoints@[i].0@
                != key@,
        },
{
    let n = endpoints.len();
    let mut i: usize = 0;
    while i < n
        invariant
            i <= n,
            n == endpoints@.len(),
            forall|a: int| 0 <= a < i ==> #[trigger] endpoints@[a].0@ != key@,
        decreases n - i,
    {
        if endpoints[i].0 == *key {
            return Some(&endpoints[i].1);
        }
        i += 1;
    }
    None
}

/// The URL for one configured endpoint call: the base joined with the
/// endpoint's path, plus the encoded merged parameters when there are
/// any.
pub fn api_query_url(base_url: &str, path: &str, merged: &Vec<(String, String)>) -> (r: String)
    ensures
        merged@.len() == 0 ==> r@ == base_url@ + path@,
        merged@.len() != 0 ==> r@ == base_url@ + path@ + "?"@ + form_urlencoded_of(
            pairs_view(merged@),
        ),
{
    let mut url = String::from_str(base_url);
    url.append(path);
    if merged.len() > 0 {
        url.append("?");
        let q = urlencode_pairs(merged);
        url.append(q.as_str());
    }
    url
}

/// The news-feed query: the entry cap (1024 when the request gives
/// none), then the optional timestamp bound.
pub open spec fn newsfeed_query_rep(max: Option<Seq<char>>, from: Option<Seq<char>>) -> Seq<
    char,
> {
    (match max {
        Some(m) => "maxEntries="@ + m,
        None => "maxEntries=1024"@,
    }) + (match from {
        Some(f) => "&fromTimestamp="@ + f,
        None => ""@,
    })
}

/// The proxy's URL for one endpoint keyword, or nothing for an unknown
/// keyword.
pub open spec fn proxy_url_rep(
    base: Seq<char>,
    endpoint_lower: Seq<char>,
    max: Option<Seq<char>>,
    from: Option<Seq<char>>,
) -> Option<Seq<char>> {
    if endpoint_lower == "warstatus"@ {
        Some(base + "/WarSeason/801/Status"@)
    } else if endpoint_lower == "warinfo"@ {
        Some(base + "/WarSeason/801/WarInfo"@)
    } else if endpoint_lower == "newsfeed"@ {
        Some(base + "/NewsFeed/801"@ + "?"@ + newsfeed_query_rep(max, from))
    } else if endpoint_lower == "majororders"@ {
        Some(base + "/v2/Assignment/War/801"@)
    } else if endpoint_lower == "globalstats"@ {
        Some(base + "/Stats/War/801/Summary"@)
    } else if endpoint_lower == "missionrewards"@ {
        Some(base + "/Mission/RewardEntries"@)
    } else if endpoint_lower == "newsticker"@ {
        Some(base + "/WarSeason/NewsTicker"@)
    } else if endpoint_lower == "gweffects"@ {
        Some(base + "/WarSeason/GalacticWarEffects"@)
    } else {
        None
    }
}

/// The proxy's URL for a request: the endpoint parameter is lowercased
/// and matched against the known keywords; an unknown keyword yields
/// nothing (the host answers it as a bad request).
pub fn proxy_endpoint_url(
    base_url: &str,
    endpoint_param: &str,
    max_entries: Option<&String>,
    from_timestamp: Option<&String>,
) -> (r: Option<String>)
    ensures
        (match r {
            Some(u) => Some(u@),
            None => None::<Seq<char>>,
        }) == proxy_url_rep(
            base_url@,
            lowercased(endpoint_param@),
            match max_entries {
                Some(m) => Some(m@),
                None => None::<Seq<char>>,
            },
            match from_timestamp {
                Some(f) => Some(f@),
                None => None::<Seq<char>>,
            },
        ),
{
    let endpoint = to_lowercase_str(endpoint_param);
    let mut url = String::from_str(base_url);
    if endpoint == String::from_str("warstatus") {
        url.append("/WarSeason/801/Status");
        Some(url)
    } else if endpoint == String::from_str("warinfo") {
        url.append("/WarSeason/801/WarInfo");
        Some(url)
    } else if endpoint == String::from_str("newsfeed") {
        url.append("/NewsFeed/801");
        url.append("?");
        let ghost pre_query = url@;
        let ghost max_v = match max_entries {
            Some(m) => Some(m@),
            None => None::<Seq<char>>,
        };
        let ghost from_v = match from_timestamp {
            Some(f) => Some(f@),
            None => None::<Seq<char>>,
        };
        match max_entries {
            Some(m) => {
                url.append("maxEntries=");
                url.append(m.as_str());
                proof {
                    assert(url@ =~= pre_query + ("maxEntries="@ + m@));
                }
            },
            None => {
                url.append("maxEntries=1024");
            },
        }
        proof {
            assert(url@ == pre_query + (match max_v {
                Some(m) => "maxEntries="@ + m,
                None => "maxEntries=1024"@,
            }));
        }
        let ghost with_max = url@;
        match from_timestamp {
            Some(f) => {
                url.append("&fromTimestamp=");
                url.append(f.as_str());
                proof {
                    assert(url@ =~= with_max + ("&fromTimestamp="@ + f@));
                }
            },
            None => {
                proof {
                    reveal_strlit("");
                    assert(url@ =~= with_max + ""@);
                }
            },
        }
        proof {
            assert(url@ == with_max + (match from_v {
                Some(f) => "&fromTimestamp="@ + f,
                None => ""@,
            }));
            assert(url@ =~= pre_query + newsfeed_query_rep(max_v, from_v));
            assert(url@ =~= base_url@ + "/NewsFeed/801"@ + "?"@ + newsfeed_query_rep(
                max_v,
                from_v,
            ));
        }
        Some(url)
    } else if endpoint == String::from_str("majororders") {
        url.append("/v2/Assignment/War/801");
        Some(url)
    } else if endpoint == String::from_str("globalstats") {
        url.append("/Stats/War/801/Summary");
        Some(url)
    } else if endpoint == String::from_str("missionrewards") {
        url.append("/Mission/RewardEntries");
        Some(url)
    } else if endpoint == String::from_str("newsticker") {
        url.append("/WarSeason/NewsTicker");
        Some(url)
    } else if endpoint == String::from_str("gweffects") {
        url.append("/WarSeason/GalacticWarEffects");
        Some(url)
    } else {
        None
    }
}

} // verus!
