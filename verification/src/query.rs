use vstd::prelude::*;
use vstd::string::StringExecFns;
use crate::config::{Search, SearchView};
use crate::numfmt::{spec_dec, u64_to_string};

verus! {

/// The fixed endpoint of the remote image search.
pub open spec fn base_url() -> Seq<char> {
    "https://wallhaven.cc/api/v1/search?"@
}

/// One query parameter: nothing when the configured value is empty (the
/// remote API's convention for "no filter"), else its `&name=value` pair.
pub open spec fn param_frag(name: Seq<char>, value: Seq<char>) -> Seq<char> {
    if value.len() == 0 {
        Seq::empty()
    } else {
        name + value
    }
}

/// The full search query for one configuration: the endpoint followed by the
/// pair of every non-empty parameter, in a fixed order.
pub open spec fn search_query(s: SearchView) -> Seq<char> {
    base_url() + param_frag("&q="@, s.query) + param_frag("&categories="@, s.categories)
        + param_frag("&purity="@, s.purity) + param_frag("&sorting="@, s.sorting)
        + param_frag("&order="@, s.order) + param_frag("&topRange="@, s.top_range)
        + param_frag("&atleast="@, s.at_least) + param_frag("&resolutions="@, s.resolutions)
        + param_frag("&ratios="@, s.ratios) + param_frag("&colors="@, s.colors)
        + param_frag("&apikey="@, s.api_key)
}

/// The URL requested in one cycle: the search query, with an explicit page
/// number only when one was chosen (`None` asks the remote API for its
/// default, first page).
pub open spec fn request_url(s: SearchView, page: Option<u64>) -> Seq<char> {
    match page {
        None => search_query(s),
        Some(k) => search_query(s) + "&page="@ + spec_dec(k as int),
    }
}

fn push_param(link: &mut String, name: &str, value: &String)
    ensures
        final(link)@ == old(link)@ + param_frag(name@, value@),
{
    if !value.as_str().is_empty() {
        link.append(name);
        link.append(value.as_str());
        proof {
            assert(link@ =~= old(link)@ + param_frag(name@, value@));
        }
    } else {
        proof {
            assert(link@ =~= old(link)@ + param_frag(name@, value@));
        }
    }
}

/// Builds the search query for a configuration: exactly the non-empty
/// parameters are appended to the endpoint, each as its `&name=value` pair.
pub fn build_search_query(s: &Search) -> (r: String)
    ensures
        r@ == search_query(s@),
{
    let mut link = "https://wallhaven.cc/api/v1/search?".to_owned();
    push_param(&mut link, "&q=", &s.query);
    push_param(&mut link, "&categories=", &s.categories);
    push_param(&mut link, "&purity=", &s.purity);
    push_param(&mut link, "&sorting=", &s.sorting);
    push_param(&mut link, "&order=", &s.order);
    push_param(&mut link, "&topRange=", &s.top_range);
    push_param(&mut link, "&atleast=", &s.at_least);
    push_param(&mut link, "&resolutions=", &s.resolutions);
    push_param(&mut link, "&ratios=", &s.ratios);
    push_param(&mut link, "&colors=", &s.colors);
    push_param(&mut link, "&apikey=", &s.api_key);
    link
}

/// Builds the URL for one request, appending the chosen page number when
/// there is one.
pub fn build_request_url(s: &Search, page: Option<u64>) -> (r: String)
    ensures
        r@ == request_url(s@, page),
{
    let mut link = build_search_query(s);
    match page {
        None => link,
        Some(k) => {
            link.append("&page=");
            let num = u64_to_string(k);
            link.append(num.as_str());
            link
        },
    }
}

/// When every search parameter is empty, the query is the bare endpoint:
/// no parameter at all is sent.
pub proof fn lemma_empty_search_query(s: SearchView)
    requires
        s.query.len() == 0,
        s.categories.len() == 0,
        s.purity.len() == 0,
        s.sorting.len() == 0,
        s.order.len() == 0,
        s.top_range.len() == 0,
        s.at_least.len() == 0,
        s.resolutions.len() == 0,
        s.ratios.len() == 0,
        s.colors.len() == 0,
        s.api_key.len() == 0,
    ensures
        search_query(s) == base_url(),
{
    assert(search_query(s) =~= base_url());
}

/// When exactly one search parameter is non-empty, the query is the endpoint
/// followed by exactly that one `&name=value` pair.
pub proof fn lemma_single_param_query(s: SearchView)
    ensures
        (s.categories.len() == 0 && s.purity.len() == 0 && s.sorting.len() == 0
            && s.order.len() == 0 && s.top_range.len() == 0 && s.at_least.len() == 0
            && s.resolutions.len() == 0 && s.ratios.len() == 0 && s.colors.len() == 0
            && s.api_key.len() == 0 && s.query.len() > 0) ==> search_query(s) == base_url()
            + "&q="@ + s.query,
        (s.query.len() == 0 && s.purity.len() == 0 && s.sorting.len() == 0 && s.order.len() == 0
            && s.top_range.len() == 0 && s.at_least.len() == 0 && s.resolutions.len() == 0
            && s.ratios.len() == 0 && s.colors.len() == 0 && s.api_key.len() == 0
            && s.categories.len() > 0) ==> search_query(s) == base_url() + "&categories="@
            + s.categories,
        (s.query.len() == 0 && s.categories.len() == 0 && s.sorting.len() == 0
            && s.order.len() == 0 && s.top_range.len() == 0 && s.at_least.len() == 0
            && s.resolutions.len() == 0 && s.ratios.len() == 0 && s.colors.len() == 0
            && s.api_key.len() == 0 && s.purity.len() > 0) ==> search_query(s) == base_url()
            + "&purity="@ + s.purity,
        (s.query.len() == 0 && s.categories.len() == 0 && s.purity.len() == 0
            && s.order.len() == 0 && s.top_range.len() == 0 && s.at_least.len() == 0
            && s.resolutions.len() == 0 && s.ratios.len() == 0 && s.colors.len() == 0
            && s.api_key.len() == 0 && s.sorting.len() > 0) ==> search_query(s) == base_url()
            + "&sorting="@ + s.sorting,
        (s.query.len() == 0 && s.categories.len() == 0 && s.purity.len() == 0
            && s.sorting.len() == 0 && s.top_range.len() == 0 && s.at_least.len() == 0
            && s.resolutions.len() == 0 && s.ratios.len() == 0 && s.colors.len() == 0
            && s.api_key.len() == 0 && s.order.len() > 0) ==> search_query(s) == base_url()
            + "&order="@ + s.order,
        (s.query.len() == 0 && s.categories.len() == 0 && s.purity.len() == 0
            && s.sorting.len() == 0 && s.order.len() == 0 && s.at_least.len() == 0
            && s.resolutions.len() == 0 && s.ratios.len() == 0 && s.colors.len() == 0
            && s.api_key.len() == 0 && s.top_range.len() > 0) ==> search_query(s) == base_url()
            + "&topRange="@ + s.top_range,
        (s.query.len() == 0 && s.categories.len() == 0 && s.purity.len() == 0
            && s.sorting.len() == 0 && s.order.len() == 0 && s.top_range.len() == 0
            && s.resolutions.len() == 0 && s.ratios.len() == 0 && s.colors.len() == 0
            && s.api_key.len() == 0 && s.at_least.len() > 0) ==> search_query(s) == base_url()
            + "&atleast="@ + s.at_least,
        (s.query.len() == 0 && s.categories.len() == 0 && s.purity.len() == 0
            && s.sorting.len() == 0 && s.order.len() == 0 && s.top_range.len() == 0
            && s.at_least.len() == 0 && s.ratios.len() == 0 && s.colors.len() == 0
            && s.api_key.len() == 0 && s.resolutions.len() > 0) ==> search_query(s) == base_url()
            + "&resolutions="@ + s.resolutions,
        (s.query.len() == 0 && s.categories.len() == 0 && s.purity.len() == 0
            && s.sorting.len() == 0 && s.order.len() == 0 && s.top_range.len() == 0
            && s.at_least.len() == 0 && s.resolutions.len() == 0 && s.colors.len() == 0
            && s.api_key.len() == 0 && s.ratios.len() > 0) ==> search_query(s) == base_url()
            + "&ratios="@ + s.ratios,
        (s.query.len() == 0 && s.categories.len() == 0 && s.purity.len() == 0
            && s.sorting.len() == 0 && s.order.len() == 0 && s.top_range.len() == 0
            && s.at_least.len() == 0 && s.resolutions.len() == 0 && s.ratios.len() == 0
            && s.api_key.len() == 0 && s.colors.len() > 0) ==> search_query(s) == base_url()
            + "&colors="@ + s.colors,
        (s.query.len() == 0 && s.categories.len() == 0 && s.purity.len() == 0
            && s.sorting.len() == 0 && s.order.len() == 0 && s.top_range.len() == 0
            && s.at_least.len() == 0 && s.resolutions.len() == 0 && s.ratios.len() == 0
            && s.colors.len() == 0 && s.api_key.len() > 0) ==> search_query(s) == base_url()
            + "&apikey="@ + s.api_key,
{
    if s.categories.len() == 0 && s.purity.len() == 0 && s.sorting.len() == 0 && s.order.len() == 0
        && s.top_range.len() == 0 && s.at_least.len() == 0 && s.resolutions.len() == 0
        && s.ratios.len() == 0 && s.colors.len() == 0 && s.api_key.len() == 0 && s.query.len()
        > 0 {
        assert(search_query(s) =~= base_url() + "&q="@ + s.query);
    }
    if s.query.len() == 0 && s.purity.len() == 0 && s.sorting.len() == 0 && s.order.len() == 0
        && s.top_range.len() == 0 && s.at_least.len() == 0 && s.resolutions.len() == 0
        && s.ratios.len() == 0 && s.colors.len() == 0 && s.api_key.len() == 0 && s.categories.len()
        > 0 {
        assert(search_query(s) =~= base_url() + "&categories="@ + s.categories);
    }
    if s.query.len() == 0 && s.categories.len() == 0 && s.sorting.len() == 0 && s.order.len() == 0
        && s.top_range.len() == 0 && s.at_least.len() == 0 && s.resolutions.len() == 0
        && s.ratios.len() == 0 && s.colors.len() == 0 && s.api_key.len() == 0 && s.purity.len()
        > 0 {
        assert(search_query(s) =~= base_url() + "&purity="@ + s.purity);
    }
    if s.query.len() == 0 && s.categories.len() == 0 && s.purity.len() == 0 && s.order.len() == 0
        && s.top_range.len() == 0 && s.at_least.len() == 0 && s.resolutions.len() == 0
        && s.ratios.len() == 0 && s.colors.len() == 0 && s.api_key.len() == 0 && s.sorting.len()
        > 0 {
        assert(search_query(s) =~= base_url() + "&sorting="@ + s.sorting);
    }
    if s.query.len() == 0 && s.categories.len() == 0 && s.purity.len() == 0 && s.sorting.len() == 0
        && s.top_range.len() == 0 && s.at_least.len() == 0 && s.resolutions.len() == 0
        && s.ratios.len() == 0 && s.colors.len() == 0 && s.api_key.len() == 0 && s.order.len()
        > 0 {
        assert(search_query(s) =~= base_url() + "&order="@ + s.order);
    }
    if s.query.len() == 0 && s.categories.len() == 0 && s.purity.len() == 0 && s.sorting.len() == 0
        && s.order.len() == 0 && s.at_least.len() == 0 && s.resolutions.len() == 0
        && s.ratios.len() == 0 && s.colors.len() == 0 && s.api_key.len() == 0 && s.top_range.len()
        > 0 {
        assert(search_query(s) =~= base_url() + "&topRange="@ + s.top_range);
    }
    if s.query.len() == 0 && s.categories.len() == 0 && s.purity.len() == 0 && s.sorting.len() == 0
        && s.order.len() == 0 && s.top_range.len() == 0 && s.resolutions.len() == 0
        && s.ratios.len() == 0 && s.colors.len() == 0 && s.api_key.len() == 0 && s.at_least.len()
        > 0 {
        assert(search_query(s) =~= base_url() + "&atleast="@ + s.at_least);
    }
    if s.query.len() == 0 && s.categories.len() == 0 && s.purity.len() == 0 && s.sorting.len() == 0
        && s.order.len() == 0 && s.top_range.len() == 0 && s.at_least.len() == 0
        && s.ratios.len() == 0 && s.colors.len() == 0 && s.api_key.len() == 0
        && s.resolutions.len() > 0 {
        assert(search_query(s) =~= base_url() + "&resolutions="@ + s.resolutions);
    }
    if s.query.len() == 0 && s.categories.len() == 0 && s.purity.len() == 0 && s.sorting.len() == 0
        && s.order.len() == 0 && s.top_range.len() == 0 && s.at_least.len() == 0
        && s.resolutions.len() == 0 && s.colors.len() == 0 && s.api_key.len() == 0
        && s.ratios.len() > 0 {
        assert(search_query(s) =~= base_url() + "&ratios="@ + s.ratios);
    }
    if s.query.len() == 0 && s.categories.len() == 0 && s.purity.len() == 0 && s.sorting.len() == 0
        && s.order.len() == 0 && s.top_range.len() == 0 && s.at_least.len() == 0
        && s.resolutions.len() == 0 && s.ratios.len() == 0 && s.api_key.len() == 0
        && s.colors.len() > 0 {
        assert(search_query(s) =~= base_url() + "&colors="@ + s.colors);
    }
    if s.query.len() == 0 && s.categories.len() == 0 && s.purity.len() == 0 && s.sorting.len() == 0
        && s.order.len() == 0 && s.top_range.len() == 0 && s.at_least.len() == 0
        && s.resolutions.len() == 0 && s.ratios.len() == 0 && s.colors.len() == 0
        && s.api_key.len() > 0 {
        assert(search_query(s) =~= base_url() + "&apikey="@ + s.api_key);
    }
}

} // verus!
