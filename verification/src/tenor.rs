//! The client facade: holds the API key and the default locale, and builds
//! the full request URL of every endpoint call.
//!
//! Each endpoint has a bare builder using defaults and a parameterized
//! builder taking the matching parameter struct. Every builder's contract
//! pins the exact URL it produces; building a URL is total and never fails.
//! Issuing the GET request and parsing the body are the caller's side of the
//! exchange.

use vstd::prelude::*;
use vstd::string::StringExecFns;

use crate::{categories, featured, search, trending};
use crate::{spec_bool_token, spec_decimal, spec_media_filter_tokens};
use crate::{encode_limit, Locale, MediaFilter};

verus! {

/// Immutable type holding the api key along with region and language codes.
/// It is fixed after construction and safe to share across calls.
#[derive(Debug, Clone)]
pub struct Tenor {
    pub api_key: String,
    pub locale: Locale,
}

impl Tenor {
    /// Creates a new instance.
    pub fn new(api_key: String, locale: Locale) -> (r: Self)
        ensures
            r.api_key == api_key,
            r.locale == locale,
    {
        Self { api_key, locale }
    }

    /// The categories endpoint with key and locale, before the category type.
    pub open spec fn spec_categories_base_url(self) -> Seq<char> {
        "https://tenor.googleapis.com/v2/categories?key="@ + self.api_key@
            + self.locale.spec_query_parameter()
    }

    /// The URL of a featured-categories request with defaults.
    pub open spec fn spec_categories_featured_url(self) -> Seq<char> {
        self.spec_categories_base_url() + "&type=featured"@
    }

    /// The URL of a trending-categories request with defaults.
    pub open spec fn spec_categories_trending_url(self) -> Seq<char> {
        self.spec_categories_base_url() + "&type=trending"@
    }

    /// The query-string suffix a categories parameter struct encodes to.
    pub open spec fn spec_categories_parameters_suffix(parms: categories::Parameters) -> Seq<
        char,
    > {
        "&client_key="@ + parms.client_key@ + parms.content_filter.spec_query_parameter()
    }

    /// The URL of a featured-categories request with extra parameters.
    pub open spec fn spec_categories_featured_with_parameters_url(
        self,
        parms: categories::Parameters,
    ) -> Seq<char> {
        self.spec_categories_featured_url() + Self::spec_categories_parameters_suffix(parms)
    }

    /// The URL of a trending-categories request with extra parameters.
    pub open spec fn spec_categories_trending_with_parameters_url(
        self,
        parms: categories::Parameters,
    ) -> Seq<char> {
        self.spec_categories_trending_url() + Self::spec_categories_parameters_suffix(parms)
    }

    fn categories_base_url(&self) -> (r: String)
        ensures
            r@ == self.spec_categories_base_url(),
    {
        let mut url = "https://tenor.googleapis.com/v2/categories?key=".to_owned();
        url.append(self.api_key.as_str());
        let locale = self.locale.to_query_parameter();
        url.append(locale.as_str());
        url
    }

    /// The URL fetched for a vector of tagged categories that are featured.
    pub fn categories_featured_url(&self) -> (r: String)
        ensures
            r@ == self.spec_categories_featured_url(),
    {
        let mut url = self.categories_base_url();
        url.append("&type=featured");
        url
    }

    /// The URL fetched for a vector of tagged categories that are trending.
    pub fn categories_trending_url(&self) -> (r: String)
        ensures
            r@ == self.spec_categories_trending_url(),
    {
        let mut url = self.categories_base_url();
        url.append("&type=trending");
        url
    }

    fn append_categories_parameters(url: &mut String, parms: &categories::Parameters)
        ensures
            final(url)@ == old(url)@ + Self::spec_categories_parameters_suffix(*parms),
    {
        url.append("&client_key=");
        url.append(parms.client_key.as_str());
        let filter = parms.content_filter.to_query_parameter();
        url.append(filter.as_str());
        assert(url@ =~= old(url)@ + Self::spec_categories_parameters_suffix(*parms));
    }

    /// The URL fetched for featured categories with extra input parameters.
    pub fn categories_featured_with_parameters_url(&self, parms: categories::Parameters) -> (r:
        String)
        ensures
            r@ == self.spec_categories_featured_with_parameters_url(parms),
    {
        let mut url = self.categories_featured_url();
        Self::append_categories_parameters(&mut url, &parms);
        url
    }

    /// The URL fetched for trending categories with extra input parameters.
    pub fn categories_trending_with_parameters_url(&self, parms: categories::Parameters) -> (r:
        String)
        ensures
            r@ == self.spec_categories_trending_with_parameters_url(parms),
    {
        let mut url = self.categories_trending_url();
        Self::append_categories_parameters(&mut url, &parms);
        url
    }

    /// The URL of a featured request with defaults.
    pub open spec fn spec_featured_url(self) -> Seq<char> {
        "https://tenor.googleapis.com/v2/featured?key="@ + self.api_key@
            + self.locale.spec_query_parameter()
    }

    /// The URL of a featured request continuing from a pagination cursor.
    pub open spec fn spec_featured_with_position_url(self, position: Seq<char>) -> Seq<char> {
        self.spec_featured_url() + "&pos="@ + position
    }

    /// The URL of a featured request with extra parameters: the base URL,
    /// then each parameter's fragment in a fixed order. The optional filters
    /// are skipped entirely when absent.
    pub open spec fn spec_featured_with_parameters_url(self, parms: featured::Parameters) -> Seq<
        char,
    > {
        self.spec_featured_url() + (match parms.search_filter {
            Some(filter) => filter.spec_query_parameter(),
            None => Seq::<char>::empty(),
        }) + (match parms.media_filter {
            Some(filters) => "&media_filter="@ + spec_media_filter_tokens(filters@),
            None => Seq::<char>::empty(),
        }) + parms.ar_range.spec_query_parameter() + parms.content_filter.spec_query_parameter()
            + "&limit="@ + spec_decimal(parms.limit as nat) + (match parms.position {
            Some(position) => "&pos="@ + position@,
            None => Seq::<char>::empty(),
        })
    }

    /// The URL fetched for the featured stickers of the hour.
    pub fn featured_url(&self) -> (r: String)
        ensures
            r@ == self.spec_featured_url(),
    {
        let mut url = "https://tenor.googleapis.com/v2/featured?key=".to_owned();
        url.append(self.api_key.as_str());
        let locale = self.locale.to_query_parameter();
        url.append(locale.as_str());
        url
    }

    /// The URL fetched to continue from where featured left off; use the
    /// `next` field of the earlier response as the input for `position`.
    pub fn featured_with_position_url(&self, position: String) -> (r: String)
        ensures
            r@ == self.spec_featured_with_position_url(position@),
    {
        let mut url = self.featured_url();
        url.append("&pos=");
        url.append(position.as_str());
        url
    }

    /// The URL fetched for the featured stickers with extra parameters.
    pub fn featured_with_parameters_url(&self, parms: featured::Parameters) -> (r: String)
        ensures
            r@ == self.spec_featured_with_parameters_url(parms),
    {
        let mut url = self.featured_url();

        let ghost base = url@;
        if let Some(filter) = &parms.search_filter {
            let fragment = filter.to_query_parameter();
            url.append(fragment.as_str());
        }
        let ghost with_search = base + (match parms.search_filter {
            Some(filter) => filter.spec_query_parameter(),
            None => Seq::<char>::empty(),
        });
        assert(url@ =~= with_search);

        if let Some(filters) = &parms.media_filter {
            url.append("&media_filter=");
            let tokens = MediaFilter::encode_list(filters.as_slice());
            url.append(tokens.as_str());
        }
        let ghost with_media = with_search + (match parms.media_filter {
            Some(filters) => "&media_filter="@ + spec_media_filter_tokens(filters@),
            None => Seq::<char>::empty(),
        });
        assert(url@ =~= with_media);

        let ar_range = parms.ar_range.to_query_parameter();
        url.append(ar_range.as_str());
        let content_filter = parms.content_filter.to_query_parameter();
        url.append(content_filter.as_str());
        url.append("&limit=");
        let limit = encode_limit(parms.limit);
        url.append(limit.as_str());

        let ghost with_limit = with_media + parms.ar_range.spec_query_parameter()
            + parms.content_filter.spec_query_parameter() + "&limit="@ + spec_decimal(
            parms.limit as nat,
        );
        if let Some(position) = &parms.position {
            url.append("&pos=");
            url.append(position.as_str());
        }
        let ghost with_position = with_limit + (match parms.position {
            Some(position) => "&pos="@ + position@,
            None => Seq::<char>::empty(),
        });
        assert(url@ =~= with_position);

        url
    }

    /// The URL of a search request with defaults.
    pub open spec fn spec_search_url(self, query: Seq<char>) -> Seq<char> {
        "https://tenor.googleapis.com/v2/search?q="@ + query + "&key="@ + self.api_key@
            + self.locale.spec_query_parameter()
    }

    /// The URL of a search request continuing from a pagination cursor.
    pub open spec fn spec_search_with_position_url(self, query: Seq<char>, position: Seq<char>) -> Seq<
        char,
    > {
        self.spec_search_url(query) + "&pos="@ + position
    }

    /// The URL of a search request with extra parameters: the base URL, then
    /// each parameter's fragment in a fixed order. The optional filters are
    /// skipped entirely when absent.
    pub open spec fn spec_search_with_parameters_url(
        self,
        query: Seq<char>,
        parms: search::Parameters,
    ) -> Seq<char> {
        self.spec_search_url(query) + "&client_key="@ + parms.client_key@ + (
        match parms.search_filter {
            Some(filter) => filter.spec_query_parameter(),
            None => Seq::<char>::empty(),
        }) + parms.content_filter.spec_query_parameter() + (match parms.media_filter {
            Some(filters) => "&media_filter="@ + spec_media_filter_tokens(filters@),
            None => Seq::<char>::empty(),
        }) + parms.ar_range.spec_query_parameter() + "&random="@ + spec_bool_token(parms.random)
            + "&limit="@ + spec_decimal(parms.limit as nat) + (match parms.position {
            Some(position) => "&pos="@ + position@,
            None => Seq::<char>::empty(),
        })
    }

    /// The URL fetched to search with the given query.
    pub fn search_url(&self, query: String) -> (r: String)
        ensures
            r@ == self.spec_search_url(query@),
    {
        let mut url = "https://tenor.googleapis.com/v2/search?q=".to_owned();
        url.append(query.as_str());
        url.append("&key=");
        url.append(self.api_key.as_str());
        let locale = self.locale.to_query_parameter();
        url.append(locale.as_str());
        url
    }

    /// The URL fetched to continue searching with the given query, starting
    /// from where the last request ended.
    pub fn search_with_position_url(&self, query: String, position: String) -> (r: String)
        ensures
            r@ == self.spec_search_with_position_url(query@, position@),
    {
        let mut url = self.search_url(query);
        url.append("&pos=");
        url.append(position.as_str());
        url
    }

    /// The URL fetched to search with the given query and extra parameters.
    pub fn search_with_parameters_url(&self, query: String, parms: search::Parameters) -> (r:
        String)
        ensures
            r@ == self.spec_search_with_parameters_url(query@, parms),
    {
        let mut url = self.search_url(query);
        url.append("&client_key=");
        url.append(parms.client_key.as_str());

        let ghost with_client = url@;
        if let Some(filter) = &parms.search_filter {
            let fragment = filter.to_query_parameter();
            url.append(fragment.as_str());
        }
        let ghost with_search = with_client + (match parms.search_filter {
            Some(filter) => filter.spec_query_parameter(),
            None => Seq::<char>::empty(),
        });
        assert(url@ =~= with_search);

        let content_filter = parms.content_filter.to_query_parameter();
        url.append(content_filter.as_str());

        let ghost with_content = url@;
        if let Some(filters) = &parms.media_filter {
            url.append("&media_filter=");
            let tokens = MediaFilter::encode_list(filters.as_slice());
            url.append(tokens.as_str());
        }
        let ghost with_media = with_content + (match parms.media_filter {
            Some(filters) => "&media_filter="@ + spec_media_filter_tokens(filters@),
            None => Seq::<char>::empty(),
        });
        assert(url@ =~= with_media);

        let ar_range = parms.ar_range.to_query_parameter();
        url.append(ar_range.as_str());
        url.append("&random=");
        url.append(crate::bool_token_str(parms.random));
        url.append("&limit=");
        let limit = encode_limit(parms.limit);
        url.append(limit.as_str());

        let ghost with_limit = url@;
        if let Some(position) = &parms.position {
            url.append("&pos=");
            url.append(position.as_str());
        }
        let ghost with_position = with_limit + (match parms.position {
            Some(position) => "&pos="@ + position@,
            None => Seq::<char>::empty(),
        });
        assert(url@ =~= with_position);
        assert(with_position =~= self.spec_search_with_parameters_url(query@, parms));

        url
    }

    /// The URL of a trending-terms request with defaults.
    pub open spec fn spec_trending_terms_url(self) -> Seq<char> {
        "https://tenor.googleapis.com/v2/trending_terms?key="@ + self.api_key@
            + self.locale.spec_query_parameter()
    }

    /// The URL of a trending-terms request with extra parameters.
    pub open spec fn spec_trending_terms_with_parameters_url(
        self,
        parms: trending::Parameters,
    ) -> Seq<char> {
        self.spec_trending_terms_url() + "&client_key="@ + parms.client_key@ + "&limit="@
            + spec_decimal(parms.limit as nat)
    }

    /// The URL fetched for the hourly trending search terms.
    pub fn trending_terms_url(&self) -> (r: String)
        ensures
            r@ == self.spec_trending_terms_url(),
    {
        let mut url = "https://tenor.googleapis.com/v2/trending_terms?key=".to_owned();
        url.append(self.api_key.as_str());
        let locale = self.locale.to_query_parameter();
        url.append(locale.as_str());
        url
    }

    /// The URL fetched for the hourly trending search terms with extra
    /// parameters.
    pub fn trending_terms_with_parameters_url(&self, parms: trending::Parameters) -> (r: String)
        ensures
            r@ == self.spec_trending_terms_with_parameters_url(parms),
    {
        let mut url = self.trending_terms_url();
        url.append("&client_key=");
        url.append(parms.client_key.as_str());
        url.append("&limit=");
        let limit = encode_limit(parms.limit);
        url.append(limit.as_str());
        assert(url@ =~= self.spec_trending_terms_with_parameters_url(parms));
        url
    }
}

/// Feeding a response's pagination cursor back as the `position` of a
/// follow-up search request appends exactly one `&pos=` parameter carrying
/// that cursor to the URL that the same parameters without a cursor produce,
/// and changes nothing else.
pub proof fn lemma_search_cursor_sets_position(
    t: Tenor,
    query: Seq<char>,
    parms: search::Parameters,
    cursor: String,
)
    requires
        parms.position == Some(cursor),
    ensures
        t.spec_search_with_parameters_url(query, parms) == t.spec_search_with_parameters_url(
            query,
            search::Parameters { position: None, ..parms },
        ) + "&pos="@ + cursor@,
{
    assert(t.spec_search_with_parameters_url(query, parms) =~= t.spec_search_with_parameters_url(
        query,
        search::Parameters { position: None, ..parms },
    ) + "&pos="@ + cursor@);
}

/// Feeding a response's pagination cursor back as the `position` of a
/// follow-up featured request appends exactly one `&pos=` parameter carrying
/// that cursor to the URL that the same parameters without a cursor produce,
/// and changes nothing else.
pub proof fn lemma_featured_cursor_sets_position(
    t: Tenor,
    parms: featured::Parameters,
    cursor: String,
)
    requires
        parms.position == Some(cursor),
    ensures
        t.spec_featured_with_parameters_url(parms) == t.spec_featured_with_parameters_url(
            featured::Parameters { position: None, ..parms },
        ) + "&pos="@ + cursor@,
{
    assert(t.spec_featured_with_parameters_url(parms) =~= t.spec_featured_with_parameters_url(
        featured::Parameters { position: None, ..parms },
    ) + "&pos="@ + cursor@);
}

} // verus!
