//! Building requests: the URI from a routing value, a path and a query string,
//! and the authentication header from the configured API key.

use hyper::header::{HeaderValue, InvalidHeaderValue};
use hyper::http::uri::InvalidUri;
use hyper::Uri;
use vstd::prelude::*;
use vstd::utf8::encode_utf8;

use crate::endpoints::{ChampionMasteryV4, ChampionV3, LeagueV4, MatchV4, SummonerV4};
use crate::regions::{resolved_host, WithHosts};

verus! {

#[verifier::external_type_specification]
#[verifier::external_body]
pub struct ExUri(Uri);

#[verifier::external_type_specification]
#[verifier::external_body]
pub struct ExInvalidUri(InvalidUri);

#[verifier::external_type_specification]
#[verifier::external_body]
pub struct ExHeaderValue(HeaderValue);

#[verifier::external_type_specification]
#[verifier::external_body]
pub struct ExInvalidHeaderValue(InvalidHeaderValue);

/// The name of the header that carries the API key.
pub const TOKEN_HEADER: &'static str = "X-Riot-Token";

/// The base host used when none is configured.
pub const DEFAULT_API_HOST: &'static str = "api.riotgames.com";

/// Whether hyper's URI parser accepts a text.
pub uninterp spec fn uri_accepts(s: Seq<char>) -> bool;

/// Relies on hyper's `Uri` parser (`str::parse::<Uri>`): whether a text is
/// accepted depends on the text alone.
#[verifier::external_body]
pub(crate) fn parse_uri(text: &str) -> (r: Result<Uri, InvalidUri>)
    ensures
        r is Ok <==> uri_accepts(text@),
{
    text.parse::<Uri>()
}

/// A byte that may stand in a header value: a tab, or any byte from 32 up but 127.
pub open spec fn header_byte_ok(b: u8) -> bool {
    b == 9 || (b >= 32 && b != 127)
}

/// A text that can be sent as a header value: every byte of its UTF-8 form may stand there.
pub open spec fn header_value_ok(s: Seq<char>) -> bool {
    forall|i: int| 0 <= i < encode_utf8(s).len() ==> header_byte_ok(#[trigger] encode_utf8(s)[i])
}

/// Relies on `HeaderValue::from_str`: it checks each byte of the text and
/// fails exactly when one of them may not stand in a header value.
#[verifier::external_body]
fn header_value(text: &str) -> (r: Result<HeaderValue, InvalidHeaderValue>)
    ensures
        r is Ok <==> header_value_ok(text@),
{
    HeaderValue::from_str(text)
}

/// The HTTP methods that this client issues. The API is read-only: every
/// endpoint is a GET without a body.
#[derive(Clone, Copy, Debug, PartialEq, Eq, Structural)]
pub enum HttpMethod {
    Get,
}

/// The request URI: `https://<host><path>`, then `?<query>` unless the query is empty.
pub open spec fn request_uri(host: Seq<char>, path: Seq<char>, query: Seq<char>) -> Seq<char> {
    let base = "https://"@ + host + path;
    if query.len() == 0 {
        base
    } else {
        base + seq!['?'] + query
    }
}

/// Why a request could not be built.
#[derive(Clone, Debug, PartialEq, Eq)]
pub enum RequestError {
    /// The assembled text is not a URI that hyper accepts.
    InvalidUri { uri: String },
    /// The API key cannot be sent as a header value.
    InvalidApiKey,
}

/// A request ready to be sent: its method, its URI (parsed and as text) and
/// the value of the authentication header, where the host asks for one.
pub struct ApiRequest {
    pub method: HttpMethod,
    pub uri: Uri,
    pub uri_text: String,
    pub token: Option<HeaderValue>,
}

/// The configuration shared by all calls: the API key and the base host.
pub struct RustApiConfig {
    pub api_host: String,
    pub api_key: String,
}

impl RustApiConfig {
    /// A configuration with the given key, on the given base host or the default one.
    pub fn new(api_key: String, api_host: Option<String>) -> (r: Self)
        ensures
            r.api_key == api_key,
            api_host is Some ==> r.api_host == api_host->Some_0,
            api_host is None ==> r.api_host@ == DEFAULT_API_HOST@,
    {
        let api_host = match api_host {
            Some(h) => h,
            None => DEFAULT_API_HOST.to_owned(),
        };
        RustApiConfig { api_host, api_key }
    }

    /// Like `new`, but refuses at once an API key that cannot be sent as a
    /// header value, rather than at the first request.
    pub fn try_new(api_key: String, api_host: Option<String>) -> (r: Result<Self, RequestError>)
        ensures
            r is Ok <==> header_value_ok(api_key@),
            r is Err ==> r == Err::<Self, RequestError>(RequestError::InvalidApiKey),
            r is Ok ==> r->Ok_0.api_key == api_key,
            r is Ok && api_host is Some ==> r->Ok_0.api_host == api_host->Some_0,
            r is Ok && api_host is None ==> r->Ok_0.api_host@ == DEFAULT_API_HOST@,
    {
        match header_value(api_key.as_str()) {
            Ok(_) => Ok(RustApiConfig::new(api_key, api_host)),
            Err(_) => Err(RequestError::InvalidApiKey),
        }
    }
}

/// The client: builds each endpoint's requests against one configuration.
pub struct RiotApi {
    pub config: RustApiConfig,
}

impl RiotApi {
    pub fn new(config: RustApiConfig) -> (r: Self)
        ensures
            r.config == config,
    {
        RiotApi { config }
    }

    /// `r` is the request that `build_request` owes for these inputs: it
    /// fails when the URI is refused, else when the key is refused, and
    /// otherwise carries the method, the URI text and the key.
    pub open spec fn builds(
        self,
        method: HttpMethod,
        label: Seq<char>,
        path: Seq<char>,
        query: Seq<char>,
        r: Result<ApiRequest, RequestError>,
    ) -> bool {
        let text = request_uri(resolved_host(label, self.config.api_host@), path, query);
        if !uri_accepts(text) {
            r matches Err(RequestError::InvalidUri { uri }) && uri@ == text
        } else if !header_value_ok(self.config.api_key@) {
            r == Err::<ApiRequest, RequestError>(RequestError::InvalidApiKey)
        } else {
            r matches Ok(req) && req.method == method && req.uri_text@ == text && req.token is Some
        }
    }

    /// The URI text for a routing value, a path and a query string.
    pub fn forge_uri<T: WithHosts>(&self, region: &T, path: &str, params: &str) -> (r: String)
        ensures
            r@ == request_uri(resolved_host(region.host_label(), self.config.api_host@), path@, params@),
    {
        let host = region.host(self.config.api_host.as_str());
        let mut text = "https://".to_owned();
        text.append(host.as_str());
        text.append(path);
        if params.is_empty() {
            text
        } else {
            text.append("?");
            text.append(params);
            proof {
                reveal_strlit("?");
            }
            text
        }
    }

    /// Builds a request: the URI from the routing value, the path and the
    /// query string, and the authentication header from the API key.
    pub fn build_request<T: WithHosts>(&self, method: HttpMethod, region: T, path: String, params: String) -> (r: Result<ApiRequest, RequestError>)
        ensures
            self.builds(method, region.host_label(), path@, params@, r),
    {
        let uri_text = self.forge_uri(&region, path.as_str(), params.as_str());
        let uri = match parse_uri(uri_text.as_str()) {
            Ok(u) => u,
            Err(_) => {
                return Err(RequestError::InvalidUri { uri: uri_text });
            },
        };
        let token = match header_value(self.config.api_key.as_str()) {
            Ok(v) => v,
            Err(_) => {
                return Err(RequestError::InvalidApiKey);
            },
        };
        Ok(ApiRequest { method, uri, uri_text, token: Some(token) })
    }

    /// The GET request for a path with a query string.
    pub fn get_with_params<T: WithHosts>(&self, region: T, path: String, params: String) -> (r: Result<ApiRequest, RequestError>)
        ensures
            self.builds(HttpMethod::Get, region.host_label(), path@, params@, r),
    {
        self.build_request(HttpMethod::Get, region, path, params)
    }

    /// The GET request for a path without a query string.
    pub fn get<T: WithHosts>(&self, region: T, path: String) -> (r: Result<ApiRequest, RequestError>)
        ensures
            self.builds(HttpMethod::Get, region.host_label(), path@, Seq::empty(), r),
    {
        self.build_request(HttpMethod::Get, region, path, String::new())
    }
}

} // verus!

verus! {

impl RiotApi {
    /// Summoner lookups.
    pub fn summoner_v4(&self) -> (r: SummonerV4<'_>)
        ensures
            r.api == self,
    {
        SummonerV4::new(self)
    }

    /// Champion rotations.
    pub fn champion_v3(&self) -> (r: ChampionV3<'_>)
        ensures
            r.api == self,
    {
        ChampionV3::new(self)
    }

    /// League standings.
    pub fn league_v4(&self) -> (r: LeagueV4<'_>)
        ensures
            r.api == self,
    {
        LeagueV4::new(self)
    }

    /// Champion mastery.
    pub fn champion_mastery_v4(&self) -> (r: ChampionMasteryV4<'_>)
        ensures
            r.api == self,
    {
        ChampionMasteryV4::new(self)
    }

    /// Match history.
    pub fn match_v4(&self) -> (r: MatchV4<'_>)
        ensures
            r.api == self,
    {
        MatchV4::new(self)
    }

    /// Summoner lookups; the same as `summoner_v4`.
    pub fn summoners(&self) -> (r: SummonerV4<'_>)
        ensures
            r.api == self,
    {
        self.summoner_v4()
    }

    /// Champion rotations; the same as `champion_v3`.
    pub fn champion(&self) -> (r: ChampionV3<'_>)
        ensures
            r.api == self,
    {
        self.champion_v3()
    }

    /// League standings; the same as `league_v4`.
    pub fn league(&self) -> (r: LeagueV4<'_>)
        ensures
            r.api == self,
    {
        self.league_v4()
    }

    /// Champion mastery; the same as `champion_mastery_v4`.
    pub fn champion_mastery(&self) -> (r: ChampionMasteryV4<'_>)
        ensures
            r.api == self,
    {
        self.champion_mastery_v4()
    }
}

} // verus!
