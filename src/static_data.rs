//! The static data host: game constants, and the descriptors that code
//! generation renders from them.

use vstd::prelude::*;

use crate::request::{parse_uri, request_uri, ApiRequest, HttpMethod, RequestError};

verus! {

/// The static data host used when none is configured.
pub const DEFAULT_STATIC_HOST: &'static str = "static.developer.riotgames.com";

/// The path of the seasons list, below the documentation root.
pub const SEASONS_PATH: &'static str = "seasons.json";

/// A season as the static data lists it.
#[derive(Clone, Debug, PartialEq, Eq)]
pub struct Season {
    pub id: u32,
    pub season: String,
}

/// The seasons list.
#[derive(Clone, Debug, PartialEq, Eq)]
pub struct SeasonList {
    pub items: Vec<Season>,
}

/// A named enumeration to generate.
#[derive(Clone, Debug, PartialEq, Eq)]
pub struct ConstantDescriptor {
    pub name: String,
    pub enums: Vec<ConstantEnum>,
}

/// One variant of a generated enumeration.
#[derive(Clone, Debug, PartialEq, Eq)]
pub struct ConstantEnum {
    pub key: String,
    pub value: String,
}

impl View for ConstantDescriptor {
    type V = (Seq<char>, Seq<(Seq<char>, Seq<char>)>);

    open spec fn view(&self) -> Self::V {
        (self.name@, self.enums@.map_values(|e: ConstantEnum| (e.key@, e.value@)))
    }
}

/// A list of constants that can be rendered as a generated enumeration.
pub trait ToDescriptor {
    /// The descriptor's name and its key/value pairs.
    spec fn descriptor_view(&self) -> (Seq<char>, Seq<(Seq<char>, Seq<char>)>);

    fn descriptor(&self) -> (r: ConstantDescriptor)
        ensures
            r@ == self.descriptor_view(),
    ;
}

impl ToDescriptor for SeasonList {
    /// Named `seasons`, with each season's name as both key and value.
    open spec fn descriptor_view(&self) -> (Seq<char>, Seq<(Seq<char>, Seq<char>)>) {
        ("seasons"@, self.items@.map_values(|s: Season| (s.season@, s.season@)))
    }

    fn descriptor(&self) -> (r: ConstantDescriptor) {
        let mut enums: Vec<ConstantEnum> = Vec::new();
        let mut i: usize = 0;
        while i < self.items.len()
            invariant
                i <= self.items@.len(),
                enums@.len() == i,
                forall|j: int|
                    0 <= j < i ==> (#[trigger] enums@[j]).key@ == self.items@[j].season@ && enums@[j].value@
                        == self.items@[j].season@,
            decreases self.items@.len() - i,
        {
            let season = &self.items[i];
            enums.push(ConstantEnum { key: season.season.clone(), value: season.season.clone() });
            i = i + 1;
        }
        let r = ConstantDescriptor { name: "seasons".to_owned(), enums };
        assert(r@.1 =~= self.descriptor_view().1);
        r
    }
}

/// The configuration of the static data client: its host.
pub struct FetchApiConfig {
    pub api_host: String,
}

impl FetchApiConfig {
    /// A configuration on the given host or the default one.
    pub fn new(api_host: Option<String>) -> (r: Self)
        ensures
            api_host is Some ==> r.api_host == api_host->Some_0,
            api_host is None ==> r.api_host@ == DEFAULT_STATIC_HOST@,
    {
        let api_host = match api_host {
            Some(h) => h,
            None => DEFAULT_STATIC_HOST.to_owned(),
        };
        FetchApiConfig { api_host }
    }
}

/// The static data client: builds requests below the documentation root.
pub struct FetchApi {
    pub config: FetchApiConfig,
}

impl FetchApi {
    pub fn new(config: FetchApiConfig) -> (r: Self)
        ensures
            r.config == config,
    {
        FetchApi { config }
    }

    /// Game constants.
    pub fn constants(&self) -> (r: Constants<'_>)
        ensures
            r.api == self,
    {
        Constants::new(self)
    }

    /// The URI text of a path below the documentation root, with a query string.
    pub open spec fn static_uri(self, path: Seq<char>, params: Seq<char>) -> Seq<char> {
        request_uri(self.config.api_host@, "/docs/lol/"@ + path, params)
    }

    pub fn forge_uri(&self, path: &str, params: &str) -> (r: String)
        ensures
            r@ == self.static_uri(path@, params@),
    {
        let mut text = "https://".to_owned();
        text.append(self.config.api_host.as_str());
        text.append("/docs/lol/");
        text.append(path);
        if params.is_empty() {
            text
        } else {
            text.append("?");
            text.append(params);
            proof {
                reveal_strlit("?");
            }
            text
        }
    }

    /// Builds a request without an authentication header: the static data
    /// host asks for none. It fails exactly when the URI is refused.
    pub fn build_request(&self, method: HttpMethod, path: String, params: String) -> (r: Result<ApiRequest, RequestError>)
        ensures
            ({
                let text = self.static_uri(path@, params@);
                if !crate::request::uri_accepts(text) {
                    r matches Err(RequestError::InvalidUri { uri }) && uri@ == text
                } else {
                    r matches Ok(req) && req.method == method && req.uri_text@ == text && req.token is None
                }
            }),
    {
        let uri_text = self.forge_uri(path.as_str(), params.as_str());
        match parse_uri(uri_text.as_str()) {
            Ok(uri) => Ok(ApiRequest { method, uri, uri_text, token: None }),
            Err(_) => Err(RequestError::InvalidUri { uri: uri_text }),
        }
    }

    /// The GET request for a path with a query string.
    pub fn get_with_params(&self, path: String, params: String) -> (r: Result<ApiRequest, RequestError>)
        ensures
            r is Ok <==> crate::request::uri_accepts(self.static_uri(path@, params@)),
            r is Ok ==> r->Ok_0.method == HttpMethod::Get && r->Ok_0.uri_text@ == self.static_uri(path@, params@),
    {
        self.build_request(HttpMethod::Get, path, params)
    }

    /// The GET request for a path.
    pub fn get(&self, path: String) -> (r: Result<ApiRequest, RequestError>)
        ensures
            r is Ok <==> crate::request::uri_accepts(self.static_uri(path@, Seq::empty())),
            r is Ok ==> r->Ok_0.method == HttpMethod::Get && r->Ok_0.uri_text@ == self.static_uri(path@, Seq::empty()),
    {
        self.build_request(HttpMethod::Get, path, String::new())
    }
}

/// The game constants endpoints of the static data host.
pub struct Constants<'a> {
    pub api: &'a FetchApi,
}

impl<'a> Constants<'a> {
    pub fn new(api: &'a FetchApi) -> (r: Self)
        ensures
            r.api == api,
    {
        Constants { api }
    }

    /// The request for the list of seasons.
    pub fn get_seasons(&self) -> (r: Result<ApiRequest, RequestError>)
        ensures
            r is Ok <==> crate::request::uri_accepts(self.api.static_uri(SEASONS_PATH@, Seq::empty())),
            r is Ok ==> r->Ok_0.uri_text@ == self.api.static_uri(SEASONS_PATH@, Seq::empty()),
    {
        self.api.get(SEASONS_PATH.to_owned())
    }
}

} // verus!
