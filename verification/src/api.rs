//! The client's side of the master server: which requests to send, and what
//! its replies mean. Sending is left to the program around the library.

use crate::error::LoaderError;
use crate::text::same_text;
use vstd::prelude::*;
use vstd::string::{StrSliceExecFns, StringExecFns};

verus! {

/// The master server that is asked where none is configured.
pub const MASTER_SERVER_ADDR_DEF: &'static str = "http://timleonard.uk:50020/api/v1/servers/";

/// The version of the master server's interface. It is carried along for
/// servers to come and changes no request.
#[derive(Clone, Copy, Debug, PartialEq, Eq, Structural)]
pub enum ApiVersion {
    V1,
    V2,
    Unknown,
}

impl ApiVersion {
    /// The version that a number names.
    pub open spec fn of_number(n: u32) -> ApiVersion {
        if n == 1 {
            ApiVersion::V1
        } else if n == 2 {
            ApiVersion::V2
        } else {
            ApiVersion::Unknown
        }
    }

    /// The version that a text names. Only the four spellings `1`, `v1`, `2`
    /// and `v2` name one; every other text is `Unknown`.
    pub open spec fn of_text(s: Seq<char>) -> ApiVersion {
        if s == "1"@ || s == "v1"@ {
            ApiVersion::V1
        } else if s == "2"@ || s == "v2"@ {
            ApiVersion::V2
        } else {
            ApiVersion::Unknown
        }
    }

    /// The name of a version as it stands in a path; empty for `Unknown`.
    pub open spec fn spec_name(self) -> Seq<char> {
        match self {
            ApiVersion::V1 => "v1"@,
            ApiVersion::V2 => "v2"@,
            ApiVersion::Unknown => ""@,
        }
    }

    /// The name of this version as it stands in a path; empty for `Unknown`.
    pub fn name(self) -> (name: String)
        ensures
            name@ == self.spec_name(),
    {
        match self {
            ApiVersion::V1 => String::from_str("v1"),
            ApiVersion::V2 => String::from_str("v2"),
            ApiVersion::Unknown => String::from_str(""),
        }
    }
}

impl From<u32> for ApiVersion {
    fn from(n: u32) -> (version: ApiVersion) {
        match n {
            1 => ApiVersion::V1,
            2 => ApiVersion::V2,
            _ => ApiVersion::Unknown,
        }
    }
}

impl vstd::std_specs::convert::FromSpecImpl<u32> for ApiVersion {
    open spec fn obeys_from_spec() -> bool {
        true
    }

    open spec fn from_spec(n: u32) -> ApiVersion {
        ApiVersion::of_number(n)
    }
}

impl From<&str> for ApiVersion {
    fn from(s: &str) -> (version: ApiVersion) {
        if same_text(s, "1") || same_text(s, "v1") {
            ApiVersion::V1
        } else if same_text(s, "2") || same_text(s, "v2") {
            ApiVersion::V2
        } else {
            ApiVersion::Unknown
        }
    }
}

impl vstd::std_specs::convert::FromSpecImpl<&str> for ApiVersion {
    open spec fn obeys_from_spec() -> bool {
        true
    }

    open spec fn from_spec(s: &str) -> ApiVersion {
        ApiVersion::of_text(s@)
    }
}

/// One game server of the master server's list.
#[derive(Clone, Debug)]
pub struct Server {
    pub ip_addr: String,
    pub hostname: String,
    pub private_hostname: String,
    pub description: String,
    pub name: String,
    pub player_count: u32,
    pub password_required: bool,
    /// The password that the user gave for this server; empty where none.
    pub passwd: String,
    pub mods_white_list: String,
    pub mods_black_list: String,
    pub mods_required_list: String,
    /// The server's public key; empty until it has been fetched.
    pub pubkey: String,
}

/// A reply of the master server. A field that the reply leaves out is empty.
#[derive(Debug)]
pub struct ApiResponse {
    pub status: String,
    pub message: String,
    pub servers: Vec<Server>,
    pub public_key: String,
}

/// How a request is put to the master server.
#[derive(Clone, Copy, Debug, PartialEq, Eq, Structural)]
pub enum Method {
    Get,
    Post,
}

/// A request to the master server, ready to be sent. With a password, its
/// body is the JSON object with the one member `password`; without, it has
/// no body.
#[derive(Debug)]
pub struct ApiRequest {
    pub method: Method,
    pub url: String,
    pub password: Option<String>,
}

/// What `Url::parse` makes of a text: the URL as it is written out again,
/// or `None` where the text is no absolute URL.
pub uninterp spec fn parsed_url(input: Seq<char>) -> Option<Seq<char>>;

/// What `Url::join` makes of a reference `input` on the URL that `Url::parse`
/// makes of `base`: the URL found, as it is written out, or `None` where
/// either of the two fails.
pub uninterp spec fn joined_url(base: Seq<char>, input: Seq<char>) -> Option<Seq<char>>;

/// `Url::parse` of the `url` crate, as `reqwest` hands it on: reads an
/// absolute URL and gives it back in its written form.
#[verifier::external_body]
fn parse_url(input: &str) -> (url: Option<String>)
    ensures
        url matches Some(text) ==> parsed_url(input@) == Some(text@),
        url is None ==> parsed_url(input@) is None,
{
    reqwest::Url::parse(input).ok().map(String::from)
}

/// `Url::join` of the `url` crate, as `reqwest` hands it on: resolves the
/// reference `input` against the URL that `base` spells, and gives the result
/// back in its written form.
#[verifier::external_body]
fn join_url(base: &str, input: &str) -> (url: Option<String>)
    ensures
        url matches Some(text) ==> joined_url(base@, input@) == Some(text@),
        url is None ==> joined_url(base@, input@) is None,
{
    reqwest::Url::parse(base).ok()?.join(input).ok().map(String::from)
}

/// Whether a reply reports success.
pub open spec fn is_success(res: ApiResponse) -> bool {
    res.status@ == "success"@
}

/// What the reply to the request for the list of servers comes to: the list,
/// where the master server reports success and lists at least one server;
/// the failure of the registry, where it does not; the failure of the
/// network with the transport's words, where no reply came.
pub open spec fn servers_of(reply: Result<ApiResponse, String>) -> Result<
    Vec<Server>,
    LoaderError,
> {
    match reply {
        Ok(res) => if is_success(res) && res.servers@.len() > 0 {
            Ok(res.servers)
        } else {
            Err(LoaderError::Registry)
        },
        Err(detail) => Err(LoaderError::Network(detail)),
    }
}

/// What the reply to the request for a public key comes to: the key, where
/// the master server reports success and the key is not empty; the refusal
/// with the master server's own message, where it does not; the failure of
/// the network with the transport's words, where no reply came.
pub open spec fn pubkey_of(reply: Result<ApiResponse, String>) -> Result<String, LoaderError> {
    match reply {
        Ok(res) => if is_success(res) && res.public_key@.len() > 0 {
            Ok(res.public_key)
        } else {
            Err(LoaderError::Auth(res.message))
        },
        Err(detail) => Err(LoaderError::Network(detail)),
    }
}

/// The path of the public key of the game server `ip_addr`, from the master
/// server's address on.
pub open spec fn pubkey_path(ip_addr: Seq<char>) -> Seq<char> {
    ip_addr + "/public_key"@
}

/// An address as the directory below which paths are looked up: with a
/// slash at its end, which is put there where the address has none.
pub open spec fn as_directory(url: Seq<char>) -> Seq<char> {
    if url.len() > 0 && url.last() == '/' {
        url
    } else {
        url + "/"@
    }
}

/// The address `url` with a slash at its end.
pub fn directory_of(url: &str) -> (directory: String)
    ensures
        directory@ == as_directory(url@),
{
    let len = url.unicode_len();
    if len > 0 && url.get_char(len - 1) == '/' {
        String::from_str(url)
    } else {
        String::from_str(url).concat("/")
    }
}

/// The client of one master server.
#[derive(Clone, Debug)]
pub struct MasterServerApi {
    api_url: String,
    version: ApiVersion,
}

impl MasterServerApi {
    /// The address of the master server, as a URL written out.
    pub closed spec fn api_url(&self) -> Seq<char> {
        self.api_url@
    }

    /// The version of the interface that this client was made for.
    pub closed spec fn version(&self) -> ApiVersion {
        self.version
    }

    /// A client for the master server at `api_url`, which must be an absolute
    /// URL.
    pub fn new(api_url: &str, version: ApiVersion) -> (r: Result<MasterServerApi, LoaderError>)
        ensures
            match r {
                Ok(api) => parsed_url(api_url@) == Some(api.api_url()) && api.version() == version,
                Err(e) => parsed_url(api_url@) is None && e == LoaderError::InvalidUrl,
            },
    {
        Self::with_url(parse_url(api_url), version)
    }

    /// A client for the master server whose address was parsed to `url`.
    pub fn with_url(url: Option<String>, version: ApiVersion) -> (r: Result<
        MasterServerApi,
        LoaderError,
    >)
        ensures
            match r {
                Ok(api) => url matches Some(text) && text@ == api.api_url() && api.version()
                    == version,
                Err(e) => url is None && e == LoaderError::InvalidUrl,
            },
    {
        match url {
            Some(api_url) => Ok(MasterServerApi { api_url, version }),
            None => Err(LoaderError::InvalidUrl),
        }
    }

    /// The version of the interface that this client was made for.
    pub fn api_version(&self) -> (version: ApiVersion)
        ensures
            version == self.version(),
    {
        self.version
    }

    /// A request of the given method to `url`, with the password as its
    /// body where there is one.
    pub fn request(&self, method: Method, url: &str, request_body: Option<&str>) -> (req:
        ApiRequest)
        ensures
            req.method == method,
            req.url@ == url@,
            match request_body {
                Some(password) => req.password matches Some(body) && body@ == password@,
                None => req.password is None,
            },
    {
        let password = match request_body {
            Some(password) => Some(String::from_str(password)),
            None => None,
        };
        ApiRequest { method, url: String::from_str(url), password }
    }

    /// The request that asks the master server for its list of servers: a
    /// `GET` of its address.
    pub fn list_servers_request(&self) -> (req: ApiRequest)
        ensures
            req.method == Method::Get,
            req.url@ == self.api_url(),
            req.password is None,
    {
        self.request(Method::Get, self.api_url.as_str(), None)
    }

    /// Reads the reply to the request for the list of servers. The list is
    /// handed on where the master server reports success and lists at least
    /// one server. A reply that did not arrive is a failure of the network,
    /// with what the transport said of it.
    pub fn list_servers(&self, reply: Result<ApiResponse, String>) -> (r: Result<
        Vec<Server>,
        LoaderError,
    >)
        ensures
            r == servers_of(reply),
    {
        match reply {
            Ok(res) => {
                let success = same_text(res.status.as_str(), "success");
                if success && res.servers.len() > 0 {
                    Ok(res.servers)
                } else {
                    Err(LoaderError::Registry)
                }
            },
            Err(detail) => Err(LoaderError::Network(detail)),
        }
    }

    /// The address of the public key of the game server `ip_addr`: the
    /// server's path, looked up below the master server's address.
    pub open spec fn pubkey_url(&self, ip_addr: Seq<char>) -> Option<Seq<char>> {
        joined_url(as_directory(self.api_url()), pubkey_path(ip_addr))
    }

    /// Whether `r` is what the request for the public key of the game server
    /// `ip_addr` comes to: a `POST` of the password to the address of the
    /// key, or the failure to make out that address.
    pub open spec fn is_pubkey_request(
        &self,
        r: Result<ApiRequest, LoaderError>,
        ip_addr: Seq<char>,
        password: Seq<char>,
    ) -> bool {
        match r {
            Ok(req) => {
                &&& self.pubkey_url(ip_addr) == Some(req.url@)
                &&& req.method == Method::Post
                &&& req.password matches Some(body) && body@ == password
            },
            Err(e) => {
                &&& self.pubkey_url(ip_addr) is None
                &&& e == LoaderError::InvalidUrl
            },
        }
    }

    /// The request that asks the master server for the public key of the
    /// game server `ip_addr`: a `POST` of the password to the server's path
    /// below the master server's address.
    pub fn get_pubkey_request(&self, ip_addr: &str, password: &str) -> (r: Result<
        ApiRequest,
        LoaderError,
    >)
        ensures
            self.is_pubkey_request(r, ip_addr@, password@),
    {
        let directory = directory_of(self.api_url.as_str());
        let path = String::from_str(ip_addr).concat("/public_key");
        self.pubkey_request_to(join_url(directory.as_str(), path.as_str()), password)
    }

    /// The request for a public key, given what the lookup of the game
    /// server's path below the master server's address came to.
    pub fn pubkey_request_to(&self, url: Option<String>, password: &str) -> (r: Result<
        ApiRequest,
        LoaderError,
    >)
        ensures
            match r {
                Ok(req) => {
                    &&& url == Some(req.url)
                    &&& req.method == Method::Post
                    &&& req.password matches Some(body) && body@ == password@
                },
                Err(e) => url is None && e == LoaderError::InvalidUrl,
            },
    {
        match url {
            Some(url) => Ok(
                ApiRequest {
                    method: Method::Post,
                    url,
                    password: Some(String::from_str(password)),
                },
            ),
            None => Err(LoaderError::InvalidUrl),
        }
    }

    /// Reads the reply to the request for a public key. The key is handed on
    /// where the master server reports success and the key is not empty.
    /// Else the failure holds the master server's message as it came. A
    /// reply that did not arrive is a failure of the network.
    pub fn get_pubkey(&self, reply: Result<ApiResponse, String>) -> (r: Result<String, LoaderError>)
        ensures
            r == pubkey_of(reply),
    {
        match reply {
            Ok(res) => {
                let success = same_text(res.status.as_str(), "success");
                if success && !res.public_key.as_str().is_empty() {
                    Ok(res.public_key)
                } else {
                    Err(LoaderError::Auth(res.message))
                }
            },
            Err(detail) => Err(LoaderError::Network(detail)),
        }
    }
}

} // verus!
