//! URL handling: the parts the orchestrator reads from a parsed URL, and the
//! verified construction of the notary session and collection endpoints.
use vstd::prelude::*;
use vstd::string::StringExecFns;

verus! {

/// Spec-level image of the parts read from a parsed URL.
pub ghost struct UrlPartsSpec {
    pub scheme: Seq<char>,
    pub authority: Seq<char>,
    pub path: Seq<char>,
    pub host: Option<Seq<char>>,
}

/// The parts of a parsed URL that the orchestrator reads.
#[derive(Debug)]
pub struct UrlParts {
    pub scheme: String,
    pub authority: String,
    pub path: String,
    pub host: Option<String>,
}

impl View for UrlParts {
    type V = UrlPartsSpec;

    open spec fn view(&self) -> UrlPartsSpec {
        UrlPartsSpec {
            scheme: self.scheme@,
            authority: self.authority@,
            path: self.path@,
            host: match self.host {
                Some(h) => Some(h@),
                None => None,
            },
        }
    }
}

/// What a URL string parses to, or None when it is not a valid URL; the
/// result depends on the string alone.
pub uninterp spec fn url_parts_of(s: Seq<char>) -> Option<UrlPartsSpec>;

/// Relies on url::Url::parse and the accessors scheme (lower-cased, without
/// the ':' delimiter), authority, path and host_str of the parsed value.
#[verifier::external_body]
pub fn parse_url(s: &str) -> (r: Option<UrlParts>)
    ensures
        match r {
            Some(p) => url_parts_of(s@) == Some(p@),
            None => url_parts_of(s@) is None,
        },
{
    match url::Url::parse(s) {
        Ok(u) => Some(UrlParts {
            scheme: u.scheme().to_owned(),
            authority: u.authority().to_owned(),
            path: u.path().to_owned(),
            host: u.host_str().map(|h| h.to_owned()),
        }),
        Err(_) => None,
    }
}

/// Whether a notary URL scheme calls for the secured channel.
pub open spec fn spec_is_secure(scheme: Seq<char>) -> bool {
    scheme == "https"@ || scheme == "wss"@
}

/// The path part as it is spliced into an endpoint: a bare "/" contributes
/// nothing.
pub open spec fn norm_path(p: Seq<char>) -> Seq<char> {
    if p == "/"@ {
        Seq::<char>::empty()
    } else {
        p
    }
}

/// The session-creation endpoint, `{base}/session`.
pub open spec fn spec_session_url(ssl: bool, authority: Seq<char>, path: Seq<char>) -> Seq<char> {
    (if ssl {
        "https://"@
    } else {
        "http://"@
    }) + authority + norm_path(path) + "/session"@
}

/// The collection websocket endpoint carrying the session identifier and
/// the two URL-safe proof parameters.
pub open spec fn spec_collect_ws_url(
    ssl: bool,
    authority: Seq<char>,
    path: Seq<char>,
    session_id: Seq<char>,
    pwd_url_b64: Seq<char>,
    key_url_b64: Seq<char>,
) -> Seq<char> {
    (if ssl {
        "wss://"@
    } else {
        "ws://"@
    }) + authority + norm_path(path) + "/tdn-collect?sessionId="@ + session_id
        + "&commitmentPwdProofBase64="@ + pwd_url_b64 + "&pubKeyConsumerBase64="@ + key_url_b64
}

pub fn is_secure_scheme(scheme: &String) -> (b: bool)
    ensures
        b == spec_is_secure(scheme@),
{
    let https = "https".to_owned();
    let wss = "wss".to_owned();
    *scheme == https || *scheme == wss
}

fn norm_path_exec(path: &String) -> (p: &str)
    ensures
        p@ == norm_path(path@),
{
    proof {
        reveal_strlit("");
        assert(""@ =~= Seq::<char>::empty());
    }
    let slash = "/".to_owned();
    if *path == slash {
        ""
    } else {
        path.as_str()
    }
}

/// Builds the session-creation endpoint from the notary URL parts.
pub fn build_session_url(ssl: bool, authority: &String, path: &String) -> (u: String)
    ensures
        u@ == spec_session_url(ssl, authority@, path@),
{
    let mut u = if ssl {
        "https://".to_owned()
    } else {
        "http://".to_owned()
    };
    u.append(authority.as_str());
    u.append(norm_path_exec(path));
    u.append("/session");
    u
}

/// Builds the collection websocket endpoint; the session identifier and the
/// two proof parameters land in the query string exactly as given.
pub fn build_collect_ws_url(
    ssl: bool,
    authority: &String,
    path: &String,
    session_id: &String,
    pwd_url_b64: &String,
    key_url_b64: &String,
) -> (u: String)
    ensures
        u@ == spec_collect_ws_url(
            ssl,
            authority@,
            path@,
            session_id@,
            pwd_url_b64@,
            key_url_b64@,
        ),
{
    let mut u = if ssl {
        "wss://".to_owned()
    } else {
        "ws://".to_owned()
    };
    u.append(authority.as_str());
    u.append(norm_path_exec(path));
    u.append("/tdn-collect?sessionId=");
    u.append(session_id.as_str());
    u.append("&commitmentPwdProofBase64=");
    u.append(pwd_url_b64.as_str());
    u.append("&pubKeyConsumerBase64=");
    u.append(key_url_b64.as_str());
    u
}

} // verus!
