//! Serving the interactive API documentation: the entries of its document
//! selector, the page template and the files handed to the web server.
use vstd::prelude::*;
use vstd::string::StringExecFns;
use vstd::std_specs::convert::FromSpecImpl;
use vstd::string::StringSliceAdditionalSpecFns;
use vstd::string::StrSliceExecFns;
use vstd::utf8::encode_utf8;
use crate::text::{ends_with_slash, owned_text_of, replace_all, replaced, same_text, text_of};

verus! {

/// The mathematical value of a [`Url`].
pub struct UrlView {
    pub name: Seq<char>,
    pub url: Seq<char>,
    pub primary: bool,
}

/// One entry of the document selector: a display name, the path under which
/// the API document is exposed, and whether it is shown first.
#[derive(Clone, Debug)]
pub struct Url {
    name: String,
    url: String,
    primary: bool,
}

impl View for Url {
    type V = UrlView;

    closed spec fn view(&self) -> UrlView {
        UrlView { name: self.name@, url: self.url@, primary: self.primary }
    }
}

impl Url {
    /// An entry with the given display name and document path, not primary.
    pub fn new(name: &str, url: &str) -> (r: Self)
        ensures
            r@ == (UrlView { name: name@, url: url@, primary: false }),
    {
        Url { name: String::from_str(name), url: String::from_str(url), primary: false }
    }

    /// An entry with the given display name, document path and primary flag.
    pub fn with_primary(name: &str, url: &str, primary: bool) -> (r: Self)
        ensures
            r@ == (UrlView { name: name@, url: url@, primary }),
    {
        Url { name: String::from_str(name), url: String::from_str(url), primary }
    }

    /// The display name; empty when the entry was made from a path alone.
    pub fn name(&self) -> (r: &str)
        ensures
            r@ == self@.name,
    {
        self.name.as_str()
    }

    /// The path under which the API document is exposed.
    pub fn url(&self) -> (r: &str)
        ensures
            r@ == self@.url,
    {
        self.url.as_str()
    }

    /// Whether this entry is the one shown first.
    pub fn primary(&self) -> (r: bool)
        ensures
            r == self@.primary,
    {
        self.primary
    }
}

impl Default for Url {
    /// The entry with an empty name, an empty path and no primary flag.
    fn default() -> (r: Self)
        ensures
            r@ == (UrlView { name: Seq::empty(), url: Seq::empty(), primary: false }),
    {
        Url { name: String::new(), url: String::new(), primary: false }
    }
}

impl<'a> FromSpecImpl<&'a str> for Url {
    open spec fn obeys_from_spec() -> bool {
        false
    }

    open spec fn from_spec(v: &'a str) -> Url {
        arbitrary()
    }
}

impl<'a> From<&'a str> for Url {
    /// An unnamed, non-primary entry for the given document path.
    fn from(url: &'a str) -> (r: Self)
        ensures
            r@ == (UrlView { name: Seq::empty(), url: url@, primary: false }),
    {
        Url { name: String::new(), url: String::from_str(url), primary: false }
    }
}

impl FromSpecImpl<String> for Url {
    open spec fn obeys_from_spec() -> bool {
        false
    }

    open spec fn from_spec(v: String) -> Url {
        arbitrary()
    }
}

impl From<String> for Url {
    /// An unnamed, non-primary entry for the given document path.
    fn from(url: String) -> (r: Self)
        ensures
            r@ == (UrlView { name: Seq::empty(), url: url@, primary: false }),
    {
        Url { name: String::new(), url, primary: false }
    }
}

/// The page that hosts the documentation viewer. It holds one marker for
/// the viewer's configuration and one for the OAuth initialisation.
pub const INDEX_TMPL: &'static str = r#"
<!DOCTYPE html>
<html charset="UTF-8">
  <head>
    <meta charset="UTF-8">
    <title>Swagger UI</title>
    <link rel="stylesheet" type="text/css" href="./swagger-ui.css" />
    <link rel="icon" type="image/png" href="./favicon-32x32.png" sizes="32x32" />
    <link rel="icon" type="image/png" href="./favicon-16x16.png" sizes="16x16" />
    <style>
    html {
        box-sizing: border-box;
        overflow: -moz-scrollbars-vertical;
        overflow-y: scroll;
    }
    *,
    *:before,
    *:after {
        box-sizing: inherit;
    }
    body {
        margin: 0;
        background: #fafafa;
    }
    </style>
  </head>

  <body>
    <div id="swagger-ui"></div>
    <script src="./swagger-ui-bundle.js" charset="UTF-8"> </script>
    <script src="./swagger-ui-standalone-preset.js" charset="UTF-8"> </script>
    <script>
    window.onload = function() {
        let config = {
            dom_id: '#swagger-ui',
            deepLinking: true,
            presets: [
              SwaggerUIBundle.presets.apis,
              SwaggerUIStandalonePreset
            ],
            plugins: [
              SwaggerUIBundle.plugins.DownloadUrl
            ],
            layout: "StandaloneLayout"
          };
        window.ui = SwaggerUIBundle(Object.assign(config, {{config}}));
        //{{oauth}}
    };
    </script>
  </body>
</html>
"#;

/// The marker that the viewer's configuration replaces.
pub const CONFIG_MARK: &'static str = "{{config}}";

/// The marker that the OAuth initialisation replaces.
pub const OAUTH_MARK: &'static str = "//{{oauth}}";

/// The name under which the hosting page is served.
pub const INDEX_NAME: &'static str = "index.html";

/// A file of the documentation viewer, ready to be sent.
#[derive(Debug)]
pub struct SwaggerFile {
    /// Content of the file.
    pub bytes: Vec<u8>,
    /// Content type of the file, such as `"text/xml"`.
    pub content_type: String,
}

/// The content type that `mime_guess` assigns to a path by its extension,
/// as text.
pub uninterp spec fn guessed_content_type(path: Seq<char>) -> Seq<char>;

/// Calls `mime_guess::from_path(path).first_or_octet_stream()` and renders
/// the media type as text. The guess reads the path's extension only, never
/// the disk, so the result is a function of the path; the contract gives
/// that function a name and claims nothing else of it.
#[verifier::external_body]
fn content_type_for(path: &str) -> (r: String)
    ensures
        r@ == guessed_content_type(path@),
{
    mime_guess::from_path(path).first_or_octet_stream().to_string()
}

/// The file name that a request path stands for: the hosting page for the
/// empty path and for `/`, the path itself otherwise.
pub open spec fn resolved_path(path: Seq<char>) -> Seq<char> {
    if path.len() == 0 || path == seq!['/'] {
        INDEX_NAME@
    } else {
        path
    }
}

/// The OAuth initialisation statement for a configuration given as JSON.
pub open spec fn oauth_statement(oauth_json: Seq<char>) -> Seq<char> {
    "window.ui.initOAuth("@ + oauth_json + ");"@
}

/// The hosting page: the template with every configuration marker replaced
/// by the configuration and then, where OAuth is configured, every OAuth
/// marker replaced by the initialisation statement.
pub open spec fn index_page(config_json: Seq<char>, oauth_json: Option<Seq<char>>) -> Seq<char> {
    let page = replaced(INDEX_TMPL@, CONFIG_MARK@, config_json);
    match oauth_json {
        Some(oauth) => replaced(page, OAUTH_MARK@, oauth_statement(oauth)),
        None => page,
    }
}

/// Maps a request path to the file name it stands for.
pub fn resolve_path(path: &str) -> (r: &str)
    ensures
        r@ == resolved_path(path@),
{
    proof {
        reveal_strlit("/");
        assert("/"@ =~= seq!['/']);
    }
    if path.unicode_len() == 0 || same_text(path, "/") {
        INDEX_NAME
    } else {
        path
    }
}

/// Renders the hosting page for a viewer configuration and an optional
/// OAuth configuration, both already serialised as JSON.
pub fn render_index(config_json: &str, oauth_json: Option<&str>) -> (r: String)
    ensures
        r@ == index_page(config_json@, text_of(oauth_json)),
{
    proof {
        reveal_strlit("{{config}}");
        reveal_strlit("//{{oauth}}");
    }
    let page = replace_all(INDEX_TMPL, CONFIG_MARK, config_json);
    match oauth_json {
        Some(oauth) => {
            let mut statement = String::from_str("window.ui.initOAuth(");
            statement.append(oauth);
            statement.append(");");
            replace_all(page.as_str(), OAUTH_MARK, statement.as_str())
        },
        None => page,
    }
}

/// What [`serve`] answers for a path, given the two configurations as JSON
/// and what the bundle holds under the resolved path.
pub open spec fn served(
    file: Option<SwaggerFile>,
    path: Seq<char>,
    config_json: Seq<char>,
    oauth_json: Option<Seq<char>>,
    asset: Option<Vec<u8>>,
) -> bool {
    let name = resolved_path(path);
    if name == INDEX_NAME@ {
        &&& file is Some
        &&& file->0.bytes@ == encode_utf8(index_page(config_json, oauth_json))
        &&& file->0.content_type@ == guessed_content_type(name)
    } else {
        match asset {
            Some(bytes) => {
                &&& file is Some
                &&& file->0.bytes == bytes
                &&& file->0.content_type@ == guessed_content_type(name)
            },
            None => file is None,
        }
    }
}

/// Serves one file of the documentation viewer.
///
/// `path` is the request path below the viewer's root. `config_json` and
/// `oauth_json` are the viewer's and the OAuth configuration as JSON, and
/// `asset` is what the bundle of viewer files holds under
/// `resolve_path(path)`. The hosting page is rendered from the template and
/// never read from the bundle; any other path is answered from the bundle,
/// with `None` where the bundle has no such file.
pub fn serve(path: &str, config_json: &str, oauth_json: Option<&str>, asset: Option<Vec<u8>>) -> (r:
    Option<SwaggerFile>)
    ensures
        served(r, path@, config_json@, text_of(oauth_json), asset),
{
    let name = resolve_path(path);
    if same_text(name, INDEX_NAME) {
        let page = render_index(config_json, oauth_json);
        let bytes = page.as_str().as_bytes_vec();
        Some(SwaggerFile { bytes, content_type: content_type_for(name) })
    } else {
        match asset {
            Some(bytes) => Some(SwaggerFile { bytes, content_type: content_type_for(name) }),
            None => None,
        }
    }
}

/// The path and the query of a request target.
#[derive(Debug)]
pub struct PathAndQuery {
    pub path: String,
    pub query: Option<String>,
}

/// The parts of a request target that a redirect keeps or rewrites.
#[derive(Debug)]
pub struct UriParts {
    pub scheme: Option<String>,
    pub authority: Option<String>,
    pub path_and_query: Option<PathAndQuery>,
}

/// The parts of a redirect target; path and query are one text, as they
/// stand in the `Location` header.
#[derive(Debug)]
pub struct RedirectParts {
    pub scheme: Option<String>,
    pub authority: Option<String>,
    pub path_and_query: Option<String>,
}

/// The directory form of a path with its query: the path, a slash, and the
/// query behind a question mark where there is one.
pub open spec fn dir_form(path: Seq<char>, query: Option<Seq<char>>) -> Seq<char> {
    match query {
        Some(q) => path + seq!['/', '?'] + q,
        None => path + seq!['/'],
    }
}

/// The path of a request target: empty where the target has none.
pub open spec fn uri_path(uri: UriParts) -> Seq<char> {
    match uri.path_and_query {
        Some(pq) => pq.path@,
        None => Seq::empty(),
    }
}

/// Whether `to` is the directory form of the request target `uri`: scheme
/// and authority as in `uri`, path and query in their directory form.
pub open spec fn is_dir_redirect(to: RedirectParts, uri: UriParts) -> bool {
    &&& owned_text_of(to.scheme) == owned_text_of(uri.scheme)
    &&& owned_text_of(to.authority) == owned_text_of(uri.authority)
    &&& owned_text_of(to.path_and_query) == match uri.path_and_query {
        Some(pq) => Some(dir_form(pq.path@, owned_text_of(pq.query))),
        None => None,
    }
}

/// Builds the target of the redirect that sends a request for the viewer's
/// root without a trailing slash to the same place with one. Scheme and
/// authority are kept, the query too.
pub fn redirect_to_dir_url(req_uri: &UriParts) -> (r: RedirectParts)
    ensures
        is_dir_redirect(r, *req_uri),
{
    proof {
        reveal_strlit("/");
        reveal_strlit("/?");
    }
    let scheme = match &req_uri.scheme {
        Some(s) => Some(s.clone()),
        None => None,
    };
    let authority = match &req_uri.authority {
        Some(a) => Some(a.clone()),
        None => None,
    };
    let path_and_query = match &req_uri.path_and_query {
        Some(pq) => {
            let mut text = pq.path.clone();
            match &pq.query {
                Some(q) => {
                    text.append("/?");
                    text.append(q.as_str());
                    assert(text@ =~= dir_form(pq.path@, owned_text_of(pq.query)));
                },
                None => {
                    text.append("/");
                    assert(text@ =~= dir_form(pq.path@, owned_text_of(pq.query)));
                },
            }
            Some(text)
        },
        None => None,
    };
    RedirectParts { scheme, authority, path_and_query }
}

/// What the handler answers to one request.
#[derive(Debug)]
pub enum Reply {
    /// Send the client to the directory form of the address.
    Redirect(RedirectParts),
    /// Send the file.
    File(SwaggerFile),
    /// The viewer has no such file.
    NotFound,
}

/// Whether a request must be redirected: its path below the viewer's root
/// is empty and its address does not end in a slash.
pub open spec fn wants_redirect(tail: Seq<char>, uri: UriParts) -> bool {
    tail.len() == 0 && !(uri_path(uri).len() > 0 && uri_path(uri).last() == '/')
}

/// Decides the answer to one request for the viewer.
///
/// `tail` is the request path below the viewer's root and `req_uri` the
/// request target; the other arguments are those of [`serve`]. A request
/// for the root without a trailing slash is redirected; any other is
/// served, or not found.
pub fn handle(
    tail: &str,
    req_uri: &UriParts,
    config_json: &str,
    oauth_json: Option<&str>,
    asset: Option<Vec<u8>>,
) -> (r: Reply)
    ensures
        match r {
            Reply::Redirect(to) => wants_redirect(tail@, *req_uri) && is_dir_redirect(to, *req_uri),
            Reply::File(file) => !wants_redirect(tail@, *req_uri) && served(
                Some(file),
                tail@,
                config_json@,
                text_of(oauth_json),
                asset,
            ),
            Reply::NotFound => !wants_redirect(tail@, *req_uri) && served(
                None,
                tail@,
                config_json@,
                text_of(oauth_json),
                asset,
            ),
        },
{
    let at_dir = match &req_uri.path_and_query {
        Some(pq) => ends_with_slash(pq.path.as_str()),
        None => false,
    };
    if tail.unicode_len() == 0 && !at_dir {
        Reply::Redirect(redirect_to_dir_url(req_uri))
    } else {
        match serve(tail, config_json, oauth_json, asset) {
            Some(file) => Reply::File(file),
            None => Reply::NotFound,
        }
    }
}

/// A JSON document, handed through unread.
#[verifier::external_type_specification]
#[verifier::external_body]
pub struct ExJsonValue(serde_json::Value);

/// The suffix that makes a route match everything below a path.
pub const ROUTE_TAIL: &'static str = "/<**>";

/// The documentation viewer with the documents that it offers.
#[derive(Debug)]
pub struct SwaggerUi {
    urls: Vec<(Url, serde_json::Value)>,
    config_json: String,
    oauth_json: Option<String>,
    external_urls: Vec<(Url, serde_json::Value)>,
}

/// The mathematical value of a [`SwaggerUi`].
pub struct SwaggerUiView {
    /// The API documents of this server, in the order in which they were
    /// added.
    pub urls: Seq<(Url, serde_json::Value)>,
    /// The viewer's configuration as JSON.
    pub config_json: Seq<char>,
    /// The OAuth configuration as JSON, if any.
    pub oauth_json: Option<Seq<char>>,
    /// The API documents from elsewhere, in the order in which they were
    /// added.
    pub external_urls: Seq<(Url, serde_json::Value)>,
}

impl View for SwaggerUi {
    type V = SwaggerUiView;

    closed spec fn view(&self) -> SwaggerUiView {
        SwaggerUiView {
            urls: self.urls@,
            config_json: self.config_json@,
            oauth_json: owned_text_of(self.oauth_json),
            external_urls: self.external_urls@,
        }
    }
}

impl SwaggerUi {
    /// A viewer with the given configuration, as JSON, and no document.
    pub fn new(config_json: &str) -> (r: Self)
        ensures
            r@ == (SwaggerUiView {
                urls: Seq::empty(),
                config_json: config_json@,
                oauth_json: None,
                external_urls: Seq::empty(),
            }),
    {
        SwaggerUi {
            urls: Vec::new(),
            config_json: String::from_str(config_json),
            oauth_json: None,
            external_urls: Vec::new(),
        }
    }

    /// Adds an API document of this server behind those already added.
    pub fn url(self, url: Url, openapi: serde_json::Value) -> (r: Self)
        ensures
            r@ == (SwaggerUiView { urls: self@.urls.push((url, openapi)), ..self@ }),
    {
        let mut ui = self;
        ui.urls.push((url, openapi));
        ui
    }

    /// Replaces the API documents of this server by the given ones.
    pub fn urls(self, urls: Vec<(Url, serde_json::Value)>) -> (r: Self)
        ensures
            r@ == (SwaggerUiView { urls: urls@, ..self@ }),
    {
        let mut ui = self;
        ui.urls = urls;
        ui
    }

    /// Adds an API document from elsewhere behind those already added. The
    /// document is not looked at.
    pub fn external_url_unchecked(self, url: Url, openapi: serde_json::Value) -> (r: Self)
        ensures
            r@ == (SwaggerUiView { external_urls: self@.external_urls.push((url, openapi)), ..self@ }),
    {
        let mut ui = self;
        ui.external_urls.push((url, openapi));
        ui
    }

    /// Adds API documents from elsewhere, in their order, behind those
    /// already added. The documents are not looked at.
    pub fn external_urls_from_iter_unchecked(self, external_urls: Vec<(Url, serde_json::Value)>) -> (r:
        Self)
        ensures
            r@ == (SwaggerUiView { external_urls: self@.external_urls + external_urls@, ..self@ }),
    {
        let mut ui = self;
        let mut more = external_urls;
        ui.external_urls.append(&mut more);
        ui
    }

    /// Sets the OAuth configuration, as JSON.
    pub fn oauth(self, oauth_json: &str) -> (r: Self)
        ensures
            r@ == (SwaggerUiView { oauth_json: Some(oauth_json@), ..self@ }),
    {
        let mut ui = self;
        ui.oauth_json = Some(String::from_str(oauth_json));
        ui
    }

    /// The API documents of this server.
    pub fn listed_urls(&self) -> (r: &Vec<(Url, serde_json::Value)>)
        ensures
            r@ == self@.urls,
    {
        &self.urls
    }

    /// The API documents from elsewhere.
    pub fn listed_external_urls(&self) -> (r: &Vec<(Url, serde_json::Value)>)
        ensures
            r@ == self@.external_urls,
    {
        &self.external_urls
    }

    /// The route under which the viewer answers for a path: the path and
    /// everything below it.
    pub fn route_path(path: &str) -> (r: String)
        ensures
            r@ == path@ + ROUTE_TAIL@,
    {
        let mut route = String::from_str(path);
        route.append(ROUTE_TAIL);
        route
    }

    /// Decides the answer to one request, as [`handle`] does with this
    /// viewer's configurations.
    pub fn handle(&self, tail: &str, req_uri: &UriParts, asset: Option<Vec<u8>>) -> (r: Reply)
        ensures
            match r {
                Reply::Redirect(to) => wants_redirect(tail@, *req_uri) && is_dir_redirect(to, *req_uri),
                Reply::File(file) => !wants_redirect(tail@, *req_uri) && served(
                    Some(file),
                    tail@,
                    self@.config_json,
                    self@.oauth_json,
                    asset,
                ),
                Reply::NotFound => !wants_redirect(tail@, *req_uri) && served(
                    None,
                    tail@,
                    self@.config_json,
                    self@.oauth_json,
                    asset,
                ),
            },
    {
        let oauth_json = match &self.oauth_json {
            Some(text) => Some(text.as_str()),
            None => None,
        };
        handle(tail, req_uri, self.config_json.as_str(), oauth_json, asset)
    }
}

} // verus!
