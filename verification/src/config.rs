//! The values fixed at startup and read ever after: the watched root, the
//! host, the bound port, and the reload fragment made from the two last.

use vstd::prelude::*;
use vstd::utf8::{encode_utf8, valid_utf8};
use crate::assets::{
    asset_path_text, guessed_content_type, is_html, locate, respond, response_for, AssetLocation,
    AssetResponse, AssetResponseView, ReadOutcome,
};
use crate::snippet::{reload_snippet, reload_snippet_text};
use crate::text::{listen_url, listen_url_text};
use crate::watcher::{classified, classify, Notification, WatchStep};

verus! {

/// What a server is started with. Built once, when the port is bound, and
/// not changed afterwards.
pub struct ServerConfig {
    root: String,
    host: String,
    port: u16,
    snippet: String,
}

/// A `ServerConfig` as plain values.
pub ghost struct ServerConfigView {
    pub root: Seq<char>,
    pub host: Seq<char>,
    pub port: u16,
}

impl View for ServerConfig {
    type V = ServerConfigView;

    closed spec fn view(&self) -> ServerConfigView {
        ServerConfigView { root: self.root@, host: self.host@, port: self.port }
    }
}

impl ServerConfigView {
    /// The reload fragment of a server with this configuration.
    pub open spec fn snippet(self) -> Seq<char> {
        reload_snippet_text(self.host, self.port)
    }
}

impl ServerConfig {
    #[verifier::type_invariant]
    spec fn snippet_matches(self) -> bool {
        self.snippet@ == reload_snippet_text(self.host@, self.port)
    }

    /// Fixes the watched root, the host and the bound port, and makes the
    /// reload fragment from the host and the port.
    pub fn new(root: String, host: String, port: u16) -> (config: Self)
        ensures
            config@ == (ServerConfigView { root: root@, host: host@, port }),
    {
        let snippet = reload_snippet(host.as_str(), port);
        ServerConfig { root, host, port, snippet }
    }

    /// The watched root.
    pub fn root(&self) -> (root: &str)
        ensures
            root@ == self@.root,
    {
        self.root.as_str()
    }

    /// The host the server is reachable under.
    pub fn host(&self) -> (host: &str)
        ensures
            host@ == self@.host,
    {
        self.host.as_str()
    }

    /// The port the server listens on.
    pub fn port(&self) -> (port: u16)
        ensures
            port == self@.port,
    {
        self.port
    }

    /// The reload fragment appended to HTML documents.
    pub fn snippet(&self) -> (snippet: &str)
        ensures
            snippet@ == self@.snippet(),
    {
        proof {
            use_type_invariant(self);
        }
        self.snippet.as_str()
    }

    /// The URL under which the server is reachable.
    pub fn url(&self) -> (url: String)
        ensures
            url@ == listen_url_text(self@.host, self@.port),
    {
        listen_url(self.host.as_str(), self.port)
    }

    /// Finds the file a request path names under the watched root.
    pub fn locate(&self, url_path: &str) -> (location: AssetLocation)
        ensures
            location.path@ == asset_path_text(self@.root, url_path@),
            location.content_type@ == guessed_content_type(location.path@),
    {
        locate(self.root.as_str(), url_path)
    }

    /// Builds the response for a file of the given content type from the
    /// outcome of reading it, with this server's reload fragment.
    pub fn respond(&self, content_type: String, read: ReadOutcome) -> (response: AssetResponse)
        ensures
            response@ == response_for(content_type@, read, self@.snippet()),
    {
        proof {
            use_type_invariant(self);
        }
        respond(content_type, read, self.snippet.as_str())
    }

    /// Decides what the watch loop does with one notification.
    pub fn classify(&self, notification: Notification) -> (step: WatchStep)
        ensures
            step@ == classified(notification, self@.root),
    {
        classify(notification, self.root.as_str())
    }
}

/// Injection: under a server reachable at `host` and `port`, an HTML
/// document that is UTF-8 text is served as its own bytes followed by the
/// bytes of the reload fragment for `host` and `port`, and a file of any
/// other content type as the bytes that were read, whatever they are.
pub proof fn law_only_html_gets_the_fragment(
    host: Seq<char>,
    port: u16,
    content_type: Seq<char>,
    file: Vec<u8>,
)
    ensures
        is_html(content_type) && valid_utf8(file@) ==> response_for(
            content_type,
            ReadOutcome::Bytes(file),
            reload_snippet_text(host, port),
        ) == (AssetResponseView::Served {
            content_type,
            body: file@ + encode_utf8(reload_snippet_text(host, port)),
        }),
        !is_html(content_type) ==> response_for(
            content_type,
            ReadOutcome::Bytes(file),
            reload_snippet_text(host, port),
        ) == (AssetResponseView::Served { content_type, body: file@ }),
{
}

} // verus!
