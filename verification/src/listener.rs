//! Listener addresses: URLs as plain values.

use vstd::prelude::*;

use crate::text::{opt_text, text_is, texts};

verus! {

/// A URL at which a node accepts connections, taken apart into plain values.
#[derive(Debug)]
pub struct ListenerUrl {
    /// The whole URL in its normal form.
    pub text: String,
    pub scheme: String,
    /// The host as it stands in the URL: an IPv6 address is in brackets.
    pub host_str: Option<String>,
    /// The port, where the URL names one that is not its scheme's default.
    pub port: Option<u16>,
    pub path: String,
}

/// The mathematical value of a [`ListenerUrl`].
pub struct UrlView {
    pub text: Seq<char>,
    pub scheme: Seq<char>,
    pub host_str: Option<Seq<char>>,
    pub port: Option<u16>,
    pub path: Seq<char>,
}

impl View for ListenerUrl {
    type V = UrlView;

    open spec fn view(&self) -> UrlView {
        UrlView {
            text: self.text@,
            scheme: self.scheme@,
            host_str: opt_text(self.host_str),
            port: self.port,
            path: self.path@,
        }
    }
}

/// The values of a sequence of URLs.
pub open spec fn url_views(s: Seq<ListenerUrl>) -> Seq<UrlView> {
    s.map_values(|u: ListenerUrl| u@)
}

/// The value of an optional URL.
pub open spec fn opt_url(u: Option<ListenerUrl>) -> Option<UrlView> {
    match u {
        Some(url) => Some(url@),
        None => None,
    }
}

/// What `url::Url::parse` makes of a text: the parts of the URL, or `None`
/// where the text is not an absolute URL.
pub uninterp spec fn parsed_url(input: Seq<char>) -> Option<UrlView>;

/// The URLs among some texts, in order. A text that is not a URL is passed over.
pub open spec fn parsed_urls(inputs: Seq<Seq<char>>) -> Seq<UrlView>
    decreases inputs.len(),
{
    if inputs.len() == 0 {
        Seq::empty()
    } else {
        let head = parsed_urls(inputs.drop_last());
        match parsed_url(inputs.last()) {
            Some(url) => head.push(url),
            None => head,
        }
    }
}

/// Calls `url::Url::parse` and reads the parts of the URL off its accessors
/// `as_str`, `scheme`, `host_str`, `port` and `path`. All of them depend on the
/// text alone; the contract gives their joint result the name [`parsed_url`] and
/// claims nothing else of it. In particular it does not claim that the text of
/// the URL is read as the same URL again.
#[verifier::external_body]
fn url_parse(input: &str) -> (r: Option<ListenerUrl>)
    ensures
        opt_url(r) == parsed_url(input@),
{
    let u = url::Url::parse(input).ok()?;
    let host_str = u.host_str().map(|h| h.to_string());
    let (scheme, path) = (u.scheme().to_string(), u.path().to_string());
    Some(ListenerUrl { text: u.as_str().to_string(), scheme, host_str, port: u.port(), path })
}

/// The port that a scheme stands for, if it stands for one. It is left out of
/// the normal form of a URL.
pub open spec fn scheme_port(scheme: Seq<char>) -> Option<u16> {
    if scheme == "http"@ || scheme == "ws"@ {
        Some(80)
    } else if scheme == "https"@ || scheme == "wss"@ {
        Some(443)
    } else if scheme == "ftp"@ {
        Some(21)
    } else {
        None
    }
}

/// The port that a URL leads to: the one it names, or the one of its scheme.
pub open spec fn effective_port(url: UrlView) -> Option<u16> {
    match url.port {
        Some(p) => Some(p),
        None => scheme_port(url.scheme),
    }
}

/// Whether two URLs have the same host and lead to the same port, whatever their
/// schemes and paths. A host is compared as it stands in the URL: some schemes
/// leave an IPv4 address uninterpreted, and it is the same host all the same. Two
/// URLs without a host agree on the host, and two without a port on the port.
pub open spec fn same_endpoint_spec(a: UrlView, b: UrlView) -> bool {
    a.host_str == b.host_str && effective_port(a) == effective_port(b)
}

/// Whether `url` has the same host and port as what a text is read as. A text
/// that is no URL matches none.
pub open spec fn endpoint_matches(url: UrlView, text: Seq<char>) -> bool {
    parsed_url(text) matches Some(other) && same_endpoint_spec(url, other)
}

/// Law: having the same host and port is an equivalence.
pub proof fn law_same_endpoint_equivalence(a: UrlView, b: UrlView, c: UrlView)
    ensures
        same_endpoint_spec(a, a),
        same_endpoint_spec(a, b) == same_endpoint_spec(b, a),
        same_endpoint_spec(a, b) && same_endpoint_spec(b, c) ==> same_endpoint_spec(a, c),
{
}

/// Law: matching a text is an equivalence between URLs and the texts they were
/// read from: a URL matches its text, two match each other's texts or neither
/// does, and matching carries over. Only the host and the port count, so URLs
/// that agree on them match the same texts. A text that is no URL matches
/// nothing.
pub proof fn law_endpoint_matches_equivalence(
    a: UrlView,
    b: UrlView,
    c: UrlView,
    text_a: Seq<char>,
    text_b: Seq<char>,
    text_c: Seq<char>,
    other: Seq<char>,
)
    requires
        parsed_url(text_a) == Some(a),
        parsed_url(text_b) == Some(b),
        parsed_url(text_c) == Some(c),
    ensures
        endpoint_matches(a, text_a),
        endpoint_matches(a, text_b) == endpoint_matches(b, text_a),
        endpoint_matches(a, text_b) && endpoint_matches(b, text_c) ==> endpoint_matches(a, text_c),
        same_endpoint_spec(a, b) ==> endpoint_matches(a, other) == endpoint_matches(b, other),
        parsed_url(other) is None ==> !endpoint_matches(a, other),
{
}

/// The URLs among some texts, in order.
pub fn parse_listeners(inputs: &Vec<String>) -> (r: Vec<ListenerUrl>)
    ensures
        url_views(r@) == parsed_urls(texts(inputs@)),
{
    let mut r: Vec<ListenerUrl> = Vec::new();
    let ghost all = texts(inputs@);
    let mut i: usize = 0;
    assert(url_views(r@) =~= parsed_urls(all.take(0)));
    while i < inputs.len()
        invariant
            i <= inputs.len(),
            all == texts(inputs@),
            url_views(r@) == parsed_urls(all.take(i as int)),
        decreases inputs.len() - i,
    {
        proof {
            assert(all.take(i + 1).drop_last() =~= all.take(i as int));
            assert(all.take(i + 1).last() == inputs@[i as int]@);
        }
        match ListenerUrl::parse(inputs[i].as_str()) {
            Some(url) => {
                let ghost before = url_views(r@);
                let ghost value = url@;
                r.push(url);
                assert(url_views(r@) =~= before.push(value));
            },
            None => {},
        }
        i = i + 1;
    }
    assert(all.take(all.len() as int) =~= all);
    r
}

impl Clone for ListenerUrl {
    fn clone(&self) -> (r: ListenerUrl)
        ensures
            r == *self,
    {
        let host_str: Option<String> = match &self.host_str {
            Some(h) => Some(h.clone()),
            None => None,
        };
        ListenerUrl {
            text: self.text.clone(),
            scheme: self.scheme.clone(),
            host_str,
            port: self.port,
            path: self.path.clone(),
        }
    }
}

/// Copies a vector of URLs.
pub fn copy_urls(v: &Vec<ListenerUrl>) -> (r: Vec<ListenerUrl>)
    ensures
        r@ == v@,
{
    let mut r: Vec<ListenerUrl> = Vec::new();
    let mut i: usize = 0;
    while i < v.len()
        invariant
            i <= v.len(),
            r@ == v@.take(i as int),
        decreases v.len() - i,
    {
        r.push(v[i].clone());
        proof {
            assert(v@.take(i + 1) =~= v@.take(i as int).push(v@[i as int]));
        }
        i = i + 1;
    }
    assert(v@.take(v@.len() as int) =~= v@);
    r
}

impl ListenerUrl {
    /// Parses an absolute URL.
    pub fn parse(input: &str) -> (r: Option<ListenerUrl>)
        ensures
            opt_url(r) == parsed_url(input@),
    {
        url_parse(input)
    }

    /// Whether the URL has the given scheme.
    pub fn has_scheme(&self, scheme: &str) -> (r: bool)
        ensures
            r == (self@.scheme == scheme@),
    {
        text_is(&self.scheme, scheme)
    }

    /// The port that the URL leads to.
    pub fn effective_port(&self) -> (r: Option<u16>)
        ensures
            r == effective_port(self@),
    {
        match self.port {
            Some(p) => Some(p),
            None => {
                if self.has_scheme("http") || self.has_scheme("ws") {
                    Some(80)
                } else if self.has_scheme("https") || self.has_scheme("wss") {
                    Some(443)
                } else if self.has_scheme("ftp") {
                    Some(21)
                } else {
                    None
                }
            },
        }
    }

    /// Whether two URLs have the same host and lead to the same port, whatever
    /// their schemes.
    pub fn same_endpoint(&self, other: &ListenerUrl) -> (r: bool)
        ensures
            r == same_endpoint_spec(self@, other@),
    {
        let hosts: bool = match (&self.host_str, &other.host_str) {
            (Some(a), Some(b)) => *a == *b,
            (None, None) => true,
            _ => false,
        };
        let ports: bool = match (self.effective_port(), other.effective_port()) {
            (Some(a), Some(b)) => a == b,
            (None, None) => true,
            _ => false,
        };
        hosts && ports
    }
}

/// Law: the value of a URL is that of each of its parts.
pub proof fn law_url_by_parts(u: ListenerUrl, s: Seq<ListenerUrl>)
    ensures
        u@.text == u.text@,
        u@.scheme == u.scheme@,
        u@.host_str is Some <==> u.host_str is Some,
        u.host_str matches Some(h) ==> u@.host_str == Some(h@),
        u@.port == u.port,
        u@.path == u.path@,
        opt_url(Some(u)) == Some(u@),
        opt_url(None) is None,
        url_views(s).len() == s.len(),
        forall|i: int| 0 <= i < s.len() ==> #[trigger] url_views(s)[i] == s[i]@,
{
}

/// Law: texts are read one by one and in order: reading some and then others is
/// reading them all, a text that is a URL gives that URL, and one that is none
/// gives nothing.
pub proof fn law_texts_read_in_turn(a: Seq<Seq<char>>, b: Seq<Seq<char>>, text: Seq<char>)
    ensures
        parsed_urls(a + b) == parsed_urls(a) + parsed_urls(b),
        parsed_url(text) matches Some(url) ==> parsed_urls(seq![text]) == seq![url],
        parsed_url(text) is None ==> parsed_urls(seq![text]).len() == 0,
        parsed_urls(Seq::empty()).len() == 0,
    decreases b.len(),
{
    reveal_with_fuel(parsed_urls, 2);
    assert(seq![text].drop_last() =~= Seq::<Seq<char>>::empty());
    if b.len() == 0 {
        assert(a + b =~= a);
        assert(parsed_urls(a) + parsed_urls(b) =~= parsed_urls(a));
    } else {
        law_texts_read_in_turn(a, b.drop_last(), text);
        assert((a + b).drop_last() =~= a + b.drop_last());
        assert(parsed_urls(a + b) =~= parsed_urls(a) + parsed_urls(b));
    }
}

/// Law: a URL leads to the port it names, whatever its scheme. Where it names
/// none, `http` and `ws` lead to 80, `https` and `wss` to 443, `ftp` to 21, and
/// every other scheme to none.
pub proof fn law_port_named_or_of_scheme(url: UrlView)
    ensures
        url.port is Some ==> effective_port(url) == url.port,
        url.port is None && (url.scheme == "http"@ || url.scheme == "ws"@) ==> effective_port(url)
            == Some(80u16),
        url.port is None && (url.scheme == "https"@ || url.scheme == "wss"@) ==> effective_port(url)
            == Some(443u16),
        url.port is None && url.scheme == "ftp"@ ==> effective_port(url) == Some(21u16),
        url.port is None && url.scheme != "http"@ && url.scheme != "ws"@ && url.scheme != "https"@
            && url.scheme != "wss"@ && url.scheme != "ftp"@ ==> effective_port(url) is None,
{
    reveal_strlit("http");
    reveal_strlit("ws");
    reveal_strlit("https");
    reveal_strlit("wss");
    reveal_strlit("ftp");
    assert("http"@.len() == 4 && "ws"@.len() == 2 && "https"@.len() == 5);
    assert("wss"@.len() == 3 && "ftp"@.len() == 3);
    assert("wss"@[0] != "ftp"@[0]);
}

/// Law: two URLs share an endpoint exactly where their hosts stand the same in
/// both and they lead to the same port. Where both name a port, that is the port
/// they name, and neither scheme, text nor path counts.
pub proof fn law_same_endpoint_means_host_and_port(a: UrlView, b: UrlView)
    ensures
        same_endpoint_spec(a, b) ==> a.host_str == b.host_str,
        same_endpoint_spec(a, b) ==> effective_port(a) == effective_port(b),
        a.host_str == b.host_str && effective_port(a) == effective_port(b) ==> same_endpoint_spec(
            a,
            b,
        ),
        a.port is Some && b.port is Some ==> (same_endpoint_spec(a, b) <==> a.host_str == b.host_str
            && a.port == b.port),
        forall|text: Seq<char>|
            parsed_url(text) == Some(b) ==> (#[trigger] endpoint_matches(a, text) <==> a.host_str
                == b.host_str && effective_port(a) == effective_port(b)),
{
}

} // verus!
