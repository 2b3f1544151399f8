//! From the addresses a node listens on to those that others can connect to.
//!
//! A listener may be bound to the wildcard address, which means every
//! interface. Nobody else can connect to that address, so each wildcard listener
//! is announced once for every address of the node's interfaces.

use vstd::prelude::*;
use vstd::string::*;

use crate::listener::{effective_port, url_views, ListenerUrl, UrlView};
use crate::text::{decimal, decimal_text, text_is, texts};

verus! {

/// The port that is announced for a wildcard listener that names none, where its
/// scheme stands for none either.
pub const FALLBACK_PORT: u16 = 80;

/// What a listener is bound to.
#[derive(Clone, Copy, Debug, PartialEq, Eq, Structural)]
pub enum Binding {
    /// An address that others can connect to as it stands, or no address.
    Specific,
    /// Every IPv4 interface.
    AnyIpv4,
    /// Every IPv6 interface.
    AnyIpv6,
}

/// What a listener is bound to. A `ring` URL names a channel inside the process,
/// never an interface.
pub open spec fn binding(url: UrlView) -> Binding {
    if url.scheme == "ring"@ {
        Binding::Specific
    } else if url.host_str == Some("0.0.0.0"@) {
        Binding::AnyIpv4
    } else if url.host_str == Some("::"@) || url.host_str == Some("[::]"@) {
        Binding::AnyIpv6
    } else {
        Binding::Specific
    }
}

/// The path as it is announced: the root path is left out.
pub open spec fn announced_path(path: Seq<char>) -> Seq<char> {
    if path == "/"@ {
        Seq::empty()
    } else {
        path
    }
}

/// The port at which a wildcard listener is announced: the one it leads to.
pub open spec fn announced_port(url: UrlView) -> u16 {
    match effective_port(url) {
        Some(p) => p,
        None => FALLBACK_PORT,
    }
}

/// The listener with `host` in place of its own host.
pub open spec fn at_host(url: UrlView, host: Seq<char>) -> Seq<char> {
    url.scheme + "://"@ + host + ":"@ + decimal(announced_port(url) as nat) + announced_path(
        url.path,
    )
}

/// An IPv6 address as it stands in a URL.
pub open spec fn bracketed(ip: Seq<char>) -> Seq<char> {
    "["@ + ip + "]"@
}

/// The addresses under which one listener is announced.
pub open spec fn connectable_one(url: UrlView, v4s: Seq<Seq<char>>, v6s: Seq<Seq<char>>) -> Seq<
    Seq<char>,
> {
    match binding(url) {
        Binding::Specific => seq![url.text],
        Binding::AnyIpv4 => v4s.map_values(|ip: Seq<char>| at_host(url, ip)),
        Binding::AnyIpv6 => v6s.map_values(|ip: Seq<char>| at_host(url, bracketed(ip))),
    }
}

/// The addresses under which the listeners are announced, in order.
pub open spec fn connectable(
    urls: Seq<UrlView>,
    v4s: Seq<Seq<char>>,
    v6s: Seq<Seq<char>>,
) -> Seq<Seq<char>>
    decreases urls.len(),
{
    if urls.len() == 0 {
        Seq::empty()
    } else {
        connectable(urls.drop_last(), v4s, v6s) + connectable_one(urls.last(), v4s, v6s)
    }
}

/// Law: announcing listeners together is announcing them in turn, and where there
/// are none nothing is announced.
pub proof fn law_connectable_concat(
    a: Seq<UrlView>,
    b: Seq<UrlView>,
    v4s: Seq<Seq<char>>,
    v6s: Seq<Seq<char>>,
)
    ensures
        connectable(a + b, v4s, v6s) == connectable(a, v4s, v6s) + connectable(b, v4s, v6s),
        connectable(Seq::empty(), v4s, v6s) == Seq::<Seq<char>>::empty(),
    decreases b.len(),
{
    if b.len() == 0 {
        assert(a + b =~= a);
        assert(connectable(a, v4s, v6s) + connectable(b, v4s, v6s) =~= connectable(a, v4s, v6s));
    } else {
        assert((a + b).drop_last() =~= a + b.drop_last());
        law_connectable_concat(a, b.drop_last(), v4s, v6s);
        assert(connectable(a + b, v4s, v6s) =~= connectable(a, v4s, v6s) + connectable(
            b,
            v4s,
            v6s,
        ));
    }
}

/// Law: what is announced comes from some listener: its own text where it is
/// bound to a specific address, and otherwise the listener at an address of an
/// interface of its kind.
pub proof fn law_connectable_origin(
    urls: Seq<UrlView>,
    v4s: Seq<Seq<char>>,
    v6s: Seq<Seq<char>>,
    k: int,
)
    requires
        0 <= k < connectable(urls, v4s, v6s).len(),
    ensures
        exists|i: int|
            0 <= i < urls.len() && announced_for(
                #[trigger] urls[i],
                v4s,
                v6s,
                connectable(urls, v4s, v6s)[k],
            ),
    decreases urls.len(),
{
    let head = connectable(urls.drop_last(), v4s, v6s);
    let n = urls.len() - 1;
    let t = connectable(urls, v4s, v6s)[k];
    if k < head.len() {
        law_connectable_origin(urls.drop_last(), v4s, v6s, k);
        let i = choose|i: int|
            0 <= i < n && announced_for(#[trigger] urls.drop_last()[i], v4s, v6s, head[k]);
        assert(urls[i] == urls.drop_last()[i]);
        assert(announced_for(urls[i], v4s, v6s, t));
    } else {
        let one = connectable_one(urls[n], v4s, v6s);
        let j = k - head.len();
        assert(t == one[j]);
        match binding(urls[n]) {
            Binding::Specific => {},
            Binding::AnyIpv4 => {
                assert(one[j] == at_host(urls[n], v4s[j]));
            },
            Binding::AnyIpv6 => {
                assert(one[j] == at_host(urls[n], bracketed(v6s[j])));
            },
        }
        assert(announced_for(urls[n], v4s, v6s, t));
    }
}

/// Whether `t` is an address under which `url` is to be announced.
pub open spec fn announced_for(
    url: UrlView,
    v4s: Seq<Seq<char>>,
    v6s: Seq<Seq<char>>,
    t: Seq<char>,
) -> bool {
    match binding(url) {
        Binding::Specific => t == url.text,
        Binding::AnyIpv4 => exists|j: int|
            0 <= j < v4s.len() && t == at_host(url, #[trigger] v4s[j]),
        Binding::AnyIpv6 => exists|j: int|
            0 <= j < v6s.len() && t == at_host(url, bracketed(#[trigger] v6s[j])),
    }
}

/// Law: two announcements of one listener differ where their hosts do.
pub proof fn law_at_host_injective(url: UrlView, a: Seq<char>, b: Seq<char>)
    requires
        at_host(url, a) == at_host(url, b),
    ensures
        a == b,
{
    let head = url.scheme + "://"@;
    let tail = ":"@ + decimal(announced_port(url) as nat) + announced_path(url.path);
    assert(at_host(url, a) =~= head + a + tail);
    assert(at_host(url, b) =~= head + b + tail);
    let n = head.len();
    assert(a =~= (head + a + tail).subrange(n as int, (n + a.len()) as int));
    assert(b =~= (head + b + tail).subrange(n as int, (n + b.len()) as int));
}

/// Law: a wildcard listener is not announced at the wildcard address, unless an
/// interface is said to have that address.
pub proof fn law_wildcard_not_announced(url: UrlView, v4s: Seq<Seq<char>>, v6s: Seq<Seq<char>>)
    requires
        !v4s.contains("0.0.0.0"@),
        !v6s.contains("::"@),
    ensures
        binding(url) == Binding::AnyIpv4 ==> !connectable_one(url, v4s, v6s).contains(
            at_host(url, "0.0.0.0"@),
        ),
        binding(url) == Binding::AnyIpv6 ==> !connectable_one(url, v4s, v6s).contains(
            at_host(url, "[::]"@),
        ),
{
    let one = connectable_one(url, v4s, v6s);
    if binding(url) == Binding::AnyIpv4 && one.contains(at_host(url, "0.0.0.0"@)) {
        let j = choose|j: int| 0 <= j < one.len() && one[j] == at_host(url, "0.0.0.0"@);
        law_at_host_injective(url, v4s[j], "0.0.0.0"@);
        assert(v4s.contains("0.0.0.0"@));
    }
    if binding(url) == Binding::AnyIpv6 && one.contains(at_host(url, "[::]"@)) {
        let j = choose|j: int| 0 <= j < one.len() && one[j] == at_host(url, "[::]"@);
        law_at_host_injective(url, bracketed(v6s[j]), "[::]"@);
        reveal_strlit("[");
        reveal_strlit("]");
        reveal_strlit("::");
        reveal_strlit("[::]");
        let ip = v6s[j];
        assert(bracketed(ip).len() == ip.len() + 2);
        assert(ip =~= bracketed(ip).subrange(1, 3));
        assert("::"@ =~= "[::]"@.subrange(1, 3));
        assert(v6s.contains("::"@));
    }
}

/// Law: every address under which a listener is to be announced is announced.
/// In particular a listener on a specific address, and a `ring` listener, is
/// announced unchanged.
pub proof fn law_connectable_complete(
    urls: Seq<UrlView>,
    v4s: Seq<Seq<char>>,
    v6s: Seq<Seq<char>>,
    i: int,
    t: Seq<char>,
)
    requires
        0 <= i < urls.len(),
        announced_for(urls[i], v4s, v6s, t),
    ensures
        connectable(urls, v4s, v6s).contains(t),
    decreases urls.len(),
{
    let head = connectable(urls.drop_last(), v4s, v6s);
    let one = connectable_one(urls.last(), v4s, v6s);
    let all = connectable(urls, v4s, v6s);
    if i < urls.len() - 1 {
        law_connectable_complete(urls.drop_last(), v4s, v6s, i, t);
        let k = choose|k: int| 0 <= k < head.len() && head[k] == t;
        assert(all[k] == t);
    } else {
        let j: int = match binding(urls[i]) {
            Binding::Specific => 0,
            Binding::AnyIpv4 => choose|j: int|
                0 <= j < v4s.len() && t == at_host(urls[i], #[trigger] v4s[j]),
            Binding::AnyIpv6 => choose|j: int|
                0 <= j < v6s.len() && t == at_host(urls[i], bracketed(#[trigger] v6s[j])),
        };
        assert(one[j] == t);
        assert(all[head.len() + j] == t);
    }
}

/// Law: no listener goes unannounced on a node that has an interface for each of
/// its wildcard listeners: there are at least as many addresses as listeners.
pub proof fn law_connectable_not_fewer(
    urls: Seq<UrlView>,
    v4s: Seq<Seq<char>>,
    v6s: Seq<Seq<char>>,
)
    requires
        forall|i: int|
            0 <= i < urls.len() && binding(#[trigger] urls[i]) == Binding::AnyIpv4 ==> v4s.len()
                > 0,
        forall|i: int|
            0 <= i < urls.len() && binding(#[trigger] urls[i]) == Binding::AnyIpv6 ==> v6s.len()
                > 0,
    ensures
        connectable(urls, v4s, v6s).len() >= urls.len(),
    decreases urls.len(),
{
    if urls.len() > 0 {
        let head = urls.drop_last();
        assert forall|i: int| 0 <= i < head.len() implies #[trigger] head[i] == urls[i] by {}
        law_connectable_not_fewer(head, v4s, v6s);
        assert(urls.last() == urls[urls.len() - 1]);
    }
}

/// What a listener is bound to.
pub fn binding_of(url: &ListenerUrl) -> (r: Binding)
    ensures
        r == binding(url@),
{
    if url.has_scheme("ring") {
        return Binding::Specific;
    }
    match &url.host_str {
        Some(host) => {
            if text_is(host, "0.0.0.0") {
                Binding::AnyIpv4
            } else if text_is(host, "::") || text_is(host, "[::]") {
                Binding::AnyIpv6
            } else {
                Binding::Specific
            }
        },
        None => Binding::Specific,
    }
}

/// The listener with `host` in place of its own host.
pub fn url_at_host(url: &ListenerUrl, host: &str) -> (r: String)
    ensures
        r@ == at_host(url@, host@),
{
    let port: u16 = match url.effective_port() {
        Some(p) => p,
        None => FALLBACK_PORT,
    };
    let number = decimal_text(port as u32);
    let mut r: String = url.scheme.clone();
    r.append("://");
    r.append(host);
    r.append(":");
    r.append(number.as_str());
    if !text_is(&url.path, "/") {
        r.append(url.path.as_str());
    }
    assert(r@ =~= at_host(url@, host@));
    r
}

fn push_connectable(
    out: &mut Vec<String>,
    url: &ListenerUrl,
    v4s: &Vec<String>,
    v6s: &Vec<String>,
)
    ensures
        texts(final(out)@) == texts(old(out)@) + connectable_one(url@, texts(v4s@), texts(v6s@)),
{
    let ghost before = texts(out@);
    let ghost one = connectable_one(url@, texts(v4s@), texts(v6s@));
    match binding_of(url) {
        Binding::Specific => {
            out.push(url.text.clone());
            assert(texts(out@) =~= before + one);
        },
        Binding::AnyIpv4 => {
            let mut j: usize = 0;
            while j < v4s.len()
                invariant
                    j <= v4s.len(),
                    binding(url@) == Binding::AnyIpv4,
                    one == connectable_one(url@, texts(v4s@), texts(v6s@)),
                    texts(out@) == before + one.take(j as int),
                decreases v4s.len() - j,
            {
                let t = url_at_host(url, v4s[j].as_str());
                assert(t@ == one[j as int]);
                let ghost value = t@;
                let ghost so_far = texts(out@);
                out.push(t);
                proof {
                    assert(texts(out@) =~= so_far.push(value));
                    assert(one.take(j + 1) =~= one.take(j as int).push(one[j as int]));
                    assert(texts(out@) =~= before + one.take(j + 1));
                }
                j = j + 1;
            }
            assert(one.take(one.len() as int) =~= one);
        },
        Binding::AnyIpv6 => {
            let mut j: usize = 0;
            while j < v6s.len()
                invariant
                    j <= v6s.len(),
                    binding(url@) == Binding::AnyIpv6,
                    one == connectable_one(url@, texts(v4s@), texts(v6s@)),
                    texts(out@) == before + one.take(j as int),
                decreases v6s.len() - j,
            {
                let mut host: String = "[".to_owned();
                host.append(v6s[j].as_str());
                host.append("]");
                let t = url_at_host(url, host.as_str());
                assert(t@ == one[j as int]);
                let ghost value = t@;
                let ghost so_far = texts(out@);
                out.push(t);
                proof {
                    assert(texts(out@) =~= so_far.push(value));
                    assert(one.take(j + 1) =~= one.take(j as int).push(one[j as int]));
                    assert(texts(out@) =~= before + one.take(j + 1));
                }
                j = j + 1;
            }
            assert(one.take(one.len() as int) =~= one);
        },
    }
}

/// The addresses under which the listeners are announced, given the addresses
/// of the node's interfaces.
pub fn connectable_listeners(
    urls: &Vec<ListenerUrl>,
    v4s: &Vec<String>,
    v6s: &Vec<String>,
) -> (r: Vec<String>)
    ensures
        texts(r@) == connectable(url_views(urls@), texts(v4s@), texts(v6s@)),
{
    let mut r: Vec<String> = Vec::new();
    let ghost views = url_views(urls@);
    let mut i: usize = 0;
    assert(texts(r@) =~= connectable(views.take(0), texts(v4s@), texts(v6s@)));
    while i < urls.len()
        invariant
            i <= urls.len(),
            views == url_views(urls@),
            texts(r@) == connectable(views.take(i as int), texts(v4s@), texts(v6s@)),
        decreases urls.len() - i,
    {
        push_connectable(&mut r, &urls[i], v4s, v6s);
        proof {
            assert(views.take(i + 1).drop_last() =~= views.take(i as int));
            assert(views.take(i + 1).last() == urls@[i as int]@);
        }
        i = i + 1;
    }
    assert(views.take(views.len() as int) =~= views);
    r
}

/// Law: a listener on 0.0.0.0, under any scheme but `ring`, is announced once for
/// each IPv4 address of the interfaces and in their order: its scheme, that
/// address, the port it leads to, or 80 where it leads to none, and its path
/// unless that is the root.
pub proof fn law_ipv4_wildcard_expanded(
    url: UrlView,
    v4s: Seq<Seq<char>>,
    v6s: Seq<Seq<char>>,
    j: int,
    port: u16,
    path: Seq<char>,
)
    requires
        url.scheme != "ring"@,
        url.host_str == Some("0.0.0.0"@),
        0 <= j < v4s.len(),
        effective_port(url) == Some(port) || (effective_port(url) is None && port == 80),
        url.path == "/"@ ==> path.len() == 0,
        url.path != "/"@ ==> path == url.path,
    ensures
        connectable(seq![url], v4s, v6s).len() == v4s.len(),
        connectable(seq![url], v4s, v6s)[j] == url.scheme + "://"@ + v4s[j] + ":"@ + decimal(
            port as nat,
        ) + path,
{
    lemma_connectable_single(url, v4s, v6s);
    assert(path =~= announced_path(url.path));
}

/// Law: a listener on the IPv6 wildcard, under any scheme but `ring`, is announced
/// once for each IPv6 address of the interfaces and in their order: its scheme,
/// that address in brackets, the port it leads to, or 80 where it leads to none,
/// and its path unless that is the root.
pub proof fn law_ipv6_wildcard_expanded(
    url: UrlView,
    v4s: Seq<Seq<char>>,
    v6s: Seq<Seq<char>>,
    j: int,
    port: u16,
    path: Seq<char>,
)
    requires
        url.scheme != "ring"@,
        url.host_str == Some("[::]"@) || url.host_str == Some("::"@),
        0 <= j < v6s.len(),
        effective_port(url) == Some(port) || (effective_port(url) is None && port == 80),
        url.path == "/"@ ==> path.len() == 0,
        url.path != "/"@ ==> path == url.path,
    ensures
        connectable(seq![url], v4s, v6s).len() == v6s.len(),
        connectable(seq![url], v4s, v6s)[j] == url.scheme + "://"@ + ("["@ + v6s[j] + "]"@) + ":"@
            + decimal(port as nat) + path,
{
    lemma_connectable_single(url, v4s, v6s);
    lemma_wildcards_differ();
    assert(path =~= announced_path(url.path));
}

/// Law: a `ring` listener, and one that is on no wildcard address or on none at
/// all, is announced as it stands, once, whatever the interfaces. A wildcard
/// listener without an interface of its kind is not announced.
pub proof fn law_announced_as_it_stands(url: UrlView, v4s: Seq<Seq<char>>, v6s: Seq<Seq<char>>)
    ensures
        url.scheme == "ring"@ || (url.host_str != Some("0.0.0.0"@) && url.host_str != Some("[::]"@)
            && url.host_str != Some("::"@)) ==> connectable(seq![url], v4s, v6s) == seq![url.text],
        url.scheme != "ring"@ && url.host_str == Some("0.0.0.0"@) && v4s.len() == 0 ==> connectable(
            seq![url],
            v4s,
            v6s,
        ).len() == 0,
        url.scheme != "ring"@ && (url.host_str == Some("[::]"@) || url.host_str == Some("::"@))
            && v6s.len() == 0 ==> connectable(seq![url], v4s, v6s).len() == 0,
{
    lemma_connectable_single(url, v4s, v6s);
    lemma_wildcards_differ();
}

proof fn lemma_connectable_single(url: UrlView, v4s: Seq<Seq<char>>, v6s: Seq<Seq<char>>)
    ensures
        connectable(seq![url], v4s, v6s) == connectable_one(url, v4s, v6s),
{
    reveal_with_fuel(connectable, 2);
    assert(seq![url].drop_last() =~= Seq::<UrlView>::empty());
    assert(connectable(seq![url], v4s, v6s) =~= connectable_one(url, v4s, v6s));
}

proof fn lemma_wildcards_differ()
    ensures
        "0.0.0.0"@ != "::"@,
        "0.0.0.0"@ != "[::]"@,
{
    reveal_strlit("0.0.0.0");
    reveal_strlit("::");
    reveal_strlit("[::]");
    assert("0.0.0.0"@.len() == 7 && "::"@.len() == 2 && "[::]"@.len() == 4);
}

} // verus!
