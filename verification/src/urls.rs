//! URL extraction and allowlist matching: finding links in a message,
//! normalizing them, and checking their site against an allowlist.

use vstd::prelude::*;
use vstd::string::StrSliceExecFns;

use crate::text::str_eq;

verus! {

/// What the URL finder yields on a text: the URL spans it finds, in order.
pub uninterp spec fn spec_url_spans(text: Seq<char>) -> Seq<Seq<char>>;

/// Relies on `linkify::LinkFinder::links`, configured for the URL kind:
/// finds the URL spans of a text, in order.
#[verifier::external_body]
fn find_url_spans(text: &str) -> (r: Vec<String>)
    ensures
        r.deep_view() == spec_url_spans(text@),
{
    let mut finder = linkify::LinkFinder::new();
    finder.kinds(&[linkify::LinkKind::Url]);
    finder.links(text).map(|l| l.as_str().to_owned()).collect()
}

/// What parsing a span yields: the normalized serialization and the host,
/// when the span parses as a URL; nothing otherwise.
pub uninterp spec fn spec_parsed_url(span: Seq<char>) -> Option<(Seq<char>, Option<Seq<char>>)>;

/// Relies on `url::Url::parse`: parses a span into a URL, here read back as
/// its normalized text (`Url::as_str`) and its host (`Url::host_str`); a
/// URL without a host component, such as a mailto URL, yields no host.
#[verifier::external_body]
fn parse_url(span: &str) -> (r: Option<(String, Option<String>)>)
    ensures
        r.deep_view() == spec_parsed_url(span@),
{
    match url::Url::parse(span) {
        Ok(u) => Some((u.as_str().to_owned(), u.host_str().map(|h| h.to_owned()))),
        Err(_) => None,
    }
}

/// The spans that parse as URLs, each as its normalized text and host.
pub open spec fn spec_parsed_list(spans: Seq<Seq<char>>) -> Seq<(Seq<char>, Option<Seq<char>>)>
    decreases spans.len(),
{
    if spans.len() == 0 {
        Seq::<(Seq<char>, Option<Seq<char>>)>::empty()
    } else {
        spec_parsed_list(spans.drop_last()) + (match spec_parsed_url(spans.last()) {
            Some(p) => seq![p],
            None => Seq::<(Seq<char>, Option<Seq<char>>)>::empty(),
        })
    }
}

/// Parse every found span, keeping the ones that parse, in order.
fn parse_all(spans: &Vec<String>) -> (r: Vec<(String, Option<String>)>)
    ensures
        r.deep_view() == spec_parsed_list(spans.deep_view()),
{
    let mut r: Vec<(String, Option<String>)> = Vec::new();
    let n = spans.len();
    let mut i: usize = 0;
    while i < n
        invariant
            0 <= i <= n,
            n == spans@.len(),
            r.deep_view() == spec_parsed_list(spans.deep_view().take(i as int)),
        decreases n - i,
    {
        proof {
            assert(spans.deep_view().take(i + 1).drop_last() =~= spans.deep_view().take(i as int));
            assert(spans.deep_view().take(i + 1).last() == spans.deep_view()[i as int]);
        }
        match parse_url(spans[i].as_str()) {
            Some(p) => {
                r.push(p);
            },
            None => {
            },
        }
        i = i + 1;
    }
    proof {
        assert(spans.deep_view().take(n as int) =~= spans.deep_view());
    }
    r
}

/// Where the suffix holding the last two dot-separated labels of a host
/// begins: scanning down from `i` with `dots` separators already seen.
pub open spec fn spec_scan_netloc(h: Seq<char>, i: int, dots: int) -> int
    decreases i,
{
    if i <= 0 {
        0
    } else if h[i - 1] == '.' {
        if dots >= 1 {
            i
        } else {
            spec_scan_netloc(h, i - 1, dots + 1)
        }
    } else {
        spec_scan_netloc(h, i - 1, dots)
    }
}

/// The site of a host: its last two dot-separated labels, or the whole
/// host when it has fewer.
pub open spec fn spec_netloc(h: Seq<char>) -> Seq<char> {
    h.subrange(spec_scan_netloc(h, h.len() as int, 0), h.len() as int)
}

/// The scan never leaves the host's bounds.
proof fn lemma_scan_netloc_bounds(h: Seq<char>, i: int, dots: int)
    requires
        0 <= i <= h.len(),
    ensures
        0 <= spec_scan_netloc(h, i, dots) <= i,
    decreases i,
{
    if i > 0 && !(h[i - 1] == '.' && dots >= 1) {
        if h[i - 1] == '.' {
            lemma_scan_netloc_bounds(h, i - 1, dots + 1);
        } else {
            lemma_scan_netloc_bounds(h, i - 1, dots);
        }
    }
}

/// Reduce a host to its site, the last two of its dot-separated labels:
/// `www.youtube.com` becomes `youtube.com`.
pub fn netloc_of(host: &str) -> (r: String)
    ensures
        r@ == spec_netloc(host@),
{
    let n = host.unicode_len();
    let mut i: usize = n;
    let mut dots: usize = 0;
    let mut start: usize = 0;
    let mut found = false;
    proof {
        lemma_scan_netloc_bounds(host@, n as int, 0);
    }
    while i > 0 && !found
        invariant
            0 <= i <= n,
            n == host@.len(),
            dots <= 1,
            !found ==> spec_scan_netloc(host@, n as int, 0) == spec_scan_netloc(
                host@,
                i as int,
                dots as int,
            ),
            found ==> spec_scan_netloc(host@, n as int, 0) == start,
            !found ==> start == 0,
            start <= n,
        decreases i + (if found { 0int } else { 1int }),
    {
        let c = host.get_char(i - 1);
        if c == '.' {
            if dots >= 1 {
                start = i;
                found = true;
            } else {
                dots = dots + 1;
                i = i - 1;
            }
        } else {
            i = i - 1;
        }
    }
    let tail = host.substring_char(start, n);
    tail.to_owned()
}

/// Whether the list holds this exact string.
pub fn contains_string(list: &Vec<String>, x: &str) -> (r: bool)
    ensures
        r == list.deep_view().contains(x@),
{
    let n = list.len();
    let mut i: usize = 0;
    while i < n
        invariant
            0 <= i <= n,
            n == list@.len(),
            forall|j: int| 0 <= j < i ==> list.deep_view()[j] != x@,
        decreases n - i,
    {
        if str_eq(list[i].as_str(), x) {
            proof {
                assert(list.deep_view()[i as int] == x@);
            }
            return true;
        }
        i = i + 1;
    }
    proof {
        assert(forall|j: int| 0 <= j < list.deep_view().len() ==> list.deep_view()[j] != x@);
    }
    false
}

/// Whether a text holds exactly one URL, and that URL has a host.
pub open spec fn spec_single_url(text: Seq<char>) -> bool {
    let parsed = spec_parsed_list(spec_url_spans(text));
    parsed.len() == 1 && parsed[0].1 is Some
}

/// The normalized text of a text's single URL.
pub open spec fn spec_the_url(text: Seq<char>) -> Seq<char> {
    spec_parsed_list(spec_url_spans(text))[0].0
}

/// The host of a text's single URL.
pub open spec fn spec_the_host(text: Seq<char>) -> Seq<char> {
    spec_parsed_list(spec_url_spans(text))[0].1->0
}

/// Whether the single URL's site is on the allowlist.
pub open spec fn spec_supported(text: Seq<char>, allowlist: Seq<Seq<char>>) -> bool {
    allowlist.contains(spec_netloc(spec_the_host(text)))
}

/// Whether a text yields no usable URL: none at all, or a single URL
/// without a host.
pub open spec fn spec_no_urls(text: Seq<char>) -> bool {
    let parsed = spec_parsed_list(spec_url_spans(text));
    parsed.len() == 0 || (parsed.len() == 1 && parsed[0].1 is None)
}

/// Whether a text yields more than one URL.
pub open spec fn spec_multiple_urls(text: Seq<char>) -> bool {
    spec_parsed_list(spec_url_spans(text)).len() > 1
}

/// What a message holds by way of URLs: none, exactly one — with whether
/// its site is allowlisted — or several.
pub enum URLsFound {
    /// No URL was found, or the single URL has no host.
    NoUrls,
    /// Exactly one URL was found.
    One {
        /// The URL, in normalized form.
        url: String,
        /// Whether the URL's site is on the allowlist.
        supported: bool,
    },
    /// More than one URL was found; unsupported.
    Multiple,
}

/// Parse a message and report the URLs found inside it: nothing unless the
/// finder and the parser agree on exactly one URL with a host; for that one,
/// its normalized text and whether its site is on the allowlist.
pub fn get_url_info(msg: &str, allowlist: &Vec<String>) -> (r: URLsFound)
    ensures
        spec_no_urls(msg@) ==> r is NoUrls,
        spec_multiple_urls(msg@) ==> r is Multiple,
        spec_single_url(msg@) ==> {
            &&& r matches URLsFound::One { url, supported }
            &&& url@ == spec_the_url(msg@)
            &&& supported == spec_supported(msg@, allowlist.deep_view())
        },
{
    let spans = find_url_spans(msg);
    let mut parsed = parse_all(&spans);
    if parsed.len() == 0 {
        return URLsFound::NoUrls;
    }
    if parsed.len() > 1 {
        return URLsFound::Multiple;
    }
    let (url, maybe_host) = parsed.remove(0);
    match maybe_host {
        Some(host) => {
            let netloc = netloc_of(host.as_str());
            let supported = contains_string(allowlist, netloc.as_str());
            URLsFound::One { url, supported }
        },
        None => URLsFound::NoUrls,
    }
}

/// Find the single link of a message, as it was written: the message must
/// hold exactly one URL span, the span must parse to a URL with a host, and
/// the host's site must be on the allowlist; the span itself is returned,
/// not its normalized form.
pub fn find_link(msg: &str, allowlist: &Vec<String>) -> (r: Option<String>)
    ensures
        ({
            let spans = spec_url_spans(msg@);
            &&& (spans.len() != 1 ==> r is None)
            &&& (spans.len() == 1 ==> (match spec_parsed_url(spans[0]) {
                Some(p) => (match p.1 {
                    Some(h) => {
                        &&& (allowlist.deep_view().contains(spec_netloc(h)) <==> r is Some)
                        &&& (r matches Some(u) ==> u@ == spans[0])
                    },
                    None => r is None,
                }),
                None => r is None,
            }))
        }),
{
    let mut spans = find_url_spans(msg);
    if spans.len() != 1 {
        return None;
    }
    let span = spans.remove(0);
    match parse_url(span.as_str()) {
        Some((_url, maybe_host)) => match maybe_host {
            Some(host) => {
                let netloc = netloc_of(host.as_str());
                if contains_string(allowlist, netloc.as_str()) {
                    Some(span)
                } else {
                    None
                }
            },
            None => None,
        },
        None => None,
    }
}

/// Search for URLs in a message, optionally falling back to the message it
/// replies to: the message's own single URL when it has one, else the
/// reply's single URL when that has one, else whatever the message itself
/// yielded.
pub fn extract_urls(msg_text: &str, reply_text: Option<&String>, allowlist: &Vec<String>) -> (r:
    URLsFound)
    ensures
        spec_single_url(msg_text@) ==> {
            &&& r matches URLsFound::One { url, supported }
            &&& url@ == spec_the_url(msg_text@)
            &&& supported == spec_supported(msg_text@, allowlist.deep_view())
        },
        !spec_single_url(msg_text@) && (match reply_text {
            Some(t) => spec_single_url(t@),
            None => false,
        }) ==> {
            let t = reply_text->0;
            &&& r matches URLsFound::One { url, supported }
            &&& url@ == spec_the_url(t@)
            &&& supported == spec_supported(t@, allowlist.deep_view())
        },
        !spec_single_url(msg_text@) && !(match reply_text {
            Some(t) => spec_single_url(t@),
            None => false,
        }) ==> {
            &&& (spec_no_urls(msg_text@) ==> r is NoUrls)
            &&& (spec_multiple_urls(msg_text@) ==> r is Multiple)
        },
{
    let first = get_url_info(msg_text, allowlist);
    if matches!(first, URLsFound::One { .. }) {
        return first;
    }
    match reply_text {
        Some(text) => {
            let second = get_url_info(text.as_str(), allowlist);
            if matches!(second, URLsFound::One { .. }) {
                second
            } else {
                first
            }
        },
        None => first,
    }
}

} // verus!
