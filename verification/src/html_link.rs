use vstd::prelude::*;
use crate::arena::Arena;
use crate::ast::{AstKind, JsxAttribute, NodeId};
use crate::config::ConfigValue;
use crate::diagnostics::DiagnosticSink;
use crate::text::string_is;
use crate::span::Span;

verus! {

/// Index of the first occurrence of `c` in `s`, or a negative value when
/// `s` does not contain `c`.
pub open spec fn spec_find_char(s: Seq<char>, c: char) -> int
    decreases s.len(),
{
    if s.len() == 0 {
        -1
    } else if s[0] == c {
        0
    } else {
        let r = spec_find_char(s.drop_first(), c);
        if r < 0 {
            -1
        } else {
            r + 1
        }
    }
}

proof fn lemma_find_char_props(s: Seq<char>, c: char)
    ensures
        spec_find_char(s, c) == -1 || 0 <= spec_find_char(s, c) < s.len(),
        spec_find_char(s, c) == -1 ==> forall|k: int| 0 <= k < s.len() ==> s[k] != c,
        spec_find_char(s, c) >= 0 ==> s[spec_find_char(s, c)] == c && (forall|k: int|
            0 <= k < spec_find_char(s, c) ==> s[k] != c),
    decreases s.len(),
{
    if s.len() == 0 {
    } else if s[0] == c {
    } else {
        lemma_find_char_props(s.drop_first(), c);
        let r = spec_find_char(s.drop_first(), c);
        if r == -1 {
            assert forall|k: int| 0 <= k < s.len() implies s[k] != c by {
                if k > 0 {
                    assert(s.drop_first()[k - 1] == s[k]);
                }
            }
        } else {
            assert(s[r + 1] == s.drop_first()[r]);
            assert forall|k: int| 0 <= k < r + 1 implies s[k] != c by {
                if k > 0 {
                    assert(s.drop_first()[k - 1] == s[k]);
                }
            }
        }
    }
}

/// See [`spec_find_char`].
pub fn find_char(s: &str, c: char) -> (r: Option<usize>)
    ensures
        match r {
            None => spec_find_char(s@, c) == -1,
            Some(i) => spec_find_char(s@, c) == i,
        },
{
    let n = s.unicode_len();
    let mut i: usize = 0;
    while i < n
        invariant
            n == s@.len(),
            0 <= i <= n,
            forall|k: int| 0 <= k < i ==> s@[k] != c,
        decreases n - i,
    {
        if s.get_char(i) == c {
            proof {
                lemma_find_char_props(s@, c);
            }
            return Some(i);
        }
        i += 1;
    }
    proof {
        lemma_find_char_props(s@, c);
    }
    None
}

/// `s` shortened at the first occurrence of `c`, or `s` itself when `c`
/// does not occur.
pub open spec fn spec_cut_at(s: Seq<char>, c: char) -> Seq<char> {
    if spec_find_char(s, c) < 0 {
        s
    } else {
        s.take(spec_find_char(s, c))
    }
}

fn cut_at(s: String, c: char) -> (r: String)
    ensures
        r@ == spec_cut_at(s@, c),
{
    match find_char(s.as_str(), c) {
        None => s,
        Some(i) => {
            proof {
                lemma_find_char_props(s@, c);
                assert(s@.subrange(0, i as int) =~= s@.take(i as int));
            }
            s.as_str().substring_char(0, i).to_owned()
        },
    }
}

/// Whether the characters of `pat` occur in `s` starting at position `i`.
fn pattern_at(s: &str, i: usize, pat: &str) -> (r: bool)
    requires
        i + pat@.len() <= s@.len(),
    ensures
        r == (s@.subrange(i as int, i + pat@.len()) == pat@),
{
    let n = s.unicode_len();
    let m = pat.unicode_len();
    let mut k: usize = 0;
    while k < m
        invariant
            n == s@.len(),
            m == pat@.len(),
            i + m <= n,
            0 <= k <= m,
            forall|q: int| 0 <= q < k ==> s@[i + q] == pat@[q],
        decreases m - k,
    {
        if s.get_char(i + k) != pat.get_char(k) {
            proof {
                assert(s@.subrange(i as int, i + pat@.len())[k as int] == s@[i + k]);
            }
            return false;
        }
        k += 1;
    }
    proof {
        assert(s@.subrange(i as int, i + pat@.len()) =~= pat@);
    }
    true
}

/// `s` with every non-overlapping occurrence of `pat`, found left to
/// right, replaced by `rep`.
pub open spec fn spec_replace(s: Seq<char>, pat: Seq<char>, rep: Seq<char>) -> Seq<char>
    decreases s.len()
        when pat.len() > 0
{
    if s.len() < pat.len() {
        s
    } else if s.take(pat.len() as int) == pat {
        rep.add(spec_replace(s.skip(pat.len() as int), pat, rep))
    } else {
        seq![s[0]].add(spec_replace(s.drop_first(), pat, rep))
    }
}

fn replace_all(s: &str, pat: &str, rep: &str) -> (r: String)
    requires
        pat@.len() > 0,
    ensures
        r@ == spec_replace(s@, pat@, rep@),
{
    let n = s.unicode_len();
    let m = pat.unicode_len();
    let mut out = String::new();
    if m > n {
        proof {
            assert(s@.subrange(0, n as int) =~= s@);
        }
        return s.substring_char(0, n).to_owned();
    }
    let mut i: usize = 0;
    proof {
        assert(s@.skip(0) =~= s@);
    }
    while i <= n - m
        invariant
            n == s@.len(),
            m == pat@.len(),
            0 < m <= n,
            0 <= i <= n,
            out@ + spec_replace(s@.skip(i as int), pat@, rep@) == spec_replace(s@, pat@, rep@),
        decreases n - i,
    {
        let ghost pre = out@;
        if pattern_at(s, i, pat) {
            out.append(rep);
            proof {
                assert(s@.skip(i as int).take(m as int) =~= s@.subrange(i as int, i + m));
                assert(s@.skip(i as int).skip(m as int) =~= s@.skip(i + m));
                assert(pre + rep@ + spec_replace(s@.skip(i + m), pat@, rep@) =~= pre
                    + spec_replace(s@.skip(i as int), pat@, rep@));
            }
            i += m;
        } else {
            out.append(s.substring_char(i, i + 1));
            proof {
                assert(s@.skip(i as int).take(m as int) =~= s@.subrange(i as int, i + m));
                assert(s@.skip(i as int).drop_first() =~= s@.skip(i as int + 1));
                assert(s@.skip(i as int).take(1)[0] == s@[i as int]);
                assert(s@.subrange(i as int, i as int + 1) =~= seq![s@[i as int]]);
                assert(pre + s@.subrange(i as int, i as int + 1) + spec_replace(
                    s@.skip(i as int + 1),
                    pat@,
                    rep@,
                ) =~= pre + spec_replace(s@.skip(i as int), pat@, rep@));
            }
            i += 1;
        }
    }
    proof {
        assert(s@.skip(i as int).len() < m);
        assert(s@.subrange(i as int, n as int) =~= s@.skip(i as int));
    }
    out.append(s.substring_char(i, n));
    out
}

/// The normalized form of an href: query and fragment removed, every
/// `/index.html` collapsed to `/`, a trailing slash guaranteed on any
/// non-empty remainder — or nothing for an empty href.
pub open spec fn spec_normalize_url(s: Seq<char>) -> Option<Seq<char>> {
    if s.len() == 0 {
        None
    } else {
        let b = spec_cut_at(spec_cut_at(s, '?'), '#');
        let c = spec_replace(b, "/index.html"@, "/"@);
        if c.len() == 0 {
            Some(c)
        } else if c.last() == '/' {
            Some(c)
        } else {
            Some(c.push('/'))
        }
    }
}

/// See [`spec_normalize_url`].
pub fn normalize_url(url: String) -> (r: Option<String>)
    ensures
        match r {
            None => spec_normalize_url(url@) is None,
            Some(v) => spec_normalize_url(url@) == Some(v@),
        },
{
    if url.as_str().unicode_len() == 0 {
        return None;
    }
    proof {
        reveal_strlit("/index.html");
    }
    let u1 = cut_at(url, '?');
    let u2 = cut_at(u1, '#');
    let u3 = replace_all(u2.as_str(), "/index.html", "/");
    let n3 = u3.as_str().unicode_len();
    if n3 == 0 {
        return Some(u3);
    }
    let last = u3.as_str().get_char(n3 - 1);
    if last == '/' {
        Some(u3)
    } else {
        let ghost c = u3@;
        let mut u4 = u3;
        u4.append("/");
        proof {
            reveal_strlit("/");
            assert("/"@ =~= seq!['/']);
            assert(u4@ =~= c.push('/'));
        }
        Some(u4)
    }
}


/// Whether `p` is a prefix of `s`.
pub open spec fn spec_starts_with(s: Seq<char>, p: Seq<char>) -> bool {
    p.len() <= s.len() && s.subrange(0, p.len() as int) == p
}

fn starts_with_lit(s: &str, lit: &str) -> (r: bool)
    ensures
        r == spec_starts_with(s@, lit@),
{
    let n = s.unicode_len();
    let m = lit.unicode_len();
    if m > n {
        return false;
    }
    pattern_at(s, 0, lit)
}

/// An href that leaves the site (`http://`, `https://`) or is
/// protocol-relative (`//`) is never subject to directory-based checks.
pub open spec fn spec_is_external_href(s: Seq<char>) -> bool {
    ||| spec_starts_with(s, "http://"@)
    ||| spec_starts_with(s, "https://"@)
    ||| spec_starts_with(s, "//"@)
}

/// See [`spec_is_external_href`].
pub fn is_external_href(s: &String) -> (r: bool)
    ensures
        r == spec_is_external_href(s@),
{
    starts_with_lit(s.as_str(), "http://") || starts_with_lit(s.as_str(), "https://")
        || starts_with_lit(s.as_str(), "//")
}

/// The first attribute named `name`, if any.
pub open spec fn spec_find_attr(attrs: Seq<JsxAttribute>, name: Seq<char>) -> Option<JsxAttribute>
    decreases attrs.len(),
{
    if attrs.len() == 0 {
        None
    } else if attrs[0].name matches Some(nm) && nm@ == name {
        Some(attrs[0])
    } else {
        spec_find_attr(attrs.drop_first(), name)
    }
}

fn find_attr(attrs: &Vec<JsxAttribute>, name: &str) -> (r: Option<usize>)
    ensures
        match r {
            Some(j) => 0 <= j < attrs@.len() && spec_find_attr(attrs@, name@) == Some(
                attrs@[j as int],
            ),
            None => spec_find_attr(attrs@, name@) is None,
        },
{
    let name_string = name.to_owned();
    let n = attrs.len();
    let mut j: usize = 0;
    proof {
        assert(attrs@.skip(0) =~= attrs@);
    }
    while j < n
        invariant
            n == attrs@.len(),
            name_string@ == name@,
            0 <= j <= n,
            spec_find_attr(attrs@, name@) == spec_find_attr(attrs@.skip(j as int), name@),
        decreases n - j,
    {
        proof {
            assert(attrs@.skip(j as int)[0] == attrs@[j as int]);
            assert(attrs@.skip(j as int).drop_first() =~= attrs@.skip(j as int + 1));
        }
        let hit = match &attrs[j].name {
            Some(nm) => nm.eq(&name_string),
            None => false,
        };
        if hit {
            return Some(j);
        }
        j += 1;
    }
    proof {
        assert(attrs@.skip(n as int).len() == 0);
    }
    None
}

/// The disposition of one JSX element under the html-link rule, as the
/// executable verdict reports it.
#[derive(Debug, PartialEq, Eq)]
pub enum LinkVerdict {
    /// Not a plain `<a>` element with a checkable string href.
    NotApplicable,
    /// Opens a new browsing context (`target="_blank"`).
    TargetBlank,
    /// Carries a `download` attribute.
    Download,
    /// The href is empty.
    EmptyHref,
    /// The href leaves the site and is exempt from directory-based checks.
    External,
    /// A local page reference, normalized; candidate for directory-based
    /// checks outside this engine.
    PageCandidate(String),
}

/// The mathematical image of [`LinkVerdict`].
pub enum LinkVerdictView {
    NotApplicable,
    TargetBlank,
    Download,
    EmptyHref,
    External,
    PageCandidate(Seq<char>),
}

impl View for LinkVerdict {
    type V = LinkVerdictView;

    open spec fn view(&self) -> LinkVerdictView {
        match self {
            LinkVerdict::NotApplicable => LinkVerdictView::NotApplicable,
            LinkVerdict::TargetBlank => LinkVerdictView::TargetBlank,
            LinkVerdict::Download => LinkVerdictView::Download,
            LinkVerdict::EmptyHref => LinkVerdictView::EmptyHref,
            LinkVerdict::External => LinkVerdictView::External,
            LinkVerdict::PageCandidate(s) => LinkVerdictView::PageCandidate(s@),
        }
    }
}

/// The html-link rule's verdict on node `i`, applying its checks in a
/// fixed order: only a plain `<a>` with at least one attribute is considered;
/// `target="_blank"` and `download` exempt it; the string href is then
/// normalized, and an external href is exempt from the directory checks
/// that follow outside this engine.
pub open spec fn spec_link_verdict(a: Arena, i: int) -> LinkVerdictView {
    match a.spec_kind(i) {
        AstKind::JSXOpeningElement { name, attributes } => match name {
            None => LinkVerdictView::NotApplicable,
            Some(tag) => if tag@ != "a"@ {
                LinkVerdictView::NotApplicable
            } else if attributes@.len() == 0 {
                LinkVerdictView::NotApplicable
            } else {
                let target_blank = match spec_find_attr(attributes@, "target"@) {
                    Some(t) => t.string_value matches Some(v) && v@ == "_blank"@,
                    None => false,
                };
                if target_blank {
                    LinkVerdictView::TargetBlank
                } else {
                    match spec_find_attr(attributes@, "href"@) {
                        None => LinkVerdictView::NotApplicable,
                        Some(href) => if spec_find_attr(attributes@, "download"@) is Some {
                            LinkVerdictView::Download
                        } else {
                            match href.string_value {
                                None => LinkVerdictView::NotApplicable,
                                Some(h) => match spec_normalize_url(h@) {
                                    None => LinkVerdictView::EmptyHref,
                                    Some(path) => if spec_is_external_href(path) {
                                        LinkVerdictView::External
                                    } else {
                                        LinkVerdictView::PageCandidate(path)
                                    },
                                },
                            }
                        },
                    }
                }
            },
        },
        _ => LinkVerdictView::NotApplicable,
    }
}

/// A local page candidate never has an external prefix: any href beginning
/// with `http://`, `https://` or `//` is always exempt from directory-based
/// checks.
pub proof fn lemma_external_href_exempt(a: Arena, i: int)
    requires
        a.wf(),
        0 <= i < a.spec_len(),
    ensures
        spec_link_verdict(a, i) matches LinkVerdictView::PageCandidate(h) ==> !spec_is_external_href(
            h,
        ),
{
}

/// Options of the html-link rule.
#[derive(Debug, Default)]
pub struct NoHtmlLinkForPagesConfig {
    pub pages_dir: Vec<String>,
}

/// Flags plain `<a>` elements that point at site pages which the host's
/// router should serve through its link component instead.
#[derive(Debug, Default)]
pub struct NoHtmlLinkForPages(pub NoHtmlLinkForPagesConfig);

/// The configured pages directories: an array of strings or a single
/// string; any other shape (a malformed value included) falls back to the
/// empty default.
pub open spec fn spec_pages_dir_config(value: ConfigValue) -> Seq<Seq<char>> {
    match value.spec_get_index(0) {
        Some(o) => match o {
            ConfigValue::Array(items) => if forall|k: int|
                0 <= k < items@.len() ==> (#[trigger] items@[k]) is Str {
                Seq::new(items@.len(), |k: int| items@[k]->Str_0@)
            } else {
                Seq::empty()
            },
            ConfigValue::Str(one) => seq![one@],
            _ => Seq::empty(),
        },
        None => Seq::empty(),
    }
}

impl NoHtmlLinkForPages {
    /// Binds the rule's options: see [`spec_pages_dir_config`].
    pub fn from_configuration(value: &ConfigValue) -> (r: NoHtmlLinkForPages)
        ensures
            r.0.pages_dir@.map_values(|s: String| s@) == spec_pages_dir_config(*value),
    {
        let pages_dir: Vec<String> = match value.get_index(0) {
            Some(o) => match o {
                ConfigValue::Array(items) => {
                    let mut out: Vec<String> = Vec::new();
                    let n = items.len();
                    let mut j: usize = 0;
                    let mut all_strings = true;
                    while j < n
                        invariant
                            n == items@.len(),
                            0 <= j <= n,
                            all_strings ==> out@.len() == j && (forall|k: int|
                                0 <= k < j ==> (#[trigger] items@[k]) is Str),
                            all_strings ==> forall|k: int|
                                0 <= k < j ==> (#[trigger] out@[k])@ == items@[k]->Str_0@,
                            !all_strings ==> !(forall|k: int|
                                0 <= k < n ==> (#[trigger] items@[k]) is Str),
                        decreases n - j,
                    {
                        match &items[j] {
                            ConfigValue::Str(s) => {
                                if all_strings {
                                    out.push(s.clone());
                                }
                            },
                            _ => {
                                all_strings = false;
                            },
                        }
                        j += 1;
                    }
                    if all_strings {
                        proof {
                            assert(out@.map_values(|s: String| s@) =~= Seq::new(
                                items@.len(),
                                |k: int| items@[k]->Str_0@,
                            ));
                        }
                        out
                    } else {
                        Vec::new()
                    }
                },
                ConfigValue::Str(one) => {
                    let mut v: Vec<String> = Vec::new();
                    v.push(one.clone());
                    proof {
                        assert(v@.map_values(|s: String| s@) =~= seq![one@]);
                    }
                    v
                },
                _ => Vec::new(),
            },
            None => Vec::new(),
        };
        proof {
            assert(Seq::<String>::empty().map_values(|s: String| s@) =~= Seq::<Seq<char>>::empty());
        }
        NoHtmlLinkForPages(NoHtmlLinkForPagesConfig { pages_dir })
    }

    /// See [`spec_link_verdict`].
    pub fn link_verdict(&self, a: &Arena, id: NodeId) -> (r: LinkVerdict)
        requires
            a.wf(),
            id < a.spec_len(),
        ensures
            r@ == spec_link_verdict(*a, id as int),
    {
        match a.kind(id) {
            AstKind::JSXOpeningElement { name, attributes } => {
                let tag = match name {
                    Some(tag) => tag,
                    None => {
                        return LinkVerdict::NotApplicable;
                    },
                };
                if !string_is(tag, "a") {
                    return LinkVerdict::NotApplicable;
                }
                if attributes.len() == 0 {
                    return LinkVerdict::NotApplicable;
                }
                let target_blank = match find_attr(attributes, "target") {
                    Some(t) => match &attributes[t].string_value {
                        Some(v) => string_is(v, "_blank"),
                        None => false,
                    },
                    None => false,
                };
                if target_blank {
                    return LinkVerdict::TargetBlank;
                }
                let href_idx = match find_attr(attributes, "href") {
                    Some(h) => h,
                    None => {
                        return LinkVerdict::NotApplicable;
                    },
                };
                if find_attr(attributes, "download").is_some() {
                    return LinkVerdict::Download;
                }
                let href_value = match &attributes[href_idx].string_value {
                    Some(v) => v.clone(),
                    None => {
                        return LinkVerdict::NotApplicable;
                    },
                };
                match normalize_url(href_value) {
                    None => LinkVerdict::EmptyHref,
                    Some(path) => {
                        if is_external_href(&path) {
                            LinkVerdict::External
                        } else {
                            LinkVerdict::PageCandidate(path)
                        }
                    },
                }
            },
            _ => LinkVerdict::NotApplicable,
        }
    }

    /// Runs the rule on one node: computes the element's disposition and
    /// returns it. The directory comparison against the resolved page
    /// routes lives outside this engine, so no diagnostic is emitted here
    /// and the sink is left exactly as it was.
    pub fn run(&self, a: &Arena, id: NodeId, sink: &mut DiagnosticSink) -> (r: LinkVerdict)
        requires
            a.wf(),
            id < a.spec_len(),
        ensures
            r@ == spec_link_verdict(*a, id as int),
            final(sink).spec_entries() == old(sink).spec_entries(),
    {
        self.link_verdict(a, id)
    }

    /// The directories whose pages the rule should consider: the
    /// configured list when one was given, else the conventional `pages`
    /// and `src/pages` folders under every resolved root.
    pub fn pages_dirs(&self, root_dirs: &Vec<String>) -> (r: Vec<String>)
        ensures
            self.0.pages_dir@.len() > 0 ==> r@.map_values(|s: String| s@)
                == self.0.pages_dir@.map_values(|s: String| s@),
            self.0.pages_dir@.len() == 0 ==> r@.map_values(|s: String| s@) == spec_expanded_dirs(
                root_dirs@,
                "/pages"@,
                "/src/pages"@,
            ),
    {
        if self.0.pages_dir.len() > 0 {
            let mut out: Vec<String> = Vec::new();
            let n = self.0.pages_dir.len();
            let mut j: usize = 0;
            while j < n
                invariant
                    n == self.0.pages_dir@.len(),
                    0 <= j <= n,
                    out@.len() == j,
                    forall|k: int| 0 <= k < j ==> (#[trigger] out@[k])@ == self.0.pages_dir@[k]@,
                decreases n - j,
            {
                out.push(self.0.pages_dir[j].clone());
                j += 1;
            }
            proof {
                assert(out@.map_values(|s: String| s@) =~= self.0.pages_dir@.map_values(
                    |s: String| s@,
                ));
            }
            out
        } else {
            expand_dirs(root_dirs, "/pages", "/src/pages")
        }
    }
}

/// For every root `d`, in order, the two entries `d + first` and
/// `d + second`.
pub open spec fn spec_expanded_dirs(roots: Seq<String>, first: Seq<char>, second: Seq<char>) -> Seq<
    Seq<char>,
>
    decreases roots.len(),
{
    if roots.len() == 0 {
        Seq::empty()
    } else {
        spec_expanded_dirs(roots.drop_last(), first, second).add(
            seq![roots.last()@ + first, roots.last()@ + second],
        )
    }
}

fn expand_dirs(root_dirs: &Vec<String>, first: &str, second: &str) -> (r: Vec<String>)
    ensures
        r@.map_values(|s: String| s@) == spec_expanded_dirs(root_dirs@, first@, second@),
{
    let mut out: Vec<String> = Vec::new();
    let n = root_dirs.len();
    let mut j: usize = 0;
    proof {
        assert(root_dirs@.take(0) =~= Seq::<String>::empty());
        assert(out@.map_values(|s: String| s@) =~= spec_expanded_dirs(
            root_dirs@.take(0),
            first@,
            second@,
        ));
    }
    while j < n
        invariant
            n == root_dirs@.len(),
            0 <= j <= n,
            out@.map_values(|s: String| s@) == spec_expanded_dirs(
                root_dirs@.take(j as int),
                first@,
                second@,
            ),
        decreases n - j,
    {
        let ghost pre = out@;
        let mut with_first = root_dirs[j].clone();
        with_first.append(first);
        let ghost gp = with_first@;
        out.push(with_first);
        let mut with_second = root_dirs[j].clone();
        with_second.append(second);
        let ghost gs = with_second@;
        out.push(with_second);
        proof {
            assert(root_dirs@.take(j as int + 1).drop_last() =~= root_dirs@.take(j as int));
            assert(root_dirs@.take(j as int + 1).last() == root_dirs@[j as int]);
            assert(out@.map_values(|s: String| s@) =~= pre.map_values(|s: String| s@)
                + seq![gp, gs]);
        }
        j += 1;
    }
    proof {
        assert(root_dirs@.take(n as int) =~= root_dirs@);
    }
    out
}

/// The conventional application directories under every resolved root:
/// `app` and `src/app` for each.
pub fn app_dirs(root_dirs: &Vec<String>) -> (r: Vec<String>)
    ensures
        r@.map_values(|s: String| s@) == spec_expanded_dirs(root_dirs@, "/app"@, "/src/app"@),
{
    expand_dirs(root_dirs, "/app", "/src/app")
}

/// A root-directory entry as a folder-matching pattern: a trailing slash
/// is guaranteed, so that only directories match when the host expands it.
pub open spec fn spec_dir_pattern(s: Seq<char>) -> Seq<char> {
    if s.len() > 0 && s.last() == '/' {
        s
    } else {
        s.push('/')
    }
}

/// Prepares one configured root directory for expansion: the host expands
/// the returned pattern against the filesystem and hands the matches back
/// as plain strings.
pub fn process_root_dir(root_dir: &str) -> (r: String)
    ensures
        r@ == spec_dir_pattern(root_dir@),
{
    let n = root_dir.unicode_len();
    if n > 0 && root_dir.get_char(n - 1) == '/' {
        root_dir.to_owned()
    } else {
        let ghost before = root_dir@;
        let mut out = root_dir.to_owned();
        out.append("/");
        proof {
            reveal_strlit("/");
            assert("/"@ =~= seq!['/']);
            assert(out@ =~= before.push('/'));
        }
        out
    }
}

/// Prepares every configured root directory for expansion, in order.
pub fn get_root_dirs(root_dir: &Vec<String>) -> (r: Vec<String>)
    ensures
        r@.len() == root_dir@.len(),
        forall|j: int| 0 <= j < root_dir@.len() ==> (#[trigger] r@[j])@ == spec_dir_pattern(
            root_dir@[j]@,
        ),
{
    let mut out: Vec<String> = Vec::new();
    let n = root_dir.len();
    let mut j: usize = 0;
    while j < n
        invariant
            n == root_dir@.len(),
            0 <= j <= n,
            out@.len() == j,
            forall|k: int| 0 <= k < j ==> (#[trigger] out@[k])@ == spec_dir_pattern(
                root_dir@[k]@,
            ),
        decreases n - j,
    {
        out.push(process_root_dir(root_dir[j].as_str()));
        j += 1;
    }
    out
}
} // verus!
