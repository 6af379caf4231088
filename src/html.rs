//! Structural injection of tags into an HTML document.
//!
//! Each anchor is found as the leftmost match of its pattern: an opening tag
//! `<name` up to the first following `>`, or a literal closing tag, together
//! with the run of spaces and tabs just before it (the anchor's indent).
use vstd::prelude::*;
use crate::text::{
    blank_start, chars_of, find_blank_start, find_char, find_from, first_char, first_occ,
    occurs_at_exec, push_chars, push_str, slice, string_of,
};

verus! {

#[derive(Debug, Clone, Copy, PartialEq, Eq, Structural)]
pub enum HtmlTagInjectTo {
    HeadPrepend,
    Head,
    Body,
}

#[derive(Debug)]
pub struct HtmlTagDescriptor {
    pub tag: String,
    /// Attributes as `(key, value)` pairs, serialized in this order.
    pub attrs: Vec<(String, String)>,
    pub children: Option<String>,
    pub inject_to: HtmlTagInjectTo,
}

#[derive(Debug)]
pub struct IndexHtmlTransformResult {
    pub tags: Vec<HtmlTagDescriptor>,
}

// ---------------------------------------------------------------- serializing

pub open spec fn attr_text(k: Seq<char>, v: Seq<char>) -> Seq<char> {
    seq![' '] + k + seq!['=', '"'] + v + seq!['"']
}

/// ` key="value"` for each attribute, in order.
pub open spec fn attrs_text(a: Seq<(String, String)>) -> Seq<char>
    decreases a.len(),
{
    if a.len() == 0 {
        Seq::empty()
    } else {
        attrs_text(a.drop_last()) + attr_text(a.last().0@, a.last().1@)
    }
}

/// The tags written self-closed.
pub open spec fn is_unary(tag: Seq<char>) -> bool {
    tag == seq!['l', 'i', 'n', 'k'] || tag == seq!['m', 'e', 't', 'a'] || tag == seq![
        'b',
        'a',
        's',
        'e',
    ]
}

pub open spec fn children_text(c: Option<String>) -> Seq<char> {
    match c {
        Some(s) => s@,
        None => Seq::empty(),
    }
}

pub open spec fn tag_text(t: HtmlTagDescriptor) -> Seq<char> {
    if is_unary(t.tag@) {
        seq!['<'] + t.tag@ + attrs_text(t.attrs@) + seq!['/', '>']
    } else {
        seq!['<'] + t.tag@ + attrs_text(t.attrs@) + seq!['>'] + children_text(t.children)
            + seq!['<', '/'] + t.tag@ + seq!['>']
    }
}

/// Each tag on a line of its own, after `indent`.
pub open spec fn tags_text(tags: Seq<HtmlTagDescriptor>, indent: Seq<char>) -> Seq<char>
    decreases tags.len(),
{
    if tags.len() == 0 {
        Seq::empty()
    } else {
        tags_text(tags.drop_last(), indent) + indent + tag_text(tags.last()) + seq!['\n']
    }
}

/// One indentation step deeper: a tab if `indent` starts with one, else two spaces.
pub open spec fn deeper(indent: Seq<char>) -> Seq<char> {
    if indent.len() > 0 && indent[0] == '\t' {
        indent.push('\t')
    } else {
        indent + seq![' ', ' ']
    }
}

fn serialize_attrs(attrs: &Vec<(String, String)>) -> (r: Vec<char>)
    ensures
        r@ == attrs_text(attrs@),
{
    let mut out: Vec<char> = Vec::new();
    let mut i: usize = 0;
    while i < attrs.len()
        invariant
            i <= attrs@.len(),
            out@ == attrs_text(attrs@.subrange(0, i as int)),
        decreases attrs@.len() - i,
    {
        let (k, v) = &attrs[i];
        let ghost before = out@;
        out.push(' ');
        push_str(&mut out, k.as_str());
        out.push('=');
        out.push('"');
        push_str(&mut out, v.as_str());
        out.push('"');
        proof {
            let a = attrs@.subrange(0, i + 1);
            assert(a.drop_last() == attrs@.subrange(0, i as int));
            assert(out@ =~= before + attr_text(k@, v@));
        }
        i = i + 1;
    }
    proof {
        assert(attrs@.subrange(0, attrs@.len() as int) == attrs@);
    }
    out
}

fn eq_chars(a: &Vec<char>, b: &Vec<char>) -> (r: bool)
    ensures
        r == (a@ == b@),
{
    if a.len() != b.len() {
        return false;
    }
    let r = occurs_at_exec(a, b, 0);
    proof {
        if r {
            assert(a@.subrange(0, b@.len() as int) =~= a@);
        } else {
            assert(a@.subrange(0, b@.len() as int) =~= a@);
        }
    }
    r
}

fn serialize_tag(t: &HtmlTagDescriptor) -> (r: Vec<char>)
    ensures
        r@ == tag_text(*t),
{
    let name = chars_of(t.tag.as_str());
    let unary = eq_chars(&name, &vec!['l', 'i', 'n', 'k']) || eq_chars(
        &name,
        &vec!['m', 'e', 't', 'a'],
    ) || eq_chars(&name, &vec!['b', 'a', 's', 'e']);
    let attrs = serialize_attrs(&t.attrs);
    let mut out: Vec<char> = Vec::new();
    out.push('<');
    push_chars(&mut out, &name);
    push_chars(&mut out, &attrs);
    if unary {
        out.push('/');
        out.push('>');
        assert(out@ =~= tag_text(*t));
    } else {
        out.push('>');
        match &t.children {
            Some(c) => push_str(&mut out, c.as_str()),
            None => {},
        }
        out.push('<');
        out.push('/');
        push_chars(&mut out, &name);
        out.push('>');
        assert(out@ =~= tag_text(*t));
    }
    out
}

fn serialize_tags(tags: &Vec<HtmlTagDescriptor>, indent: &Vec<char>) -> (r: Vec<char>)
    ensures
        r@ == tags_text(tags@, indent@),
{
    let mut out: Vec<char> = Vec::new();
    let mut i: usize = 0;
    while i < tags.len()
        invariant
            i <= tags@.len(),
            out@ == tags_text(tags@.subrange(0, i as int), indent@),
        decreases tags@.len() - i,
    {
        let ghost before = out@;
        push_chars(&mut out, indent);
        let t = serialize_tag(&tags[i]);
        push_chars(&mut out, &t);
        out.push('\n');
        proof {
            let a = tags@.subrange(0, i + 1);
            assert(a.drop_last() == tags@.subrange(0, i as int));
            assert(out@ =~= before + indent@ + tag_text(tags@[i as int]) + seq!['\n']);
        }
        i = i + 1;
    }
    proof {
        assert(tags@.subrange(0, tags@.len() as int) == tags@);
    }
    out
}

fn increment_indent(indent: &Vec<char>) -> (r: Vec<char>)
    ensures
        r@ == deeper(indent@),
{
    let mut out = slice(indent, 0, indent.len());
    assert(out@ =~= indent@);
    if indent.len() > 0 && indent[0] == '\t' {
        out.push('\t');
    } else {
        out.push(' ');
        out.push(' ');
        assert(out@ =~= indent@ + seq![' ', ' ']);
    }
    out
}

// ---------------------------------------------------------------- anchors

pub open spec fn head_open() -> Seq<char> {
    seq!['<', 'h', 'e', 'a', 'd']
}

pub open spec fn head_close() -> Seq<char> {
    seq!['<', '/', 'h', 'e', 'a', 'd', '>']
}

pub open spec fn body_open() -> Seq<char> {
    seq!['<', 'b', 'o', 'd', 'y']
}

pub open spec fn body_close() -> Seq<char> {
    seq!['<', '/', 'b', 'o', 'd', 'y', '>']
}

pub open spec fn html_open() -> Seq<char> {
    seq!['<', 'h', 't', 'm', 'l']
}

pub open spec fn html_close() -> Seq<char> {
    seq!['<', '/', 'h', 't', 'm', 'l', '>']
}

pub open spec fn doctype() -> Seq<char> {
    seq!['<', '!', 'd', 'o', 'c', 't', 'y', 'p', 'e', ' ', 'h', 't', 'm', 'l', '>']
}

/// The leftmost opening tag `name`, up to the first `>` after it, with the
/// blanks before it: `(start, name_at, end)`.
pub open spec fn open_match(s: Seq<char>, name: Seq<char>) -> Option<(int, int, int)> {
    let i = first_occ(s, name, 0);
    if i < 0 {
        None
    } else {
        let q = first_char(s, '>', i + name.len());
        if q < 0 {
            None
        } else {
            Some((blank_start(s, i), i, q + 1))
        }
    }
}

/// The leftmost literal `lit`, with the blanks before it when `blanks` holds.
pub open spec fn lit_match(s: Seq<char>, lit: Seq<char>, blanks: bool) -> Option<(int, int, int)> {
    let i = first_occ(s, lit, 0);
    if i < 0 {
        None
    } else {
        Some((if blanks { blank_start(s, i) } else { i }, i, i + lit.len()))
    }
}

pub open spec fn valid_match(s: Seq<char>, m: (int, int, int)) -> bool {
    0 <= m.0 <= m.1 <= m.2 <= s.len()
}

proof fn lemma_first_occ_bounds(s: Seq<char>, p: Seq<char>, from: int)
    ensures
        first_occ(s, p, from) == -1 || (from <= first_occ(s, p, from) && first_occ(s, p, from)
            + p.len() <= s.len()),
    decreases s.len() - from,
{
    if from < 0 || from > s.len() || from + p.len() > s.len() {
    } else if crate::text::occurs_at(s, p, from) {
    } else if from == s.len() {
    } else {
        lemma_first_occ_bounds(s, p, from + 1);
    }
}

proof fn lemma_first_char_bounds(s: Seq<char>, c: char, from: int)
    ensures
        first_char(s, c, from) == -1 || (from <= first_char(s, c, from) < s.len()),
    decreases s.len() - from,
{
    if from < 0 || from >= s.len() {
    } else if s[from] == c {
    } else {
        lemma_first_char_bounds(s, c, from + 1);
    }
}

fn find_open(s: &Vec<char>, name: &Vec<char>) -> (r: Option<(usize, usize, usize)>)
    ensures
        match r {
            Some(m) => open_match(s@, name@) == Some((m.0 as int, m.1 as int, m.2 as int))
                && valid_match(s@, (m.0 as int, m.1 as int, m.2 as int)),
            None => open_match(s@, name@) is None,
        },
{
    let _len = s.len();
    proof {
        lemma_first_occ_bounds(s@, name@, 0);
    }
    match find_from(s, name, 0) {
        None => None,
        Some(i) => {
            proof {
                lemma_first_char_bounds(s@, '>', i + name@.len());
            }
            match find_char(s, '>', i + name.len()) {
                None => None,
                Some(q) => {
                    let start = find_blank_start(s, i);
                    Some((start, i, q + 1))
                },
            }
        },
    }
}

fn find_lit(s: &Vec<char>, lit: &Vec<char>, blanks: bool) -> (r: Option<(usize, usize, usize)>)
    ensures
        match r {
            Some(m) => lit_match(s@, lit@, blanks) == Some((m.0 as int, m.1 as int, m.2 as int))
                && valid_match(s@, (m.0 as int, m.1 as int, m.2 as int)),
            None => lit_match(s@, lit@, blanks) is None,
        },
{
    let _len = s.len();
    proof {
        lemma_first_occ_bounds(s@, lit@, 0);
    }
    match find_from(s, lit, 0) {
        None => None,
        Some(i) => {
            let start = if blanks {
                find_blank_start(s, i)
            } else {
                i
            };
            Some((start, i, i + lit.len()))
        },
    }
}

// ---------------------------------------------------------------- injection

/// `ins` placed at index `at` of `s`.
pub open spec fn insert_at(s: Seq<char>, at: int, ins: Seq<char>) -> Seq<char> {
    s.subrange(0, at) + ins + s.subrange(at, s.len() as int)
}

/// No head anchor: after `<html ...>`, else after `<!doctype html>`, else at the start.
pub open spec fn prepend_fallback(s: Seq<char>, tags: Seq<HtmlTagDescriptor>) -> Seq<char> {
    let t = tags_text(tags, Seq::empty());
    match open_match(s, html_open()) {
        Some(m) => insert_at(s, m.2, seq!['\n'] + t),
        None => match lit_match(s, doctype(), false) {
            Some(m) => insert_at(s, m.2, seq!['\n'] + t),
            None => t + s,
        },
    }
}

/// Head injection: as the first element of head (`prepend`), or before
/// `</head>`, else before `<body ...>`; without an anchor, the fallback.
pub open spec fn head_injected(s: Seq<char>, tags: Seq<HtmlTagDescriptor>, prepend: bool) -> Seq<
    char,
> {
    if prepend {
        match open_match(s, head_open()) {
            Some(m) => insert_at(
                s,
                m.2,
                seq!['\n'] + tags_text(tags, deeper(s.subrange(m.0, m.1))),
            ),
            None => prepend_fallback(s, tags),
        }
    } else {
        match lit_match(s, head_close(), true) {
            Some(m) => insert_at(s, m.0, tags_text(tags, deeper(s.subrange(m.0, m.1)))),
            None => match open_match(s, body_open()) {
                Some(m) => insert_at(
                    s,
                    m.0,
                    tags_text(tags, deeper(s.subrange(m.0, m.1))) + seq!['\n'],
                ),
                None => prepend_fallback(s, tags),
            },
        }
    }
}

/// Body injection: before `</body>`, else before `</html>`, else at the end.
pub open spec fn body_injected(s: Seq<char>, tags: Seq<HtmlTagDescriptor>) -> Seq<char> {
    match lit_match(s, body_close(), true) {
        Some(m) => insert_at(s, m.0, tags_text(tags, deeper(s.subrange(m.0, m.1)))),
        None => match lit_match(s, html_close(), false) {
            Some(m) => insert_at(s, m.0, tags_text(tags, Seq::empty()) + seq!['\n']),
            None => s + seq!['\n'] + tags_text(tags, Seq::empty()),
        },
    }
}

fn insert_chars(s: &Vec<char>, at: usize, ins: &Vec<char>) -> (r: Vec<char>)
    requires
        at <= s@.len(),
    ensures
        r@ == insert_at(s@, at as int, ins@),
{
    let mut out = slice(s, 0, at);
    push_chars(&mut out, ins);
    let rest = slice(s, at, s.len());
    push_chars(&mut out, &rest);
    out
}

fn prepend_inject_fallback(s: &Vec<char>, tags: &Vec<HtmlTagDescriptor>) -> (r: Vec<char>)
    ensures
        r@ == prepend_fallback(s@, tags@),
{
    let t = serialize_tags(tags, &Vec::new());
    let mut nl_t: Vec<char> = vec!['\n'];
    push_chars(&mut nl_t, &t);
    assert(nl_t@ =~= seq!['\n'] + t@);
    let html = vec!['<', 'h', 't', 'm', 'l'];
    assert(html@ =~= html_open());
    match find_open(s, &html) {
        Some(m) => insert_chars(s, m.2, &nl_t),
        None => {
            let dt = vec!['<', '!', 'd', 'o', 'c', 't', 'y', 'p', 'e', ' ', 'h', 't', 'm', 'l', '>'];
            assert(dt@ =~= doctype());
            match find_lit(s, &dt, false) {
                Some(m) => insert_chars(s, m.2, &nl_t),
                None => {
                    let mut out = t;
                    push_chars(&mut out, s);
                    out
                },
            }
        },
    }
}

/// Injects `tags` into the head of `html`; see [`head_injected`].
pub fn inject_to_head(html: String, tags: Vec<HtmlTagDescriptor>, prepend: bool) -> (r: String)
    ensures
        r@ == head_injected(html@, tags@, prepend),
{
    let s = chars_of(html.as_str());
    let out = if prepend {
        let head = vec!['<', 'h', 'e', 'a', 'd'];
        assert(head@ =~= head_open());
        match find_open(&s, &head) {
            Some(m) => {
                let indent = slice(&s, m.0, m.1);
                let t = serialize_tags(&tags, &increment_indent(&indent));
                let mut ins: Vec<char> = vec!['\n'];
                push_chars(&mut ins, &t);
                assert(ins@ =~= seq!['\n'] + t@);
                insert_chars(&s, m.2, &ins)
            },
            None => prepend_inject_fallback(&s, &tags),
        }
    } else {
        let close = vec!['<', '/', 'h', 'e', 'a', 'd', '>'];
        assert(close@ =~= head_close());
        match find_lit(&s, &close, true) {
            Some(m) => {
                let indent = slice(&s, m.0, m.1);
                let t = serialize_tags(&tags, &increment_indent(&indent));
                insert_chars(&s, m.0, &t)
            },
            None => {
                let body = vec!['<', 'b', 'o', 'd', 'y'];
                assert(body@ =~= body_open());
                match find_open(&s, &body) {
                    Some(m) => {
                        let indent = slice(&s, m.0, m.1);
                        let mut t = serialize_tags(&tags, &increment_indent(&indent));
                        t.push('\n');
                        insert_chars(&s, m.0, &t)
                    },
                    None => prepend_inject_fallback(&s, &tags),
                }
            },
        }
    };
    string_of(&out)
}

/// Injects `tags` at the end of the body of `html`; see [`body_injected`].
pub fn inject_to_body(html: String, tags: Vec<HtmlTagDescriptor>) -> (r: String)
    ensures
        r@ == body_injected(html@, tags@),
{
    let s = chars_of(html.as_str());
    let close = vec!['<', '/', 'b', 'o', 'd', 'y', '>'];
    assert(close@ =~= body_close());
    let out = match find_lit(&s, &close, true) {
        Some(m) => {
            let indent = slice(&s, m.0, m.1);
            let t = serialize_tags(&tags, &increment_indent(&indent));
            insert_chars(&s, m.0, &t)
        },
        None => {
            let t = serialize_tags(&tags, &Vec::new());
            let html_end = vec!['<', '/', 'h', 't', 'm', 'l', '>'];
            assert(html_end@ =~= html_close());
            match find_lit(&s, &html_end, false) {
                Some(m) => {
                    let mut t = t;
                    t.push('\n');
                    insert_chars(&s, m.0, &t)
                },
                None => {
                    let mut out = slice(&s, 0, s.len());
                    assert(out@ =~= s@);
                    out.push('\n');
                    push_chars(&mut out, &t);
                    out
                },
            }
        },
    };
    string_of(&out)
}

// ---------------------------------------------------------------- transform

/// The tags of `tags` that go to `to`, in order.
pub open spec fn select(tags: Seq<HtmlTagDescriptor>, to: HtmlTagInjectTo) -> Seq<
    HtmlTagDescriptor,
>
    decreases tags.len(),
{
    if tags.len() == 0 {
        Seq::empty()
    } else if tags.last().inject_to == to {
        select(tags.drop_last(), to).push(tags.last())
    } else {
        select(tags.drop_last(), to)
    }
}

/// The document after injecting `tags`: head-prepend tags first, then head
/// tags, then body tags; a group with no tags leaves the document as it is.
pub open spec fn transformed(html: Seq<char>, tags: Seq<HtmlTagDescriptor>) -> Seq<char> {
    let hp = select(tags, HtmlTagInjectTo::HeadPrepend);
    let h = select(tags, HtmlTagInjectTo::Head);
    let b = select(tags, HtmlTagInjectTo::Body);
    let s1 = if hp.len() > 0 {
        head_injected(html, hp, true)
    } else {
        html
    };
    let s2 = if h.len() > 0 {
        head_injected(s1, h, false)
    } else {
        s1
    };
    if b.len() > 0 {
        body_injected(s2, b)
    } else {
        s2
    }
}

/// Injects each tag of `tags` at its injection point; see [`transformed`].
pub fn apply_html_transform(html: String, tags: Vec<HtmlTagDescriptor>) -> (r: String)
    ensures
        r@ == transformed(html@, tags@),
{
    let ghost all = tags@;
    let mut tags = tags;
    let mut head_prepend_tags: Vec<HtmlTagDescriptor> = Vec::new();
    let mut head_tags: Vec<HtmlTagDescriptor> = Vec::new();
    let mut body_tags: Vec<HtmlTagDescriptor> = Vec::new();
    let ghost mut i: int = 0;
    while tags.len() > 0
        invariant
            0 <= i <= all.len(),
            tags@ == all.subrange(i, all.len() as int),
            head_prepend_tags@ == select(all.subrange(0, i), HtmlTagInjectTo::HeadPrepend),
            head_tags@ == select(all.subrange(0, i), HtmlTagInjectTo::Head),
            body_tags@ == select(all.subrange(0, i), HtmlTagInjectTo::Body),
        decreases tags@.len(),
    {
        let tag = tags.remove(0);
        proof {
            assert(all.subrange(0, i + 1).drop_last() == all.subrange(0, i));
            assert(all.subrange(0, i + 1).last() == tag);
            assert(tags@ == all.subrange(i + 1, all.len() as int));
            i = i + 1;
        }
        match tag.inject_to {
            HtmlTagInjectTo::HeadPrepend => head_prepend_tags.push(tag),
            HtmlTagInjectTo::Head => head_tags.push(tag),
            HtmlTagInjectTo::Body => body_tags.push(tag),
        }
    }
    proof {
        assert(all.subrange(0, i) == all);
    }
    let mut html = html;
    if head_prepend_tags.len() > 0 {
        html = inject_to_head(html, head_prepend_tags, true);
    }
    if head_tags.len() > 0 {
        html = inject_to_head(html, head_tags, false);
    }
    if body_tags.len() > 0 {
        html = inject_to_body(html, body_tags);
    }
    html
}

/// Injecting no tags gives back the document unchanged.
pub proof fn lemma_no_tags_identity(html: Seq<char>)
    ensures
        transformed(html, Seq::empty()) == html,
{
}

proof fn lemma_blank_start_bounds(s: Seq<char>, i: int)
    ensures
        0 <= i <= s.len() ==> 0 <= blank_start(s, i) <= i,
    decreases i,
{
    if 0 < i && i <= s.len() && crate::text::is_blank(s[i - 1]) {
        lemma_blank_start_bounds(s, i - 1);
    }
}

proof fn lemma_open_match_valid(s: Seq<char>, name: Seq<char>)
    ensures
        open_match(s, name) matches Some(m) ==> valid_match(s, m),
{
    lemma_first_occ_bounds(s, name, 0);
    let i = first_occ(s, name, 0);
    if i >= 0 {
        lemma_first_char_bounds(s, '>', i + name.len());
        lemma_blank_start_bounds(s, i);
    }
}

proof fn lemma_lit_match_valid(s: Seq<char>, lit: Seq<char>, blanks: bool)
    ensures
        lit_match(s, lit, blanks) matches Some(m) ==> valid_match(s, m),
{
    lemma_first_occ_bounds(s, lit, 0);
    let i = first_occ(s, lit, 0);
    if i >= 0 {
        lemma_blank_start_bounds(s, i);
    }
}

proof fn lemma_tags_text_nonempty(tags: Seq<HtmlTagDescriptor>, indent: Seq<char>)
    requires
        tags.len() > 0,
    ensures
        tags_text(tags, indent).len() > 0,
{
}

proof fn lemma_insert_len(s: Seq<char>, at: int, ins: Seq<char>)
    requires
        0 <= at <= s.len(),
    ensures
        insert_at(s, at, ins).len() == s.len() + ins.len(),
{
}

proof fn lemma_fallback_longer(s: Seq<char>, tags: Seq<HtmlTagDescriptor>)
    requires
        tags.len() > 0,
    ensures
        prepend_fallback(s, tags).len() > s.len(),
{
    let t = tags_text(tags, Seq::empty());
    lemma_tags_text_nonempty(tags, Seq::empty());
    lemma_open_match_valid(s, html_open());
    lemma_lit_match_valid(s, doctype(), false);
    match open_match(s, html_open()) {
        Some(m) => lemma_insert_len(s, m.2, seq!['\n'] + t),
        None => match lit_match(s, doctype(), false) {
            Some(m) => lemma_insert_len(s, m.2, seq!['\n'] + t),
            None => {},
        },
    }
}

proof fn lemma_head_longer(s: Seq<char>, tags: Seq<HtmlTagDescriptor>, prepend: bool)
    requires
        tags.len() > 0,
    ensures
        head_injected(s, tags, prepend).len() > s.len(),
{
    lemma_fallback_longer(s, tags);
    lemma_open_match_valid(s, head_open());
    lemma_open_match_valid(s, body_open());
    lemma_lit_match_valid(s, head_close(), true);
    if prepend {
        match open_match(s, head_open()) {
            Some(m) => {
                let ins = seq!['\n'] + tags_text(tags, deeper(s.subrange(m.0, m.1)));
                lemma_insert_len(s, m.2, ins);
            },
            None => {},
        }
    } else {
        match lit_match(s, head_close(), true) {
            Some(m) => {
                let ins = tags_text(tags, deeper(s.subrange(m.0, m.1)));
                lemma_tags_text_nonempty(tags, deeper(s.subrange(m.0, m.1)));
                lemma_insert_len(s, m.0, ins);
            },
            None => match open_match(s, body_open()) {
                Some(m) => {
                    let ins = tags_text(tags, deeper(s.subrange(m.0, m.1))) + seq!['\n'];
                    lemma_insert_len(s, m.0, ins);
                },
                None => {},
            },
        }
    }
}

proof fn lemma_body_longer(s: Seq<char>, tags: Seq<HtmlTagDescriptor>)
    requires
        tags.len() > 0,
    ensures
        body_injected(s, tags).len() > s.len(),
{
    lemma_lit_match_valid(s, body_close(), true);
    lemma_lit_match_valid(s, html_close(), false);
    lemma_tags_text_nonempty(tags, Seq::empty());
    match lit_match(s, body_close(), true) {
        Some(m) => {
            let ins = tags_text(tags, deeper(s.subrange(m.0, m.1)));
            lemma_tags_text_nonempty(tags, deeper(s.subrange(m.0, m.1)));
            lemma_insert_len(s, m.0, ins);
        },
        None => match lit_match(s, html_close(), false) {
            Some(m) => lemma_insert_len(s, m.0, tags_text(tags, Seq::empty()) + seq!['\n']),
            None => {},
        },
    }
}

proof fn lemma_select_partition(tags: Seq<HtmlTagDescriptor>)
    ensures
        select(tags, HtmlTagInjectTo::HeadPrepend).len() + select(tags, HtmlTagInjectTo::Head).len()
            + select(tags, HtmlTagInjectTo::Body).len() == tags.len(),
    decreases tags.len(),
{
    if tags.len() > 0 {
        lemma_select_partition(tags.drop_last());
    }
}

/// A non-empty tag set always lengthens the document, so the transform is not
/// idempotent: applying the same tags to its output injects them again.
pub proof fn lemma_transform_not_idempotent(html: Seq<char>, tags: Seq<HtmlTagDescriptor>)
    requires
        tags.len() > 0,
    ensures
        transformed(html, tags).len() > html.len(),
        transformed(transformed(html, tags), tags) != transformed(html, tags),
{
    lemma_select_partition(tags);
    let hp = select(tags, HtmlTagInjectTo::HeadPrepend);
    let h = select(tags, HtmlTagInjectTo::Head);
    let b = select(tags, HtmlTagInjectTo::Body);
    assert forall|s: Seq<char>| #[trigger] transformed(s, tags).len() > s.len() by {
        let s1 = if hp.len() > 0 {
            head_injected(s, hp, true)
        } else {
            s
        };
        if hp.len() > 0 {
            lemma_head_longer(s, hp, true);
        }
        let s2 = if h.len() > 0 {
            head_injected(s1, h, false)
        } else {
            s1
        };
        if h.len() > 0 {
            lemma_head_longer(s1, h, false);
        }
        if b.len() > 0 {
            lemma_body_longer(s2, b);
        }
    }
    assert(transformed(transformed(html, tags), tags).len() > transformed(html, tags).len());
}

// ---------------------------------------------------------------- index.html hooks

pub open spec fn js_url(package: Seq<char>, assets_dir: Seq<char>) -> Seq<char> {
    seq!['/'] + assets_dir + seq!['/'] + package + ".js"@
}

pub open spec fn wasm_url(package: Seq<char>, assets_dir: Seq<char>) -> Seq<char> {
    seq!['/'] + assets_dir + seq!['/'] + package + "_bg.wasm"@
}

/// The module script that loads the JS glue and starts the WASM module.
pub open spec fn init_script(package: Seq<char>, assets_dir: Seq<char>) -> Seq<char> {
    "import init from '"@ + js_url(package, assets_dir) + "';await init({ module_or_path: '"@
        + wasm_url(package, assets_dir) + "' })"@
}

pub open spec fn is_attr(a: (String, String), k: Seq<char>, v: Seq<char>) -> bool {
    a.0@ == k && a.1@ == v
}

/// All the tags of the hook results, in order.
pub open spec fn hook_tags(hooks: Seq<IndexHtmlTransformResult>) -> Seq<HtmlTagDescriptor>
    decreases hooks.len(),
{
    if hooks.len() == 0 {
        Seq::empty()
    } else {
        hook_tags(hooks.drop_last()) + hooks.last().tags@
    }
}

fn attr(k: &str, v: String) -> (r: (String, String))
    ensures
        is_attr(r, k@, v@),
{
    (k.to_owned(), v)
}

pub struct BuildHtml;

impl BuildHtml {
    /// The tags that load the package's JS glue and WASM module from `assets_dir`.
    pub fn main_wasm_hook(package: &str, assets_dir: &str) -> (r: Vec<IndexHtmlTransformResult>)
        ensures
            r@.len() == 3,
            forall|i: int| 0 <= i < 3 ==> (#[trigger] r@[i]).tags@.len() == 1,
            ({
                let t = r@[0].tags@[0];
                &&& t.tag@ == "link"@
                &&& t.attrs@.len() == 2
                &&& is_attr(t.attrs@[0], "rel"@, "modulepreload"@)
                &&& is_attr(t.attrs@[1], "href"@, js_url(package@, assets_dir@))
                &&& t.children is None
                &&& t.inject_to == HtmlTagInjectTo::Head
            }),
            ({
                let t = r@[1].tags@[0];
                &&& t.tag@ == "link"@
                &&& t.attrs@.len() == 4
                &&& is_attr(t.attrs@[0], "rel"@, "preload"@)
                &&& is_attr(t.attrs@[1], "as"@, "fetch"@)
                &&& is_attr(t.attrs@[2], "type"@, "application/wasm"@)
                &&& is_attr(t.attrs@[3], "href"@, wasm_url(package@, assets_dir@))
                &&& t.children is None
                &&& t.inject_to == HtmlTagInjectTo::Head
            }),
            ({
                let t = r@[2].tags@[0];
                &&& t.tag@ == "script"@
                &&& t.attrs@.len() == 1
                &&& is_attr(t.attrs@[0], "type"@, "module"@)
                &&& t.children matches Some(c) && c@ == init_script(package@, assets_dir@)
                &&& t.inject_to == HtmlTagInjectTo::Body
            }),
    {
        let mut base: Vec<char> = vec!['/'];
        push_str(&mut base, assets_dir);
        base.push('/');
        push_str(&mut base, package);
        let mut js_chars = slice(&base, 0, base.len());
        push_str(&mut js_chars, ".js");
        let mut wasm_chars = base;
        push_str(&mut wasm_chars, "_bg.wasm");
        assert(js_chars@ =~= js_url(package@, assets_dir@));
        assert(wasm_chars@ =~= wasm_url(package@, assets_dir@));
        let mut init_chars: Vec<char> = Vec::new();
        push_str(&mut init_chars, "import init from '");
        push_chars(&mut init_chars, &js_chars);
        push_str(&mut init_chars, "';await init({ module_or_path: '");
        push_chars(&mut init_chars, &wasm_chars);
        push_str(&mut init_chars, "' })");
        assert(init_chars@ =~= init_script(package@, assets_dir@));
        let js = string_of(&js_chars);
        let wasm = string_of(&wasm_chars);
        let init = string_of(&init_chars);
        let preload_js = HtmlTagDescriptor {
            tag: "link".to_owned(),
            attrs: vec![attr("rel", "modulepreload".to_owned()), attr("href", js)],
            children: None,
            inject_to: HtmlTagInjectTo::Head,
        };
        let preload_wasm = HtmlTagDescriptor {
            tag: "link".to_owned(),
            attrs: vec![
                attr("rel", "preload".to_owned()),
                attr("as", "fetch".to_owned()),
                attr("type", "application/wasm".to_owned()),
                attr("href", wasm),
            ],
            children: None,
            inject_to: HtmlTagInjectTo::Head,
        };
        let script = HtmlTagDescriptor {
            tag: "script".to_owned(),
            attrs: vec![attr("type", "module".to_owned())],
            children: Some(init),
            inject_to: HtmlTagInjectTo::Body,
        };
        vec![
            IndexHtmlTransformResult { tags: vec![preload_js] },
            IndexHtmlTransformResult { tags: vec![preload_wasm] },
            IndexHtmlTransformResult { tags: vec![script] },
        ]
    }

    /// The tag that loads the dev-server client script from `client_path`.
    pub fn dev_html_hook(client_path: &str) -> (r: IndexHtmlTransformResult)
        ensures
            r.tags@.len() == 1,
            ({
                let t = r.tags@[0];
                &&& t.tag@ == "script"@
                &&& t.attrs@.len() == 2
                &&& is_attr(t.attrs@[0], "type"@, "module"@)
                &&& is_attr(t.attrs@[1], "src"@, client_path@ + ".js"@)
                &&& t.children is None
                &&& t.inject_to == HtmlTagInjectTo::HeadPrepend
            }),
    {
        let mut src_chars = chars_of(client_path);
        push_str(&mut src_chars, ".js");
        let src = string_of(&src_chars);
        let t = HtmlTagDescriptor {
            tag: "script".to_owned(),
            attrs: vec![attr("type", "module".to_owned()), attr("src", src)],
            children: None,
            inject_to: HtmlTagInjectTo::HeadPrepend,
        };
        IndexHtmlTransformResult { tags: vec![t] }
    }

    /// Applies the tags of all the hook results to `html`.
    pub fn transform(hooks: Vec<IndexHtmlTransformResult>, html: String) -> (r: String)
        ensures
            r@ == transformed(html@, hook_tags(hooks@)),
    {
        let ghost all = hooks@;
        let mut hooks = hooks;
        let mut tags: Vec<HtmlTagDescriptor> = Vec::new();
        let ghost mut i: int = 0;
        while hooks.len() > 0
            invariant
                0 <= i <= all.len(),
                hooks@ == all.subrange(i, all.len() as int),
                tags@ == hook_tags(all.subrange(0, i)),
            decreases hooks@.len(),
        {
            let hook = hooks.remove(0);
            let mut more = hook.tags;
            proof {
                assert(all.subrange(0, i + 1).drop_last() == all.subrange(0, i));
                assert(hooks@ == all.subrange(i + 1, all.len() as int));
                i = i + 1;
            }
            tags.append(&mut more);
        }
        proof {
            assert(all.subrange(0, i) == all);
        }
        apply_html_transform(html, tags)
    }
}

} // verus!
