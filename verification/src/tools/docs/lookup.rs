//! Document lookup tools
//!
//! The pure heart of the lookup tools: building the document URLs, cleaning
//! fetched HTML, and turning it into markdown or plain text. Fetching the
//! pages is the caller's business; everything here is a function from
//! strings to strings.

use crate::utils::string::{is_blank, is_whitespace, is_whitespace_char, push_char, str_eq};
use vstd::prelude::*;
use vstd::string::StrSliceExecFns;
use vstd::string::StringExecFns;

verus! {

/// Parameters of the subject lookup tool.
pub struct LookupCrateTool {
    /// Subject name
    pub crate_name: String,
    /// Version (optional, defaults to the latest)
    pub version: Option<String>,
    /// Output format: markdown, text or html
    pub format: Option<String>,
}

/// Parameters of the item lookup tool.
pub struct LookupItemTool {
    /// Subject name
    pub crate_name: String,
    /// Item path (for example `std::collections::HashMap`)
    pub item_path: String,
    /// Version (optional, defaults to the latest)
    pub version: Option<String>,
    /// Output format: markdown, text or html
    pub format: Option<String>,
}

/// The ASCII lowercase of a character; anything outside `A`..`Z` stays.
pub open spec fn ascii_lower_char(c: char) -> char {
    if c == 'A' {
        'a'
    } else if c == 'B' {
        'b'
    } else if c == 'C' {
        'c'
    } else if c == 'D' {
        'd'
    } else if c == 'E' {
        'e'
    } else if c == 'F' {
        'f'
    } else if c == 'G' {
        'g'
    } else if c == 'H' {
        'h'
    } else if c == 'I' {
        'i'
    } else if c == 'J' {
        'j'
    } else if c == 'K' {
        'k'
    } else if c == 'L' {
        'l'
    } else if c == 'M' {
        'm'
    } else if c == 'N' {
        'n'
    } else if c == 'O' {
        'o'
    } else if c == 'P' {
        'p'
    } else if c == 'Q' {
        'q'
    } else if c == 'R' {
        'r'
    } else if c == 'S' {
        's'
    } else if c == 'T' {
        't'
    } else if c == 'U' {
        'u'
    } else if c == 'V' {
        'v'
    } else if c == 'W' {
        'w'
    } else if c == 'X' {
        'x'
    } else if c == 'Y' {
        'y'
    } else if c == 'Z' {
        'z'
    } else {
        c
    }
}

/// Lower a character to ASCII lowercase.
pub fn to_ascii_lower(c: char) -> (r: char)
    ensures
        r == ascii_lower_char(c),
{
    if c == 'A' {
        'a'
    } else if c == 'B' {
        'b'
    } else if c == 'C' {
        'c'
    } else if c == 'D' {
        'd'
    } else if c == 'E' {
        'e'
    } else if c == 'F' {
        'f'
    } else if c == 'G' {
        'g'
    } else if c == 'H' {
        'h'
    } else if c == 'I' {
        'i'
    } else if c == 'J' {
        'j'
    } else if c == 'K' {
        'k'
    } else if c == 'L' {
        'l'
    } else if c == 'M' {
        'm'
    } else if c == 'N' {
        'n'
    } else if c == 'O' {
        'o'
    } else if c == 'P' {
        'p'
    } else if c == 'Q' {
        'q'
    } else if c == 'R' {
        'r'
    } else if c == 'S' {
        's'
    } else if c == 'T' {
        't'
    } else if c == 'U' {
        'u'
    } else if c == 'V' {
        'v'
    } else if c == 'W' {
        'w'
    } else if c == 'X' {
        'x'
    } else if c == 'Y' {
        'y'
    } else if c == 'Z' {
        'z'
    } else {
        c
    }
}

/// A character sequence lowered to ASCII lowercase.
pub open spec fn ascii_lower_seq(s: Seq<char>) -> Seq<char> {
    Seq::new(s.len(), |i: int| ascii_lower_char(s[i]))
}

/// The first position at or after `j` holding `>`, or the length.
pub open spec fn find_gt(s: Seq<char>, j: int) -> int
    decreases s.len() - j,
{
    if j < 0 || j >= s.len() {
        s.len() as int
    } else if s[j] == '>' {
        j
    } else {
        find_gt(s, j + 1)
    }
}

/// The first position at or after `j` holding `>` or whitespace, or the
/// length; a tag's name runs from just after `<` to here.
pub open spec fn tag_end(s: Seq<char>, j: int) -> int
    decreases s.len() - j,
{
    if j < 0 || j >= s.len() {
        s.len() as int
    } else if s[j] == '>' || is_whitespace_char(s[j]) {
        j
    } else {
        tag_end(s, j + 1)
    }
}

/// The first position at or after `j` holding `;`, or the length; an HTML
/// entity runs from just after `&` to here.
pub open spec fn find_semi(s: Seq<char>, j: int) -> int
    decreases s.len() - j,
{
    if j < 0 || j >= s.len() {
        s.len() as int
    } else if s[j] == ';' {
        j
    } else {
        find_semi(s, j + 1)
    }
}

proof fn lemma_find_gt_bounds(s: Seq<char>, j: int)
    requires
        0 <= j <= s.len(),
    ensures
        j <= find_gt(s, j) <= s.len(),
    decreases s.len() - j,
{
    if j < s.len() && s[j] != '>' {
        lemma_find_gt_bounds(s, j + 1);
    }
}

proof fn lemma_find_semi_bounds(s: Seq<char>, j: int)
    requires
        0 <= j <= s.len(),
    ensures
        j <= find_semi(s, j) <= s.len(),
    decreases s.len() - j,
{
    if j < s.len() && s[j] != ';' {
        lemma_find_semi_bounds(s, j + 1);
    }
}

proof fn lemma_tag_end_bounds(s: Seq<char>, j: int)
    requires
        0 <= j <= s.len(),
    ensures
        j <= tag_end(s, j) <= s.len(),
    decreases s.len() - j,
{
    if j < s.len() && !(s[j] == '>' || is_whitespace_char(s[j])) {
        lemma_tag_end_bounds(s, j + 1);
    }
}

/// A tag name with its leading slashes removed.
pub open spec fn strip_slashes(name: Seq<char>) -> Seq<char>
    decreases name.len(),
{
    if name.len() > 0 && name[0] == '/' {
        strip_slashes(name.drop_first())
    } else {
        name
    }
}

/// The tags whose whole content is dropped from cleaned output.
pub open spec fn is_skip_tag(pure: Seq<char>) -> bool {
    pure == "script"@ || pure == "style"@ || pure == "noscript"@ || pure == "iframe"@
}

/// What cleaning leaves of the input from position `i` on, with `depth`
/// nested skip-tags open: tags and text inside a skip-tag are dropped, the
/// skip-tags themselves are dropped too, and everything else is kept as it
/// stands.
pub open spec fn clean_html_spec(s: Seq<char>, i: int, depth: int) -> Seq<char>
    decreases s.len() - i,
    via clean_html_spec_dec
{
    if i < 0 || i >= s.len() {
        Seq::empty()
    } else if s[i] == '<' {
        let ne = tag_end(s, i + 1);
        let lower = ascii_lower_seq(s.subrange(i + 1, ne));
        let closing = lower.len() > 0 && lower[0] == '/';
        let pure = strip_slashes(lower);
        let gt = find_gt(s, i + 1);
        let j = if gt < s.len() {
            gt + 1
        } else {
            s.len() as int
        };
        if is_skip_tag(pure) {
            if closing {
                clean_html_spec(
                    s,
                    j,
                    if depth > 0 {
                        depth - 1
                    } else {
                        0
                    },
                )
            } else {
                clean_html_spec(s, j, depth + 1)
            }
        } else {
            if depth == 0 {
                s.subrange(i, j) + clean_html_spec(s, j, depth)
            } else {
                clean_html_spec(s, j, depth)
            }
        }
    } else {
        if depth == 0 {
            seq![s[i]] + clean_html_spec(s, i + 1, depth)
        } else {
            clean_html_spec(s, i + 1, depth)
        }
    }
}

#[via_fn]
proof fn clean_html_spec_dec(s: Seq<char>, i: int, depth: int) {
    if 0 <= i < s.len() {
        lemma_find_gt_bounds(s, i + 1);
    }
}

/// The replacement of a named HTML entity; unknown entities vanish.
pub open spec fn entity_replacement(ent: Seq<char>) -> Seq<char> {
    if ent == "lt"@ {
        "<"@
    } else if ent == "gt"@ {
        ">"@
    } else if ent == "amp"@ {
        "&"@
    } else if ent == "quot"@ {
        "\""@
    } else if ent == "apos"@ {
        "'"@
    } else if ent == "nbsp"@ {
        " "@
    } else {
        Seq::empty()
    }
}

/// What the text extraction yields from position `i` on: tags are dropped
/// and followed by one space, the content of script-like tags is dropped,
/// and the common named entities are decoded.
pub open spec fn html_text_spec(s: Seq<char>, i: int, skip: bool) -> Seq<char>
    decreases s.len() - i,
    via html_text_spec_dec
{
    if i < 0 || i >= s.len() {
        Seq::empty()
    } else if s[i] == '<' {
        let ne = tag_end(s, i + 1);
        let lower = ascii_lower_seq(s.subrange(i + 1, ne));
        let closing = lower.len() > 0 && lower[0] == '/';
        let pure = strip_slashes(lower);
        let skip2 = if closing {
            false
        } else if !skip {
            is_skip_tag(pure)
        } else {
            true
        };
        let gt = find_gt(s, i + 1);
        let j = if gt < s.len() {
            gt + 1
        } else {
            s.len() as int
        };
        if !skip2 {
            seq![' '] + html_text_spec(s, j, skip2)
        } else {
            html_text_spec(s, j, skip2)
        }
    } else if s[i] == '&' {
        let sc = find_semi(s, i + 1);
        let ent = s.subrange(i + 1, sc);
        let j = if sc < s.len() {
            sc + 1
        } else {
            s.len() as int
        };
        entity_replacement(ent) + html_text_spec(s, j, skip)
    } else {
        if skip {
            html_text_spec(s, i + 1, skip)
        } else {
            seq![s[i]] + html_text_spec(s, i + 1, skip)
        }
    }
}

#[via_fn]
proof fn html_text_spec_dec(s: Seq<char>, i: int, skip: bool) {
    if 0 <= i < s.len() {
        lemma_find_gt_bounds(s, i + 1);
        lemma_find_semi_bounds(s, i + 1);
    }
}

/// Whitespace normalization: runs of whitespace between words become one
/// space, and leading and trailing whitespace goes away. `emitted` says
/// whether a word has been written already, `pending` whether whitespace
/// was seen since.
pub open spec fn clean_ws_spec(s: Seq<char>, i: int, emitted: bool, pending: bool) -> Seq<char>
    decreases s.len() - i,
{
    if i < 0 || i >= s.len() {
        Seq::empty()
    } else if is_whitespace_char(s[i]) {
        clean_ws_spec(s, i + 1, emitted, pending || emitted)
    } else {
        if pending {
            seq![' ', s[i]] + clean_ws_spec(s, i + 1, true, false)
        } else {
            seq![s[i]] + clean_ws_spec(s, i + 1, true, false)
        }
    }
}

fn seek_gt(s: &str, from: usize, n: usize) -> (r: usize)
    requires
        from <= n,
        n == s@.len(),
    ensures
        r as int == find_gt(s@, from as int),
        from <= r <= n,
{
    let mut j = from;
    while j < n
        invariant
            from <= j <= n,
            n == s@.len(),
            find_gt(s@, from as int) == find_gt(s@, j as int),
        decreases n - j,
    {
        if s.get_char(j) == '>' {
            return j;
        }
        j += 1;
    }
    j
}

fn seek_tag_end(s: &str, from: usize, n: usize) -> (r: usize)
    requires
        from <= n,
        n == s@.len(),
    ensures
        r as int == tag_end(s@, from as int),
        from <= r <= n,
{
    let mut j = from;
    while j < n
        invariant
            from <= j <= n,
            n == s@.len(),
            tag_end(s@, from as int) == tag_end(s@, j as int),
        decreases n - j,
    {
        let c = s.get_char(j);
        if c == '>' || is_whitespace(c) {
            return j;
        }
        j += 1;
    }
    j
}

fn seek_semi(s: &str, from: usize, n: usize) -> (r: usize)
    requires
        from <= n,
        n == s@.len(),
    ensures
        r as int == find_semi(s@, from as int),
        from <= r <= n,
{
    let mut j = from;
    while j < n
        invariant
            from <= j <= n,
            n == s@.len(),
            find_semi(s@, from as int) == find_semi(s@, j as int),
        decreases n - j,
    {
        if s.get_char(j) == ';' {
            return j;
        }
        j += 1;
    }
    j
}

fn matches_lowered(s: &str, from: usize, to: usize, kw: &str) -> (r: bool)
    requires
        from <= to <= s@.len(),
    ensures
        r == (ascii_lower_seq(s@.subrange(from as int, to as int)) == kw@),
{
    let klen = kw.unicode_len();
    if to - from != klen {
        proof {
            assert(ascii_lower_seq(s@.subrange(from as int, to as int)).len() != kw@.len());
        }
        return false;
    }
    let mut t: usize = 0;
    while t < klen
        invariant
            t <= klen,
            from + klen <= s@.len(),
            to == from + klen,
            klen == kw@.len(),
            forall|q: int| 0 <= q < t ==> ascii_lower_char(s@[from + q]) == kw@[q],
        decreases klen - t,
    {
        if to_ascii_lower(s.get_char(from + t)) != kw.get_char(t) {
            proof {
                let idx = t as int;
                assert(ascii_lower_seq(s@.subrange(from as int, to as int))[idx] != kw@[idx]);
            }
            return false;
        }
        t += 1;
    }
    proof {
        assert(ascii_lower_seq(s@.subrange(from as int, to as int)) =~= kw@);
    }
    true
}

/// What a scanned tag means: where its name ends, whether it closes,
/// whether it is one of the dropped tags, and where scanning continues.
struct TagScan {
    closing: bool,
    skip_tag: bool,
    next: usize,
}

fn scan_tag(s: &str, i: usize, n: usize) -> (r: TagScan)
    requires
        i < n,
        n == s@.len(),
    ensures
        ({
            let ne = tag_end(s@, i + 1);
            let lower = ascii_lower_seq(s@.subrange(i + 1, ne));
            let gt = find_gt(s@, i + 1);
            r.closing == (lower.len() > 0 && lower[0] == '/') && r.skip_tag == is_skip_tag(
                strip_slashes(lower),
            ) && r.next as int == (if gt < s@.len() {
                gt + 1
            } else {
                s@.len() as int
            }) && i < r.next <= n
        }),
{
    let ne = seek_tag_end(s, i + 1, n);
    let gt = seek_gt(s, i + 1, n);
    let next = if gt < n {
        gt + 1
    } else {
        n
    };
    let closing = ne > i + 1 && s.get_char(i + 1) == '/';
    proof {
        let lower = ascii_lower_seq(s@.subrange(i + 1, ne as int));
        if ne > i + 1 {
            assert(lower[0] == ascii_lower_char(s@[i + 1]));
            assert(ascii_lower_char(s@[i + 1]) == '/' <==> s@[i + 1] == '/');
        }
    }
    let mut p = i + 1;
    while p < ne && s.get_char(p) == '/'
        invariant
            i + 1 <= p <= ne,
            ne as int == tag_end(s@, i + 1),
            ne <= n,
            n == s@.len(),
            strip_slashes(ascii_lower_seq(s@.subrange(i + 1, ne as int))) == strip_slashes(
                ascii_lower_seq(s@.subrange(p as int, ne as int)),
            ),
        decreases ne - p,
    {
        proof {
            let cur = ascii_lower_seq(s@.subrange(p as int, ne as int));
            assert(cur[0] == ascii_lower_char(s@[p as int]));
            assert(cur[0] == '/');
            assert(cur.drop_first() =~= ascii_lower_seq(s@.subrange(p + 1, ne as int)));
        }
        p += 1;
    }
    proof {
        let cur = ascii_lower_seq(s@.subrange(p as int, ne as int));
        if p < ne {
            assert(cur[0] == ascii_lower_char(s@[p as int]));
            assert(ascii_lower_char(s@[p as int]) == '/' <==> s@[p as int] == '/');
            assert(cur.len() > 0 && cur[0] != '/');
        } else {
            assert(cur.len() == 0);
        }
        assert(strip_slashes(cur) == cur);
    }
    let skip_tag = matches_lowered(s, p, ne, "script") || matches_lowered(s, p, ne, "style")
        || matches_lowered(s, p, ne, "noscript") || matches_lowered(s, p, ne, "iframe");
    TagScan { closing, skip_tag, next }
}

/// Clean HTML: drop script, style, noscript and iframe tags with all their
/// content, and keep everything else exactly as it stands.
pub fn clean_html(html: &str) -> (r: String)
    ensures
        r@ == clean_html_spec(html@, 0, 0),
{
    let n = html.unicode_len();
    let mut result = String::new();
    let mut i: usize = 0;
    let mut depth: usize = 0;
    while i < n
        invariant
            i <= n,
            depth <= i,
            n == html@.len(),
            clean_html_spec(html@, 0, 0) =~= result@ + clean_html_spec(
                html@,
                i as int,
                depth as int,
            ),
        decreases n - i,
    {
        let ghost pre_i = i as int;
        let ghost pre_depth = depth as int;
        let c = html.get_char(i);
        if c == '<' {
            let scan = scan_tag(html, i, n);
            if scan.skip_tag {
                if scan.closing {
                    if depth > 0 {
                        depth -= 1;
                    }
                } else {
                    depth += 1;
                }
            } else {
                if depth == 0 {
                    let tag = html.substring_char(i, scan.next);
                    result.append(tag);
                }
            }
            i = scan.next;
        } else {
            if depth == 0 {
                push_char(&mut result, c);
            }
            i += 1;
        }
        proof {
            assert(clean_html_spec(html@, 0, 0) =~= result@ + clean_html_spec(
                html@,
                i as int,
                depth as int,
            ));
        }
    }
    result
}

/// Turn HTML into plain text: drop every tag (leaving one space in its
/// place), drop the content of script-like tags, decode the common named
/// entities, and normalize whitespace.
pub fn html_to_text(html: &str) -> (r: String)
    ensures
        r@ == clean_ws_spec(html_text_spec(html@, 0, false), 0, false, false),
{
    let n = html.unicode_len();
    let mut text = String::new();
    let mut i: usize = 0;
    let mut skip: bool = false;
    while i < n
        invariant
            i <= n,
            n == html@.len(),
            html_text_spec(html@, 0, false) =~= text@ + html_text_spec(html@, i as int, skip),
        decreases n - i,
    {
        let c = html.get_char(i);
        if c == '<' {
            let scan = scan_tag(html, i, n);
            if scan.closing {
                skip = false;
            } else if !skip {
                skip = scan.skip_tag;
            }
            if !skip {
                push_char(&mut text, ' ');
            }
            i = scan.next;
        } else if c == '&' {
            let sc = seek_semi(html, i + 1, n);
            let ent = html.substring_char(i + 1, sc);
            if str_eq(ent, "lt") {
                push_char(&mut text, '<');
                proof {
                    reveal_strlit("<");
                    assert(entity_replacement(ent@) =~= seq!['<']);
                }
            } else if str_eq(ent, "gt") {
                push_char(&mut text, '>');
                proof {
                    reveal_strlit(">");
                    assert(entity_replacement(ent@) =~= seq!['>']);
                }
            } else if str_eq(ent, "amp") {
                push_char(&mut text, '&');
                proof {
                    reveal_strlit("&");
                    assert(entity_replacement(ent@) =~= seq!['&']);
                }
            } else if str_eq(ent, "quot") {
                push_char(&mut text, '"');
                proof {
                    reveal_strlit("\"");
                    assert(entity_replacement(ent@) =~= seq!['"']);
                }
            } else if str_eq(ent, "apos") {
                push_char(&mut text, '\'');
                proof {
                    reveal_strlit("'");
                    assert(entity_replacement(ent@) =~= seq!['\'']);
                }
            } else if str_eq(ent, "nbsp") {
                push_char(&mut text, ' ');
                proof {
                    reveal_strlit(" ");
                    assert(entity_replacement(ent@) =~= seq![' ']);
                }
            } else {
                proof {
                    assert(entity_replacement(ent@) =~= Seq::<char>::empty());
                }
            }
            if sc < n {
                i = sc + 1;
            } else {
                i = n;
            }
        } else {
            if !skip {
                push_char(&mut text, c);
            }
            i += 1;
        }
        proof {
            assert(html_text_spec(html@, 0, false) =~= text@ + html_text_spec(
                html@,
                i as int,
                skip,
            ));
        }
    }
    clean_whitespace(text.as_str())
}

/// What `html2md::parse_html` returns for a piece of HTML. The conversion
/// depends on the input text alone.
pub uninterp spec fn markdown_of(html: Seq<char>) -> Seq<char>;

/// Relies on `html2md::parse_html`: converts HTML to markdown, a pure
/// function of the input text.
#[verifier::external_body]
fn html_to_markdown(html: &str) -> (r: String)
    ensures
        r@ == markdown_of(html@),
{
    html2md::parse_html(html)
}

/// What `urlencoding::encode` returns for a string. The percent-encoding
/// depends on the input text alone.
pub uninterp spec fn url_encoded(s: Seq<char>) -> Seq<char>;

/// Relies on `urlencoding::encode`: percent-encodes every byte outside the
/// unreserved set, a pure function of the input text.
#[verifier::external_body]
pub(crate) fn url_encode(s: &str) -> (r: String)
    ensures
        r@ == url_encoded(s@),
{
    urlencoding::encode(s).into_owned()
}

/// Extract readable documentation from a fetched page: clean the HTML,
/// then convert it to markdown.
pub fn extract_documentation(html: &str) -> (r: String)
    ensures
        r@ == markdown_of(clean_html_spec(html@, 0, 0)),
{
    let cleaned = clean_html(html);
    html_to_markdown(cleaned.as_str())
}

/// What the search extraction renders: a not-found notice when the
/// converted page is blank, the titled markdown otherwise.
pub open spec fn spec_search_results_text(md: Seq<char>, item_path: Seq<char>) -> Seq<char> {
    if (forall|i: int| 0 <= i < md.len() ==> is_whitespace_char(#[trigger] md[i])) {
        "未找到项目 '"@ + item_path + "' 的文档"@
    } else {
        "## 搜索结果: "@ + item_path + "\n\n"@ + md
    }
}

/// Extract search results from a fetched page: clean the HTML, convert it
/// to markdown, and title the outcome, or report that nothing was found.
pub fn extract_search_results(html: &str, item_path: &str) -> (r: String)
    ensures
        r@ == spec_search_results_text(markdown_of(clean_html_spec(html@, 0, 0)), item_path@),
{
    let cleaned = clean_html(html);
    let markdown = html_to_markdown(cleaned.as_str());
    if is_blank(markdown.as_str()) {
        let mut s = String::from_str("未找到项目 '");
        s.append(item_path);
        s.append("' 的文档");
        s
    } else {
        let mut s = String::from_str("## 搜索结果: ");
        s.append(item_path);
        s.append("\n\n");
        s.append(markdown.as_str());
        s
    }
}

/// The address of a subject's documentation page.
pub open spec fn spec_crate_docs_url(name: Seq<char>, version: Option<Seq<char>>) -> Seq<char> {
    match version {
        Some(v) => "https://docs.rs/"@ + name + "/"@ + v + "/"@,
        None => "https://docs.rs/"@ + name + "/"@,
    }
}

/// Build the address of a subject's documentation page.
pub fn crate_docs_url(crate_name: &str, version: Option<&str>) -> (r: String)
    ensures
        r@ == spec_crate_docs_url(
            crate_name@,
            match version {
                Some(v) => Some(v@),
                None => None,
            },
        ),
{
    let mut s = String::from_str("https://docs.rs/");
    s.append(crate_name);
    s.append("/");
    match version {
        Some(v) => {
            s.append(v);
            s.append("/");
        },
        None => {
        },
    }
    s
}

/// The address of the search page for an item within a subject.
pub open spec fn spec_item_search_url(
    name: Seq<char>,
    item_path: Seq<char>,
    version: Option<Seq<char>>,
) -> Seq<char> {
    match version {
        Some(v) => "https://docs.rs/"@ + name + "/"@ + v + "/?search="@ + url_encoded(item_path),
        None => "https://docs.rs/"@ + name + "/?search="@ + url_encoded(item_path),
    }
}

/// Build the address of the search page for an item within a subject.
pub fn item_search_url(crate_name: &str, item_path: &str, version: Option<&str>) -> (r: String)
    ensures
        r@ == spec_item_search_url(
            crate_name@,
            item_path@,
            match version {
                Some(v) => Some(v@),
                None => None,
            },
        ),
{
    let mut s = String::from_str("https://docs.rs/");
    s.append(crate_name);
    match version {
        Some(v) => {
            s.append("/");
            s.append(v);
            s.append("/?search=");
        },
        None => {
            s.append("/?search=");
        },
    }
    let encoded = url_encode(item_path);
    s.append(encoded.as_str());
    proof {
        assert(s@ =~= spec_item_search_url(
            crate_name@,
            item_path@,
            match version {
                Some(v) => Some(v@),
                None => None,
            },
        ));
    }
    s
}

/// Collapse every run of whitespace to one space and drop leading and
/// trailing whitespace.
pub fn clean_whitespace(text: &str) -> (r: String)
    ensures
        r@ == clean_ws_spec(text@, 0, false, false),
{
    let n = text.unicode_len();
    let mut out = String::new();
    let mut emitted: bool = false;
    let mut pending: bool = false;
    let mut i: usize = 0;
    while i < n
        invariant
            i <= n,
            n == text@.len(),
            clean_ws_spec(text@, 0, false, false) =~= out@ + clean_ws_spec(
                text@,
                i as int,
                emitted,
                pending,
            ),
        decreases n - i,
    {
        let c = text.get_char(i);
        if is_whitespace(c) {
            pending = pending || emitted;
        } else {
            if pending {
                push_char(&mut out, ' ');
            }
            push_char(&mut out, c);
            emitted = true;
            pending = false;
        }
        i += 1;
        proof {
            assert(clean_ws_spec(text@, 0, false, false) =~= out@ + clean_ws_spec(
                text@,
                i as int,
                emitted,
                pending,
            ));
        }
    }
    out
}

} // verus!
