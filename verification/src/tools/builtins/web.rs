//! The web tool: searching the web and fetching pages. The network work is
//! its driver's; here is what each request asks for and what its answer is.

use vstd::prelude::*;
use crate::outside::{json_field_bool, json_field_str, json_field_u64, json_get_bool, json_get_str, json_get_u64};
use crate::text::{
    chars_contain, chars_of, decimal, hex_digit, hex_digit_char, join, join_chars, push_char,
    push_decimal, replace_chars, replace_all, seq_contains, split_lines, split_lines_of,
    string_from_chars, trim, trim_chars, utf8_len, utf8_len_of, trim_start, trim_end, is_white_space,
};
use crate::tools::builtins::file::{text_field_or, unknown_action_message};
use crate::text::str_eq;

verus! {

broadcast use vstd::string::group_string_axioms;

/// The arguments of a search.
pub struct SearchArgs {
    pub query: String,
    pub num_results: usize,
}

/// The number of search results when the arguments give none.
pub fn default_count() -> (r: usize)
    ensures
        r == 5,
{
    5
}

/// The arguments of a fetch.
pub struct FetchArgs {
    pub url: String,
    pub extract_content: bool,
}

/// Searches the web and fetches pages.
pub struct WebTools;

/// A request to the web tool.
#[derive(Debug)]
pub enum WebOp {
    /// Fetch the search page `url` and keep at most `num_results` snippets.
    Search { url: String, num_results: usize },
    /// Fetch `url`, keeping the page's text only when `extract_content`.
    Fetch { url: String, extract_content: bool },
}

/// A characters left as they are in a URL.
pub open spec fn unreserved(c: char) -> bool {
    ('A' <= c <= 'Z') || ('a' <= c <= 'z') || ('0' <= c <= '9') || c == '-' || c == '_' || c
        == '.' || c == '~'
}

/// The encoding of one character: itself when unreserved, otherwise `%` and
/// two upper-case hex digits of its lowest byte.
pub open spec fn encode_char(c: char) -> Seq<char> {
    if unreserved(c) {
        seq![c]
    } else {
        let b = (c as u32) % 256;
        seq!['%', hex_digit_char((b / 16) as nat), hex_digit_char((b % 16) as nat)]
    }
}

/// The URL encoding of `s`, character by character.
pub open spec fn url_encode(s: Seq<char>) -> Seq<char>
    decreases s.len(),
{
    if s.len() == 0 {
        Seq::empty()
    } else {
        url_encode(s.drop_last()) + encode_char(s.last())
    }
}

/// The address of the search page for `query`.
pub open spec fn search_url(query: Seq<char>) -> Seq<char> {
    "https://html.duckduckgo.com/html/?q="@ + url_encode(query)
}

/// The request `args` makes: a search (by default) for the query (empty by
/// default) keeping `num_results` results (5 by default), or a fetch of the
/// URL (empty by default), extracting the page's text when `extract_content`
/// is true (false by default). As a tuple: whether it is a search, the URL,
/// the number of results and whether to extract.
pub open spec fn web_request(args: serde_json::Value) -> Result<(bool, Seq<char>, usize, bool), Seq<char>> {
    let action = text_field_or(args, "action"@, "search"@);
    if action == "search"@ {
        let n = match json_field_u64(args, "num_results"@) {
            Some(n) => n,
            None => 5u64,
        };
        Ok((true, search_url(text_field_or(args, "query"@, ""@)), n as usize, false))
    } else if action == "fetch"@ {
        let extract = match json_field_bool(args, "extract_content"@) {
            Some(b) => b,
            None => false,
        };
        Ok((false, text_field_or(args, "url"@, ""@), 0, extract))
    } else {
        Err(unknown_action_message(action))
    }
}

/// The characters of `s` outside markup tags, `inside` telling whether `s`
/// starts within a tag: a tag runs from `<` to the next `>`.
pub open spec fn untagged(s: Seq<char>, inside: bool) -> Seq<char>
    decreases s.len(),
{
    if s.len() == 0 {
        Seq::empty()
    } else if inside {
        untagged(s.drop_first(), s[0] != '>')
    } else if s[0] == '<' {
        untagged(s.drop_first(), true)
    } else {
        seq![s[0]] + untagged(s.drop_first(), false)
    }
}

/// The main text of the page `html`: its text outside tags, trimmed.
pub open spec fn page_text(html: Seq<char>) -> Seq<char> {
    trim(untagged(html, false))
}

/// The answer to a fetch that returned `body`: the body itself, or its main
/// text when extraction was asked for.
pub open spec fn fetched_content(body: Seq<char>, extract: bool) -> Seq<char> {
    if extract {
        page_text(body)
    } else {
        body
    }
}

/// A line of a search page that holds a result snippet.
pub open spec fn is_snippet_line(l: Seq<char>) -> bool {
    seq_contains(l, "result__snippet"@)
}

/// A snippet line, trimmed, without bold tags and with `&amp;` and `&quot;`
/// decoded.
pub open spec fn clean_snippet(l: Seq<char>) -> Seq<char> {
    replace_all(
        replace_all(replace_all(replace_all(trim(l), "<b>"@, ""@), "</b>"@, ""@), "&amp;"@, "&"@),
        "&quot;"@,
        "\""@,
    )
}

/// The first `num` snippets of the search page `html`, cleaned, separated by
/// blank lines.
pub open spec fn snippets(html: Seq<char>, num: nat) -> Seq<char> {
    let marked = split_lines(html).filter(|l: Seq<char>| is_snippet_line(l));
    let k = if num < marked.len() { num } else { marked.len() };
    join(marked.take(k as int).map_values(|l: Seq<char>| clean_snippet(l)), "\n\n"@)
}

fn text_or(args: &serde_json::Value, key: &str, default: &str) -> (r: String)
    ensures
        r@ == text_field_or(*args, key@, default@),
{
    match json_get_str(args, key) {
        Some(t) => t,
        None => default.to_owned(),
    }
}

/// The URL encoding of `s`: unreserved characters as they are, others as `%`
/// and two upper-case hex digits of their lowest byte.
pub fn encode(s: &str) -> (r: String)
    ensures
        r@ == url_encode(s@),
{
    let v = chars_of(s);
    let n = v.len();
    let mut out = String::new();
    assert(v@.take(0) =~= Seq::<char>::empty());
    for i in 0..n
        invariant
            n == v@.len(),
            out@ == url_encode(v@.take(i as int)),
    {
        let c = v[i];
        assert(v@.take(i + 1).drop_last() =~= v@.take(i as int));
        let ghost before = out@;
        if ('A' <= c && c <= 'Z') || ('a' <= c && c <= 'z') || ('0' <= c && c <= '9') || c == '-'
            || c == '_' || c == '.' || c == '~' {
            push_char(&mut out, c);
            assert(out@ =~= before + encode_char(c));
        } else {
            let b: u32 = (c as u32) % 256;
            push_char(&mut out, '%');
            push_char(&mut out, hex_digit((b / 16) as u8));
            push_char(&mut out, hex_digit((b % 16) as u8));
            assert(out@ =~= before + encode_char(c));
        }
    }
    assert(v@.take(n as int) =~= v@);
    out
}

/// A snippet line, cleaned.
fn clean(l: &Vec<char>) -> (r: Vec<char>)
    ensures
        r@ == clean_snippet(l@),
{
    let t = trim_chars(l);
    let empty: Vec<char> = Vec::new();
    let b_open = chars_of("<b>");
    let b_close = chars_of("</b>");
    let amp = chars_of("&amp;");
    let amp_plain = chars_of("&");
    let quot = chars_of("&quot;");
    let quot_plain = chars_of("\"");
    proof {
        reveal_strlit("<b>");
        reveal_strlit("</b>");
        reveal_strlit("&amp;");
        reveal_strlit("&quot;");
        reveal_strlit("");
    }
    assert(empty@ =~= ""@);
    let a = replace_chars(&t, &b_open, &empty);
    let b = replace_chars(&a, &b_close, &empty);
    let c = replace_chars(&b, &amp, &amp_plain);
    replace_chars(&c, &quot, &quot_plain)
}

impl WebTools {
    pub fn new() -> (r: Self) {
        WebTools
    }

    /// The tool's name.
    pub fn name(&self) -> (r: &'static str)
        ensures
            r@ == "web"@,
    {
        "web"
    }

    /// The tool's description.
    pub fn description(&self) -> (r: &'static str)
        ensures
            r@ == "Search the web or fetch a URL's content"@,
    {
        "Search the web or fetch a URL's content"
    }

    /// The request `args` makes, or the error for an unknown action.
    pub fn plan(&self, args: &serde_json::Value) -> (r: Result<WebOp, String>)
        ensures
            match r {
                Ok(WebOp::Search { url, num_results }) => web_request(*args) == Ok::<
                    (bool, Seq<char>, usize, bool),
                    Seq<char>,
                >((true, url@, num_results, false)),
                Ok(WebOp::Fetch { url, extract_content }) => web_request(*args) == Ok::<
                    (bool, Seq<char>, usize, bool),
                    Seq<char>,
                >((false, url@, 0, extract_content)),
                Err(e) => web_request(*args) == Err::<(bool, Seq<char>, usize, bool), Seq<char>>(
                    e@,
                ),
            },
    {
        let action = text_or(args, "action", "search");
        proof {
            reveal_strlit("search");
            reveal_strlit("fetch");
        }
        if str_eq(action.as_str(), "search") {
            let query = text_or(args, "query", "");
            let num: u64 = match json_get_u64(args, "num_results") {
                Some(n) => n,
                None => 5,
            };
            let mut url = String::new();
            url.append("https://html.duckduckgo.com/html/?q=");
            url.append(encode(query.as_str()).as_str());
            Ok(WebOp::Search { url, num_results: #[verifier::truncate] (num as usize) })
        } else if str_eq(action.as_str(), "fetch") {
            let extract_content = match json_get_bool(args, "extract_content") {
                Some(b) => b,
                None => false,
            };
            Ok(WebOp::Fetch { url: text_or(args, "url", ""), extract_content })
        } else {
            let mut m = String::new();
            m.append("Unknown action: ");
            m.append(action.as_str());
            Err(m)
        }
    }

    /// The answer to a search: the first `num_results` snippets of the page
    /// `html`, cleaned, separated by blank lines.
    pub fn extract_snippets(&self, html: &str, num_results: usize) -> (r: String)
        ensures
            r@ == snippets(html@, num_results as nat),
    {
        let hv = chars_of(html);
        let lines = split_lines_of(&hv);
        let ghost views = lines@.map_values(|l: Vec<char>| l@);
        let ghost marked = views.filter(|l: Seq<char>| is_snippet_line(l));
        let marker = chars_of("result__snippet");
        let n = lines.len();
        let mut kept: Vec<Vec<char>> = Vec::new();
        let mut i: usize = 0;
        assert(views.take(0).filter(|l: Seq<char>| is_snippet_line(l)) =~= Seq::<Seq<char>>::empty());
        while i < n && kept.len() < num_results
            invariant
                n == lines@.len(),
                i <= n,
                views == lines@.map_values(|l: Vec<char>| l@),
                views == split_lines(html@),
                marked == views.filter(|l: Seq<char>| is_snippet_line(l)),
                marker@ == "result__snippet"@,
                kept@.len() <= num_results,
                kept@.map_values(|l: Vec<char>| l@) == views.take(i as int).filter(
                    |l: Seq<char>| is_snippet_line(l),
                ).map_values(|l: Seq<char>| clean_snippet(l)),
            decreases n - i,
        {
            let ghost before = kept@.map_values(|l: Vec<char>| l@);
            assert(views.take(i + 1).drop_last() =~= views.take(i as int));
            assert(views[i as int] == lines@[i as int]@);
            reveal_with_fuel(Seq::filter, 1);
            if chars_contain(&lines[i], &marker) {
                let c = clean(&lines[i]);
                kept.push(c);
                assert(kept@.map_values(|l: Vec<char>| l@) =~= before.push(clean_snippet(views[i as int])));
            } else {
                assert(kept@.map_values(|l: Vec<char>| l@) =~= before);
            }
            i += 1;
        }
        proof {
            let p = |l: Seq<char>| is_snippet_line(l);
            let got = views.take(i as int).filter(p);
            lemma_filter_take_len(views, i as int, p);
            let k = if (num_results as nat) < marked.len() { num_results as nat } else { marked.len() };
            if i == n {
                assert(views.take(i as int) =~= views);
            }
            assert(got.len() == k);
            lemma_filter_prefix(views, i as int, p, k);
            assert(got.take(k as int) =~= got);
            assert(marked.take(k as int).map_values(|l: Seq<char>| clean_snippet(l)) =~= got.map_values(
                |l: Seq<char>| clean_snippet(l),
            ));
        }
        let sep = chars_of("\n\n");
        let joined = join_chars(&kept, &sep);
        string_from_chars(joined.as_slice())
    }

    /// The answer to a fetch whose page body is `body`: the body itself, or
    /// its main text (outside tags, trimmed) when `extract_content`.
    pub fn fetch_content(&self, body: &str, extract_content: bool) -> (r: String)
        ensures
            r@ == fetched_content(body@, extract_content),
    {
        if !extract_content {
            return body.to_owned();
        }
        let v = chars_of(body);
        let n = v.len();
        let mut out: Vec<char> = Vec::new();
        let mut inside = false;
        let mut i: usize = 0;
        assert(v@.skip(0) =~= v@);
        while i < n
            invariant
                n == v@.len(),
                v@ == body@,
                i <= n,
                out@ + untagged(v@.skip(i as int), inside) == untagged(v@, false),
            decreases n - i,
        {
            let c = v[i];
            assert(v@.skip(i as int).drop_first() =~= v@.skip(i + 1));
            assert(v@.skip(i as int)[0] == c);
            if inside {
                inside = c != '>';
            } else if c == '<' {
                inside = true;
            } else {
                assert(out@.push(c) + untagged(v@.skip(i + 1), false) =~= out@ + (seq![c] + untagged(
                    v@.skip(i + 1),
                    false,
                )));
                out.push(c);
            }
            i += 1;
        }
        assert(v@.skip(n as int) =~= Seq::<char>::empty());
        assert(out@ =~= untagged(body@, false));
        let t = trim_chars(&out);
        string_from_chars(t.as_slice())
    }
}

/// A prefix keeps no more elements than the whole.
proof fn lemma_filter_take_len(s: Seq<Seq<char>>, i: int, p: spec_fn(Seq<char>) -> bool)
    requires
        0 <= i <= s.len(),
    ensures
        s.take(i).filter(p).len() <= s.filter(p).len(),
    decreases s.len() - i,
{
    if i < s.len() {
        lemma_filter_take_len(s, i + 1, p);
        assert(s.take(i + 1).drop_last() =~= s.take(i));
        reveal_with_fuel(Seq::filter, 1);
    } else {
        assert(s.take(i) =~= s);
    }
}

/// Scanning `s` up to `i` keeps the first `k` kept elements of the whole
/// when either the scan is complete or it has already kept `k`.
proof fn lemma_filter_prefix(s: Seq<Seq<char>>, i: int, p: spec_fn(Seq<char>) -> bool, k: nat)
    requires
        0 <= i <= s.len(),
        k <= s.filter(p).len(),
        i == s.len() || s.take(i).filter(p).len() >= k,
    ensures
        s.take(i).filter(p).take(k as int) == s.filter(p).take(k as int),
    decreases s.len() - i,
{
    if i < s.len() {
        assert(s.take(i + 1).drop_last() =~= s.take(i));
        reveal_with_fuel(Seq::filter, 1);
        if p(s[i]) {
            assert(s.take(i + 1).filter(p) == s.take(i).filter(p).push(s[i]));
            assert(s.take(i + 1).filter(p).take(k as int) =~= s.take(i).filter(p).take(k as int));
        } else {
            assert(s.take(i + 1).filter(p) == s.take(i).filter(p));
        }
        lemma_filter_prefix(s, i + 1, p, k);
    } else {
        assert(s.take(i) =~= s);
    }
}

impl Default for WebTools {
    fn default() -> (r: Self) {
        WebTools
    }
}

/// The value of an upper-case hexadecimal digit.
pub open spec fn hex_value(c: char) -> int {
    if '0' <= c <= '9' {
        c as int - 48
    } else {
        c as int - 55
    }
}

/// Percent-decoding: each `%` with the two characters after it becomes the
/// character of that hexadecimal code; other characters stay.
pub open spec fn url_decode(s: Seq<char>) -> Seq<char>
    decreases s.len(),
{
    if s.len() == 0 {
        Seq::empty()
    } else if s[0] == '%' && s.len() >= 3 {
        seq![((hex_value(s[1]) * 16 + hex_value(s[2])) as u8) as char] + url_decode(s.skip(3))
    } else {
        seq![s[0]] + url_decode(s.drop_first())
    }
}

/// A text of ASCII characters.
pub open spec fn is_ascii_text(s: Seq<char>) -> bool {
    forall|i: int| 0 <= i < s.len() ==> ((#[trigger] s[i]) as u32) < 128
}

/// A character `encode` may write: an unreserved one, `%`, or an
/// upper-case hexadecimal digit.
pub open spec fn url_char(c: char) -> bool {
    unreserved(c) || c == '%' || ('A' <= c <= 'F')
}

/// The encoding of a text is the encoding of its first character followed
/// by that of the rest.
proof fn lemma_encode_front(s: Seq<char>)
    requires
        s.len() > 0,
    ensures
        url_encode(s) == encode_char(s[0]) + url_encode(s.drop_first()),
    decreases s.len(),
{
    if s.len() == 1 {
        assert(s.drop_last() =~= Seq::<char>::empty());
        assert(s.drop_first() =~= Seq::<char>::empty());
        assert(url_encode(Seq::<char>::empty()) == Seq::<char>::empty());
        assert(encode_char(s[0]) + Seq::<char>::empty() =~= encode_char(s[0]));
    } else {
        lemma_encode_front(s.drop_last());
        assert(s.drop_last().drop_first() =~= s.drop_first().drop_last());
        assert(s.drop_first().last() == s.last());
        assert(s.drop_last()[0] == s[0]);
        assert(encode_char(s[0]) + url_encode(s.drop_last().drop_first()) + encode_char(s.last())
            =~= encode_char(s[0]) + (url_encode(s.drop_first().drop_last()) + encode_char(
            s.drop_first().last(),
        )));
    }
}

/// Decoding undoes the encoding of one ASCII character.
proof fn lemma_decode_char(c: char, rest: Seq<char>)
    requires
        (c as u32) < 128,
    ensures
        url_decode(encode_char(c) + rest) == seq![c] + url_decode(rest),
{
    let e = encode_char(c) + rest;
    if unreserved(c) {
        assert(e[0] == c);
        assert(e.drop_first() =~= rest);
    } else {
        let b = (c as u32) % 256;
        assert(b == c as u32);
        let hi = b / 16;
        let lo = b % 16;
        assert(hi < 8);
        assert(e[0] == '%');
        assert(e.skip(3) =~= rest);
        assert(e[1] == hex_digit_char(hi as nat));
        assert(e[2] == hex_digit_char(lo as nat));
        assert(hex_value(hex_digit_char(hi as nat)) == hi);
        assert(hex_value(hex_digit_char(lo as nat)) == lo);
        assert(hi * 16 + lo == b);
        assert(((b as int) as u8) as char == c);
    }
}

/// Every character `encode` writes is an unreserved one, `%`, or an
/// upper-case hexadecimal digit.
pub proof fn law_encode_alphabet(s: Seq<char>)
    ensures
        forall|i: int| 0 <= i < url_encode(s).len() ==> url_char(#[trigger] url_encode(s)[i]),
    decreases s.len(),
{
    if s.len() > 0 {
        law_encode_alphabet(s.drop_last());
        let c = s.last();
        let e = encode_char(c);
        if !unreserved(c) {
            let b = (c as u32) % 256;
            assert(url_char(hex_digit_char((b / 16) as nat)));
            assert(url_char(hex_digit_char((b % 16) as nat)));
        }
        assert forall|i: int| 0 <= i < url_encode(s).len() implies url_char(#[trigger] url_encode(s)[i]) by {
            let p = url_encode(s.drop_last());
            if i < p.len() {
                assert(url_encode(s)[i] == p[i]);
            } else {
                assert(url_encode(s)[i] == e[i - p.len()]);
            }
        }
    }
}

/// Percent-decoding gives back an ASCII text from its encoding; so `encode`
/// tells ASCII texts apart.
pub proof fn law_encode_decodes(s: Seq<char>)
    requires
        is_ascii_text(s),
    ensures
        url_decode(url_encode(s)) == s,
    decreases s.len(),
{
    if s.len() == 0 {
        assert(url_encode(s) == Seq::<char>::empty());
    } else {
        lemma_encode_front(s);
        let rest = s.drop_first();
        assert forall|i: int| 0 <= i < rest.len() implies ((#[trigger] rest[i]) as u32) < 128 by {
            assert(rest[i] == s[i + 1]);
        }
        law_encode_decodes(rest);
        assert((s[0] as u32) < 128);
        lemma_decode_char(s[0], url_encode(rest));
        assert(seq![s[0]] + rest =~= s);
    }
}

/// What a web request asks for, field by field: the action is the text of
/// `action` (a search when it has none); a search looks up the DuckDuckGo
/// HTML page for the URL-encoded text of `query` and keeps the number in
/// `num_results` of results (5 when missing); a fetch gets the text of `url`,
/// extracting the page's text when `extract_content` is true (false when
/// missing). A missing text is empty. Any other action is refused, naming it.
pub proof fn law_web_request_fields(args: serde_json::Value)
    ensures
        ({
            let action = json_field_str(args, "action"@);
            let query = match json_field_str(args, "query"@) {
                Some(q) => q,
                None => ""@,
            };
            let url = match json_field_str(args, "url"@) {
                Some(u) => u,
                None => ""@,
            };
            let num: u64 = match json_field_u64(args, "num_results"@) {
                Some(n) => n,
                None => 5,
            };
            let extract = match json_field_bool(args, "extract_content"@) {
                Some(b) => b,
                None => false,
            };
            &&& (action is None || action == Some("search"@)) ==> web_request(args) == Ok::<
                (bool, Seq<char>, usize, bool),
                Seq<char>,
            >((true, "https://html.duckduckgo.com/html/?q="@ + url_encode(query), num as usize, false))
            &&& action == Some("fetch"@) ==> web_request(args) == Ok::<
                (bool, Seq<char>, usize, bool),
                Seq<char>,
            >((false, url, 0, extract))
            &&& (action matches Some(a) && a != "search"@ && a != "fetch"@) ==> web_request(args)
                == Err::<(bool, Seq<char>, usize, bool), Seq<char>>("Unknown action: "@ + action->0)
        }),
{
    reveal_strlit("search");
    reveal_strlit("fetch");
    assert("search"@.len() == 6);
    assert("fetch"@.len() == 5);
    assert("search"@ != "fetch"@);
}

/// A fetch answer without extraction is the page body itself; with
/// extraction it holds no markup: no `<` is left outside the trimmed text's
/// tags, and a body without `<` is only trimmed.
pub proof fn law_fetch_content(body: Seq<char>)
    ensures
        fetched_content(body, false) == body,
        !body.contains('<') ==> fetched_content(body, true) == trim(body),
        !fetched_content(body, true).contains('<'),
{
    lemma_untagged_plain(body, false);
    lemma_untagged_no_open(body, false);
    lemma_trim_sub(untagged(body, false));
}

/// Outside any tag, a text without `<` keeps all its characters.
proof fn lemma_untagged_plain(s: Seq<char>, inside: bool)
    ensures
        !s.contains('<') && !inside ==> untagged(s, inside) == s,
    decreases s.len(),
{
    if s.len() > 0 {
        lemma_untagged_plain(s.drop_first(), false);
        if !s.contains('<') && !inside {
            assert(!s.drop_first().contains('<')) by {
                if s.drop_first().contains('<') {
                    let k = choose|k: int| 0 <= k < s.drop_first().len() && s.drop_first()[k] == '<';
                    assert(s[k + 1] == '<');
                }
            }
            assert(s[0] != '<');
            assert(seq![s[0]] + s.drop_first() =~= s);
        }
    } else {
        assert(s =~= Seq::<char>::empty());
    }
}

/// The text outside tags holds no `<`.
proof fn lemma_untagged_no_open(s: Seq<char>, inside: bool)
    ensures
        !untagged(s, inside).contains('<'),
    decreases s.len(),
{
    if s.len() > 0 {
        lemma_untagged_no_open(s.drop_first(), if inside { s[0] != '>' } else if s[0] == '<' { true } else { false });
        if !inside && s[0] != '<' {
            let r = untagged(s.drop_first(), false);
            assert forall|k: int| 0 <= k < (seq![s[0]] + r).len() implies (seq![s[0]] + r)[k] != '<' by {
                if k > 0 {
                    assert((seq![s[0]] + r)[k] == r[k - 1]);
                }
            }
        }
    }
}

/// Trimming keeps a text free of a character it is free of.
proof fn lemma_trim_sub(s: Seq<char>)
    ensures
        !s.contains('<') ==> !trim(s).contains('<'),
{
    lemma_trim_start_sub(s);
    lemma_trim_end_sub(trim_start(s));
}

proof fn lemma_trim_start_sub(s: Seq<char>)
    ensures
        !s.contains('<') ==> !trim_start(s).contains('<'),
    decreases s.len(),
{
    if s.len() > 0 && is_white_space(s[0]) {
        lemma_trim_start_sub(s.drop_first());
        if !s.contains('<') {
            assert(!s.drop_first().contains('<')) by {
                if s.drop_first().contains('<') {
                    let k = choose|k: int| 0 <= k < s.drop_first().len() && s.drop_first()[k] == '<';
                    assert(s[k + 1] == '<');
                }
            }
        }
    }
}

proof fn lemma_trim_end_sub(s: Seq<char>)
    ensures
        !s.contains('<') ==> !trim_end(s).contains('<'),
    decreases s.len(),
{
    if s.len() > 0 && is_white_space(s.last()) {
        lemma_trim_end_sub(s.drop_last());
        if !s.contains('<') {
            assert(!s.drop_last().contains('<')) by {
                if s.drop_last().contains('<') {
                    let k = choose|k: int| 0 <= k < s.drop_last().len() && s.drop_last()[k] == '<';
                    assert(s[k] == '<');
                }
            }
        }
    }
}

} // verus!
