use pangu_agent::tools::builtins::file::{default_limit, default_offset, FileOp, FileTools};
use pangu_agent::tools::builtins::shell::{default_timeout, ShellTool};
use pangu_agent::tools::builtins::web::{default_count, encode, WebOp, WebTools};
use pangu_agent::tools::executor::{ToolExecutor, ToolOutcome};
use pangu_agent::tools::registry::{ToolDef, ToolRegistry};

fn obj(pairs: &[(&str, serde_json::Value)]) -> serde_json::Value {
    let mut m = serde_json::Map::new();
    for (k, v) in pairs {
        m.insert(k.to_string(), v.clone());
    }
    serde_json::Value::Object(m)
}

fn s(v: &str) -> serde_json::Value {
    serde_json::Value::String(v.to_string())
}

#[test]
fn registry_register_enable_disable_unregister() {
    let mut r = ToolRegistry::new();
    r.register_dynamic("a", "first", serde_json::Value::Null).unwrap();
    r.register_dynamic("b", "second", serde_json::Value::Bool(true)).unwrap();
    assert_eq!(r.list().len(), 2);
    assert!(r.contains("a"));
    r.disable("a");
    let enabled: Vec<String> = r.list_enabled().into_iter().map(|d| d.name).collect();
    assert_eq!(enabled, vec!["b".to_string()]);
    assert!(!r.get_def("a").unwrap().enabled);
    r.enable("a");
    assert_eq!(r.list_enabled().len(), 2);
    r.register_dynamic("a", "replaced", serde_json::Value::Null).unwrap();
    assert_eq!(r.list().len(), 2);
    assert_eq!(r.get_def("a").unwrap().description, "replaced");
    r.register_def(ToolDef { name: "c".into(), description: "off".into(), parameters: serde_json::Value::Null, enabled: false });
    assert_eq!(r.list_enabled().len(), 2);
    r.unregister("a");
    assert!(r.get_def("a").is_none());
    assert!(!r.contains("a"));
    r.unregister("missing");
    assert_eq!(r.list().len(), 2);
    let copy = r.clone();
    assert_eq!(copy.list().len(), 2);
}

#[test]
fn executor_results() {
    let e = ToolExecutor::new();
    assert_eq!(e.timeout(), 30);
    let nf = e.result_of("zzz", "c".into(), ToolOutcome::NotFound, 99);
    assert_eq!(nf.error.as_deref(), Some("Tool 'zzz' not found in registry"));
    assert_eq!(nf.duration_ms, 0);
    let ok = e.result_of("t", "c".into(), ToolOutcome::Output("out".into()), 5);
    assert!(ok.success && ok.output == "out" && ok.duration_ms == 5);
    let failed = e.result_of("t", "c".into(), ToolOutcome::Failed("bad".into()), 6);
    assert_eq!(failed.error.as_deref(), Some("Tool execution error: bad"));
    let e = e.with_timeout(7);
    let to = e.result_of("t", "c".into(), ToolOutcome::TimedOut, 7000);
    assert_eq!(to.error.as_deref(), Some("Tool 't' timed out after 7s"));
    assert!(!to.success);
}

#[test]
fn shell_outcomes() {
    let t = ShellTool::new();
    assert_eq!(t.name(), "shell");
    assert_eq!(default_timeout(), 30);
    assert_eq!(t.outcome(true, Some(0), "out", "err").unwrap(), "out");
    assert_eq!(t.outcome(false, Some(2), "out", "err").unwrap_err(), "Exit 2: err\nout");
    assert_eq!(t.outcome(false, None, "", "e").unwrap_err(), "Exit 1: e\n");
    assert_eq!(t.outcome(false, Some(-9), "o", "e").unwrap_err(), "Exit -9: e\no");
}

#[test]
fn file_requests() {
    let f = FileTools::new();
    assert_eq!((default_offset(), default_limit()), (1, 500));
    assert_eq!(f.name(), "file");
    match f.plan(&obj(&[("path", s("/tmp/a"))])) {
        Ok(FileOp::Read { path, offset, limit }) => {
            assert_eq!(path, "/tmp/a");
            assert_eq!((offset, limit), (1, 500));
        }
        _ => panic!("expected read"),
    }
    match f.plan(&obj(&[
        ("action", s("read")),
        ("path", s("/tmp/b")),
        ("offset", serde_json::Value::from(3u64)),
        ("limit", serde_json::Value::from(2u64)),
    ])) {
        Ok(FileOp::Read { path, offset, limit }) => {
            assert_eq!(path, "/tmp/b");
            assert_eq!((offset, limit), (3, 2));
        }
        _ => panic!("expected read"),
    }
    match f.plan(&obj(&[("action", s("write")), ("path", s("p")), ("content", s("c"))])) {
        Ok(FileOp::Write { path, content }) => assert_eq!((path.as_str(), content.as_str()), ("p", "c")),
        _ => panic!("expected write"),
    }
    match f.plan(&obj(&[("action", s("edit")), ("old_string", s("o"))])) {
        Ok(FileOp::Edit { path, old_string, new_string }) => {
            assert_eq!((path.as_str(), old_string.as_str(), new_string.as_str()), ("", "o", ""))
        }
        _ => panic!("expected edit"),
    }
    match f.plan(&obj(&[("action", s("delete"))])) {
        Err(e) => assert_eq!(e, "Unknown action: delete"),
        _ => panic!("expected error"),
    }
    assert_eq!(f.edited("a b a", "a", "x").unwrap(), "x b x");
    assert_eq!(f.edited("abc", "zz", "x").unwrap_err(), "old_string not found in file");
    assert_eq!(f.written_message("中文", "p"), "Written 6 bytes to p");
    assert_eq!(f.edited_message("p"), "Edited p");
    assert_eq!(f.read_error("nope"), "Read error: nope");
    assert_eq!(f.write_error("nope"), "Write error: nope");
}

#[test]
fn web_encode_and_requests() {
    assert_eq!(encode("a b&c-_.~"), "a%20b%26c-_.~");
    assert_eq!(encode("ü"), "%FC");
    assert_eq!(encode("中"), "%2D");
    assert_eq!(default_count(), 5);
    let w = WebTools::new();
    match w.plan(&obj(&[("query", s("rust lang"))])) {
        Ok(WebOp::Search { url, num_results }) => {
            assert_eq!(url, "https://html.duckduckgo.com/html/?q=rust%20lang");
            assert_eq!(num_results, 5);
        }
        _ => panic!("expected search"),
    }
    match w.plan(&obj(&[("action", s("search")), ("num_results", serde_json::Value::from(2u64))])) {
        Ok(WebOp::Search { url, num_results }) => {
            assert_eq!(url, "https://html.duckduckgo.com/html/?q=");
            assert_eq!(num_results, 2);
        }
        _ => panic!("expected search"),
    }
    match w.plan(&obj(&[("action", s("fetch")), ("url", s("http://x"))])) {
        Ok(WebOp::Fetch { url, extract_content }) => {
            assert_eq!(url, "http://x");
            assert!(!extract_content);
        }
        _ => panic!("expected fetch"),
    }
    match w.plan(&obj(&[("action", s("fetch")), ("url", s("http://y")), ("extract_content", serde_json::Value::from(true))])) {
        Ok(WebOp::Fetch { url, extract_content }) => {
            assert_eq!(url, "http://y");
            assert!(extract_content);
        }
        _ => panic!("expected fetch"),
    }
    assert!(matches!(w.plan(&obj(&[("action", s("post"))])), Err(e) if e == "Unknown action: post"));
    assert_eq!(w.fetch_content("<p>abc</p>", false), "<p>abc</p>");
    assert_eq!(w.fetch_content("  <html><body><h1>Title</h1> <p>a &lt; b</p></body></html>\n", true), "Title a &lt; b");
    assert_eq!(w.fetch_content("no tags", true), "no tags");
}

#[test]
fn web_snippets() {
    let w = WebTools::new();
    let html = "<html>\n  <a class=\"result__snippet\">One <b>bold</b> &amp; &quot;q&quot;</a>  \r\nnoise\n<a class=\"result__snippet\">Two</a>\n<a class=\"result__snippet\">Three</a>\n";
    assert_eq!(
        w.extract_snippets(html, 2),
        "<a class=\"result__snippet\">One bold & \"q\"</a>\n\n<a class=\"result__snippet\">Two</a>"
    );
    assert_eq!(w.extract_snippets(html, 0), "");
    assert_eq!(w.extract_snippets("nothing", 5), "");
}

#[test]
fn file_reads_take_a_window_of_lines() {
    let f = FileTools::new();
    let text = "l1\nl2\nl3\nl4\nl5\n";
    assert_eq!(f.read_lines(text, 1, 500), text);
    assert_eq!(f.read_lines(text, 2, 2), "l2\nl3");
    assert_eq!(f.read_lines(text, 4, 10), "l4\nl5\n");
    assert_eq!(f.read_lines(text, 0, 1), "l1");
    assert_eq!(f.read_lines(text, 9, 3), "");
    assert_eq!(f.read_lines(text, 2, 0), "");
    assert_eq!(f.read_lines("", 1, 500), "");
}

fn percent_decode(s: &str) -> String {
    let b = s.as_bytes();
    let mut out = String::new();
    let mut i = 0;
    while i < b.len() {
        if b[i] == b'%' && i + 2 < b.len() {
            let v = u8::from_str_radix(&s[i + 1..i + 3], 16).unwrap();
            out.push(v as char);
            i += 3;
        } else {
            out.push(b[i] as char);
            i += 1;
        }
    }
    out
}

#[test]
fn encoded_ascii_decodes_back() {
    for text in ["Hello world!", "a+b=c&d", "~-_.", "100% /path?q=1", ""] {
        let e = encode(text);
        assert!(e.chars().all(|c| c.is_ascii_alphanumeric() || "-_.~%".contains(c)));
        assert_eq!(percent_decode(&e), text);
    }
}

#[test]
fn dynamic_registration_lists_the_tool_once_and_enabled() {
    let mut r = ToolRegistry::new();
    r.register_dynamic("t", "one", serde_json::Value::Null).unwrap();
    r.disable("t");
    assert!(r.register_dynamic("t", "two", serde_json::Value::Bool(true)).is_ok());
    let named: Vec<ToolDef> = r.list().into_iter().filter(|d| d.name == "t").collect();
    assert_eq!(named.len(), 1);
    assert_eq!(named[0].description, "two");
    assert_eq!(named[0].parameters, serde_json::Value::Bool(true));
    assert!(named[0].enabled);
    assert!(r.list_enabled().iter().any(|d| d.name == "t" && d.description == "two"));
}
