//! The terminal client's state: the conversation it shows, the line being
//! typed, and what each key and each answer of the gateway does to them.

use vstd::prelude::*;
use crate::text::{
    chars_of, decimal, pop_char, push_char, push_decimal, string_from_chars, trim, trim_chars,
    utf8_len, utf8_len_of,
};

verus! {

broadcast use vstd::string::group_string_axioms;

/// The gateway's answer to a run.
#[derive(Debug, Clone)]
pub struct RunResponse {
    pub session_id: String,
    pub result: String,
    pub iterations: usize,
    pub tool_calls: usize,
}

/// A line of the conversation shown.
#[derive(Debug, Clone)]
pub struct Message {
    pub role: String,
    pub content: String,
    pub meta: Option<String>,
}

/// A shown line as plain values: role, content and note.
pub open spec fn line_of(m: Message) -> (Seq<char>, Seq<char>, Option<Seq<char>>) {
    (m.role@, m.content@, match m.meta {
        Some(t) => Some(t@),
        None => None,
    })
}

/// A key press, as far as the client tells keys apart.
#[derive(Debug, Clone, Copy)]
pub enum Key {
    /// A character typed without the control key.
    Char(char),
    /// A character typed with the control key.
    ControlChar(char),
    Backspace,
    Enter,
    Esc,
    /// Any other key.
    Other,
}

/// A request for the gateway.
#[derive(Debug, Clone)]
pub enum AppRequest {
    /// Run `task`, in session `session_id` if there is one.
    Send { task: String, session_id: Option<String> },
}

/// The client's state.
#[derive(Debug)]
pub struct App {
    pub messages: Vec<Message>,
    pub input: String,
    pub session_id: Option<String>,
    pub base_url: String,
    pub running: bool,
    pub waiting: bool,
    pub waiting_dots: u8,
}

/// The shown lines of `app`.
pub open spec fn lines(app: App) -> Seq<(Seq<char>, Seq<char>, Option<Seq<char>>)> {
    app.messages@.map_values(|m: Message| line_of(m))
}

/// The session known to `app`.
pub open spec fn session(app: App) -> Option<Seq<char>> {
    match app.session_id {
        Some(s) => Some(s@),
        None => None,
    }
}

/// `post` is `pre` with only its lines and typed line changed.
pub open spec fn same_but_lines(pre: App, post: App) -> bool {
    &&& session(post) == session(pre)
    &&& post.base_url@ == pre.base_url@
    &&& post.running == pre.running
    &&& post.waiting == pre.waiting
    &&& post.waiting_dots == pre.waiting_dots
}

/// The line noting the session, if any.
pub open spec fn session_line(sid: Option<Seq<char>>) -> Seq<char> {
    match sid {
        Some(s) => "Session ID: "@ + s,
        None => "No active session"@,
    }
}

/// The note on an answer: iterations and tool calls.
pub open spec fn run_note(iterations: usize, tool_calls: usize) -> Seq<char> {
    decimal(iterations as nat) + " iter, "@ + decimal(tool_calls as nat) + " tools"@
}

/// A plain shown line.
pub open spec fn plain_line(role: Seq<char>, content: Seq<char>) -> (Seq<char>, Seq<char>, Option<Seq<char>>) {
    (role, content, None)
}

impl App {
    /// A client of the gateway at `base_url`, running, with nothing shown.
    pub fn new(base_url: String) -> (r: Self)
        ensures
            lines(r).len() == 0,
            r.input@.len() == 0,
            r.session_id is None,
            r.base_url == base_url,
            r.running,
            !r.waiting,
            r.waiting_dots == 0,
    {
        App {
            messages: Vec::new(),
            input: String::new(),
            session_id: None,
            base_url,
            running: true,
            waiting: false,
            waiting_dots: 0,
        }
    }

    fn add(&mut self, role: &str, text: String, meta: Option<String>)
        ensures
            lines(*final(self)) == lines(*old(self)).push(
                (role@, text@, match meta {
                    Some(t) => Some(t@),
                    None => None,
                }),
            ),
            final(self).input@ == old(self).input@,
            same_but_lines(*old(self), *final(self)),
    {
        let m = Message { role: role.to_owned(), content: text, meta };
        let ghost l = line_of(m);
        self.messages.push(m);
        assert(lines(*self) =~= lines(*old(self)).push(l));
    }

    /// Shows a line typed by the user.
    pub fn add_user(&mut self, text: String)
        ensures
            lines(*final(self)) == lines(*old(self)).push(plain_line("user"@, text@)),
            final(self).input@ == old(self).input@,
            same_but_lines(*old(self), *final(self)),
    {
        self.add("user", text, None)
    }

    /// Shows an answer, with an optional note.
    pub fn add_assistant(&mut self, content: String, meta: Option<String>)
        ensures
            lines(*final(self)) == lines(*old(self)).push(
                ("assistant"@, content@, match meta {
                    Some(t) => Some(t@),
                    None => None,
                }),
            ),
            final(self).input@ == old(self).input@,
            same_but_lines(*old(self), *final(self)),
    {
        self.add("assistant", content, meta)
    }

    /// Shows a line of the client itself.
    pub fn add_system(&mut self, text: String)
        ensures
            lines(*final(self)) == lines(*old(self)).push(plain_line("system"@, text@)),
            final(self).input@ == old(self).input@,
            same_but_lines(*old(self), *final(self)),
    {
        self.add("system", text, None)
    }

    /// Shows an error.
    pub fn add_error(&mut self, text: String)
        ensures
            lines(*final(self)) == lines(*old(self)).push(plain_line("error"@, text@)),
            final(self).input@ == old(self).input@,
            same_but_lines(*old(self), *final(self)),
    {
        self.add("error", text, None)
    }

    /// What a key does. While an answer is awaited keys do nothing. A typed
    /// character extends the line, backspace shortens it, escape clears it.
    /// Enter takes the line: an empty one is dropped; `/quit` and `/q` stop
    /// the client, `/clear` clears the conversation, `/session` shows the
    /// session, any other `/` command is an error; other text is shown and
    /// returned as a request, and the client then waits.
    pub fn handle_key(&mut self, key: Key) -> (r: Option<AppRequest>)
        ensures
            old(self).waiting ==> r is None && *final(self) == *old(self),
            !old(self).waiting ==> match key {
                Key::Char(c) => r is None && final(self).input@ == old(self).input@.push(c)
                    && lines(*final(self)) == lines(*old(self)) && same_but_lines(
                    *old(self),
                    *final(self),
                ),
                Key::Backspace => r is None && final(self).input@ == (if old(self).input@.len()
                    > 0 {
                    old(self).input@.drop_last()
                } else {
                    old(self).input@
                }) && lines(*final(self)) == lines(*old(self)) && same_but_lines(
                    *old(self),
                    *final(self),
                ),
                Key::Esc => r is None && final(self).input@.len() == 0 && lines(*final(self))
                    == lines(*old(self)) && same_but_lines(*old(self), *final(self)),
                Key::Enter => enter_effect(*old(self), *final(self), r),
                _ => r is None && final(self).input@ == old(self).input@ && lines(*final(self))
                    == lines(*old(self)) && same_but_lines(*old(self), *final(self)),
            },
    {
        if self.waiting {
            return None;
        }
        match key {
            Key::Char(c) => {
                push_char(&mut self.input, c);
                None
            },
            Key::Backspace => {
                let _ = pop_char(&mut self.input);
                None
            },
            Key::Esc => {
                self.input = String::new();
                None
            },
            Key::Enter => self.on_enter(),
            _ => None,
        }
    }

    fn on_enter(&mut self) -> (r: Option<AppRequest>)
        requires
            !old(self).waiting,
        ensures
            enter_effect(*old(self), *final(self), r),
    {
        let mut input = String::new();
        std::mem::swap(&mut input, &mut self.input);
        if input.as_str().is_empty() {
            return None;
        }
        let cs = chars_of(input.as_str());
        let tv = trim_chars(&cs);
        let t = string_from_chars(tv.as_slice());
        let ghost tr = trim(input@);
        proof {
            reveal_strlit("/quit");
            reveal_strlit("/q");
            reveal_strlit("/clear");
            reveal_strlit("/session");
        }
        if crate::text::str_eq(t.as_str(), "/quit") || crate::text::str_eq(t.as_str(), "/q") {
            self.running = false;
            return None;
        }
        if crate::text::str_eq(t.as_str(), "/clear") {
            self.messages = Vec::new();
            assert(lines(*self) =~= Seq::<(Seq<char>, Seq<char>, Option<Seq<char>>)>::empty());
            return None;
        }
        if crate::text::str_eq(t.as_str(), "/session") {
            let mut line = String::new();
            match &self.session_id {
                Some(sid) => {
                    line.append("Session ID: ");
                    line.append(sid.as_str());
                },
                None => line.append("No active session"),
            }
            self.add_system(line);
            return None;
        }
        if tv.len() > 0 && tv[0] == '/' {
            let mut line = String::new();
            line.append("Unknown command: ");
            line.append(t.as_str());
            self.add_error(line);
            return None;
        }
        let shown = input.clone();
        self.add_user(shown);
        let session_id = match &self.session_id {
            Some(s) => Some(s.clone()),
            None => None,
        };
        self.waiting = true;
        Some(AppRequest::Send { task: input, session_id })
    }

    /// What an answer of the gateway does: the client stops waiting; a
    /// result is shown with its statistics and its session becomes the
    /// client's; an error is shown.
    pub fn on_reply(&mut self, reply: Result<RunResponse, String>)
        ensures
            !final(self).waiting,
            final(self).waiting_dots == 0,
            final(self).running == old(self).running,
            final(self).input@ == old(self).input@,
            final(self).base_url@ == old(self).base_url@,
            match reply {
                Ok(resp) => {
                    &&& session(*final(self)) == Some(resp.session_id@)
                    &&& lines(*final(self)) == lines(*old(self)).push(
                        ("assistant"@, resp.result@, Some(run_note(resp.iterations, resp.tool_calls))),
                    )
                },
                Err(e) => {
                    &&& session(*final(self)) == session(*old(self))
                    &&& lines(*final(self)) == lines(*old(self)).push(
                        plain_line("error"@, "Error: "@ + e@),
                    )
                },
            },
    {
        self.waiting = false;
        match reply {
            Ok(resp) => {
                self.session_id = Some(resp.session_id.clone());
                let mut note = String::new();
                push_decimal(&mut note, resp.iterations as u128);
                note.append(" iter, ");
                push_decimal(&mut note, resp.tool_calls as u128);
                note.append(" tools");
                self.add_assistant(resp.result, Some(note));
            },
            Err(e) => {
                let mut line = String::new();
                line.append("Error: ");
                line.append(e.as_str());
                self.add_error(line);
            },
        }
        self.waiting_dots = 0;
    }

    /// One step of the waiting animation.
    pub fn tick(&mut self)
        ensures
            old(self).waiting ==> final(self).waiting_dots == (old(self).waiting_dots + 1) % 8,
            !old(self).waiting ==> final(self).waiting_dots == old(self).waiting_dots,
            lines(*final(self)) == lines(*old(self)),
            final(self).input@ == old(self).input@,
            session(*final(self)) == session(*old(self)),
            final(self).running == old(self).running,
            final(self).waiting == old(self).waiting,
    {
        if self.waiting {
            self.waiting_dots = ((self.waiting_dots as u16 + 1) % 8) as u8;
        }
    }

    /// The typed line as shown: `> ` and the line.
    pub fn input_line(&self) -> (r: String)
        ensures
            r@ == "> "@ + self.input@,
    {
        let mut r = String::new();
        r.append("> ");
        r.append(self.input.as_str());
        r
    }

    /// The cursor's column in an input box `width` wide: after the prompt and
    /// the typed bytes, but inside the box.
    pub fn cursor_x(&self, width: u16) -> (r: usize)
        requires
            width >= 3,
        ensures
            r == (if utf8_len(self.input@) + 2 < width - 3 {
                (utf8_len(self.input@) + 2) as int
            } else {
                (width - 3) as int
            }),
    {
        let n = utf8_len_of(self.input.as_str()) + 2;
        let w = (width - 3) as u128;
        if n < w {
            n as usize
        } else {
            (width - 3) as usize
        }
    }
}

/// The effect of Enter on `pre`, giving `post` and the request `r`.
pub open spec fn enter_effect(pre: App, post: App, r: Option<AppRequest>) -> bool {
    let typed = pre.input@;
    let t = trim(typed);
    &&& post.input@.len() == 0
    &&& post.base_url@ == pre.base_url@
    &&& post.waiting_dots == pre.waiting_dots
    &&& session(post) == session(pre)
    &&& if typed.len() == 0 {
        r is None && lines(post) == lines(pre) && post.running == pre.running && post.waiting
            == pre.waiting
    } else if t == "/quit"@ || t == "/q"@ {
        r is None && lines(post) == lines(pre) && !post.running && post.waiting == pre.waiting
    } else if t == "/clear"@ {
        r is None && lines(post).len() == 0 && post.running == pre.running && post.waiting
            == pre.waiting
    } else if t == "/session"@ {
        r is None && lines(post) == lines(pre).push(plain_line("system"@, session_line(session(pre))))
            && post.running == pre.running && post.waiting == pre.waiting
    } else if t.len() > 0 && t[0] == '/' {
        r is None && lines(post) == lines(pre).push(plain_line("error"@, "Unknown command: "@ + t))
            && post.running == pre.running && post.waiting == pre.waiting
    } else {
        &&& lines(post) == lines(pre).push(plain_line("user"@, typed))
        &&& post.running == pre.running
        &&& post.waiting
        &&& r matches Some(AppRequest::Send { task, session_id }) && task@ == typed && match session_id {
            Some(s) => Some(s@),
            None => None,
        } == session(pre)
    }
}

/// The first line shown when `count` lines are drawn: the last twenty fit.
pub fn scroll_offset(count: usize) -> (r: usize)
    ensures
        r == (if count > 20 { count - 20 } else { 0 }),
{
    if count > 20 {
        count - 20
    } else {
        0
    }
}

/// Backspace undoes a typed character: after typing `c` and pressing
/// backspace the line is what it was.
pub proof fn law_backspace_undoes_char(line: Seq<char>, c: char)
    ensures
        line.push(c).len() > 0,
        line.push(c).drop_last() == line,
{
    assert(line.push(c).drop_last() =~= line);
}

/// What Enter does with a typed line, by its trimmed text `t`: `/quit` and
/// `/q` stop the client and add no line; `/clear` empties the conversation;
/// `/session` shows `Session ID: ` and the session, or `No active session`;
/// another `/` command shows `Unknown command: ` and it; other non-empty text
/// is shown as the user's line and sent as the task, with the client's
/// session, and the client waits. In every case the typed line is cleared and
/// only a sent task makes a request.
pub proof fn law_enter_commands(pre: App, post: App, r: Option<AppRequest>)
    requires
        enter_effect(pre, post, r),
    ensures
        post.input@.len() == 0,
        session(post) == session(pre),
        ({
            let t = trim(pre.input@);
            &&& (t == "/quit"@ || t == "/q"@) ==> !post.running && lines(post) == lines(pre) && r is None
            &&& t == "/clear"@ ==> lines(post).len() == 0 && post.running == pre.running && r is None
            &&& t == "/session"@ ==> r is None && post.running == pre.running && lines(post) == lines(
                pre,
            ).push(
                ("system"@, match session(pre) {
                    Some(sid) => "Session ID: "@ + sid,
                    None => "No active session"@,
                }, None::<Seq<char>>),
            )
            &&& (t.len() > 0 && t[0] == '/' && t != "/quit"@ && t != "/q"@ && t != "/clear"@ && t
                != "/session"@) ==> r is None && post.running == pre.running && lines(post) == lines(
                pre,
            ).push(("error"@, "Unknown command: "@ + t, None::<Seq<char>>))
            &&& (pre.input@.len() > 0 && !(t.len() > 0 && t[0] == '/')) ==> {
                &&& post.running == pre.running
                &&& post.waiting
                &&& lines(post) == lines(pre).push(("user"@, pre.input@, None::<Seq<char>>))
                &&& r matches Some(AppRequest::Send { task, session_id }) && task@ == pre.input@
                    && match session_id {
                    Some(s) => Some(s@),
                    None => None,
                } == session(pre)
            }
        }),
{
    reveal_strlit("/quit");
    reveal_strlit("/q");
    reveal_strlit("/clear");
    reveal_strlit("/session");
    let typed = pre.input@;
    if typed.len() == 0 {
        assert(crate::text::trim_start(typed) == typed);
        assert(trim(typed) =~= Seq::<char>::empty());
    }
}

} // verus!
