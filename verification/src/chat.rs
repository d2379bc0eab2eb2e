//! State of the chat screen and how key presses and agent events change it.
//!
//! The screen keeps the message history, the input line, a scroll offset, the
//! active panel and a command history navigated with Up and Down. Key presses
//! and agent events are pure transitions on that state; sending a submitted line
//! to the agent is left to the caller, which receives it from `handle_key`.

use vstd::prelude::*;
use crate::keys::{Key, KeyKind};
use crate::text::{concat, pop_char, push_char};

verus! {

broadcast use vstd::string::group_string_axioms;

/// Outcome of a tool call shown in the chat.
#[derive(Debug, Clone)]
pub enum ToolStatus {
    Running,
    Success(String),
    Error(String),
}

/// Abstract view of a tool status.
pub enum StatusView {
    Running,
    Success(Seq<char>),
    Error(Seq<char>),
}

impl View for ToolStatus {
    type V = StatusView;

    open spec fn view(&self) -> StatusView {
        match self {
            ToolStatus::Running => StatusView::Running,
            ToolStatus::Success(s) => StatusView::Success(s@),
            ToolStatus::Error(s) => StatusView::Error(s@),
        }
    }
}

/// A message stored in the chat history.
#[derive(Debug, Clone)]
pub enum ChatMessage {
    User(String),
    Assistant(String),
    System(String),
    ToolCall { name: String, status: ToolStatus },
}

/// Abstract view of a chat message.
pub enum MessageView {
    User(Seq<char>),
    Assistant(Seq<char>),
    System(Seq<char>),
    ToolCall(Seq<char>, StatusView),
}

impl View for ChatMessage {
    type V = MessageView;

    open spec fn view(&self) -> MessageView {
        match self {
            ChatMessage::User(s) => MessageView::User(s@),
            ChatMessage::Assistant(s) => MessageView::Assistant(s@),
            ChatMessage::System(s) => MessageView::System(s@),
            ChatMessage::ToolCall { name, status } => MessageView::ToolCall(name@, status@),
        }
    }
}

/// What the agent reports while it works on a request.
#[derive(Debug, Clone)]
pub enum ChatEvent {
    Started,
    TurnStart,
    TurnEnd,
    TextDelta(String),
    ToolCallStart(String),
    ToolCallEnd { name: String, success: bool, preview: String },
    Done(String),
    Error(String),
}

/// The chat screen.
pub struct App {
    /// Chat message history.
    pub messages: Vec<ChatMessage>,
    /// Current input text.
    pub input: String,
    /// Scroll offset of the chat panel.
    pub scroll_offset: usize,
    /// Whether the screen should close.
    pub should_quit: bool,
    /// Active panel (0 = chat, 1 = input).
    pub active_panel: usize,
    /// Final response of the last request.
    pub last_result: Option<String>,
    /// Submitted lines, oldest first.
    pub history: Vec<String>,
    /// Position in `history` while navigating it, -1 otherwise.
    pub history_pos: isize,
    /// Whether the agent is producing a response.
    generating: bool,
}

/// Abstract view of the chat screen.
pub struct AppView {
    pub messages: Seq<MessageView>,
    pub input: Seq<char>,
    pub scroll_offset: usize,
    pub should_quit: bool,
    pub active_panel: usize,
    pub last_result: Option<Seq<char>>,
    pub history: Seq<Seq<char>>,
    pub history_pos: int,
    pub generating: bool,
}

/// Views of a message sequence.
pub open spec fn messages_view(ms: Seq<ChatMessage>) -> Seq<MessageView> {
    ms.map_values(|m: ChatMessage| m@)
}

/// Views of a string sequence.
pub open spec fn strings_view(ss: Seq<String>) -> Seq<Seq<char>> {
    ss.map_values(|s: String| s@)
}

/// View of an optional string.
pub open spec fn opt_string_view(o: Option<String>) -> Option<Seq<char>> {
    match o {
        Some(s) => Some(s@),
        None => None,
    }
}

impl View for App {
    type V = AppView;

    closed spec fn view(&self) -> AppView {
        AppView {
            messages: messages_view(self.messages@),
            input: self.input@,
            scroll_offset: self.scroll_offset,
            should_quit: self.should_quit,
            active_panel: self.active_panel,
            last_result: opt_string_view(self.last_result),
            history: strings_view(self.history@),
            history_pos: self.history_pos as int,
            generating: self.generating,
        }
    }
}

/// The greeting shown when the chat opens.
pub open spec fn welcome_text() -> Seq<char> {
    "Welcome to mengxi chat. Type a message or /help for commands."@
}

/// The state of a freshly opened chat.
pub open spec fn initial_view() -> AppView {
    AppView {
        messages: seq![MessageView::System(welcome_text())],
        input: Seq::empty(),
        scroll_offset: 0,
        should_quit: false,
        active_panel: 1,
        last_result: None,
        history: Seq::empty(),
        history_pos: -1,
        generating: false,
    }
}

/// The history position is -1 or names an entry, and the history stays within the
/// range that `isize` positions can address.
pub open spec fn view_wf(a: AppView) -> bool {
    &&& -1 <= a.history_pos < a.history.len()
    &&& a.history.len() < isize::MAX
}

/// `x - y`, or 0 when that is negative.
pub open spec fn sat_sub(x: usize, y: usize) -> usize {
    if x < y {
        0
    } else {
        (x - y) as usize
    }
}

/// `x + y`, or `usize::MAX` when that does not fit.
pub open spec fn sat_add(x: usize, y: usize) -> usize {
    if x + y > usize::MAX {
        usize::MAX
    } else {
        (x + y) as usize
    }
}

/// The state after Up: an older history entry in the input panel, or scrolling up.
pub open spec fn up_step(a: AppView) -> AppView {
    if a.active_panel == 1 && a.history.len() > 0 {
        let pos = if a.history_pos < 0 {
            a.history.len() - 1
        } else if a.history_pos > 0 {
            a.history_pos - 1
        } else {
            a.history_pos
        };
        AppView {
            history_pos: pos,
            input: if 0 <= pos < a.history.len() {
                a.history[pos]
            } else {
                a.input
            },
            ..a
        }
    } else {
        AppView { scroll_offset: sat_sub(a.scroll_offset, 1), ..a }
    }
}

/// The state after Down: a newer history entry (or leaving the history with an
/// empty input) in the input panel, or scrolling down.
pub open spec fn down_step(a: AppView) -> AppView {
    if a.active_panel == 1 && a.history_pos >= 0 {
        let pos = a.history_pos + 1;
        if pos >= a.history.len() {
            AppView { history_pos: -1, input: Seq::empty(), ..a }
        } else {
            AppView { history_pos: pos, input: a.history[pos], ..a }
        }
    } else {
        AppView { scroll_offset: sat_add(a.scroll_offset, 1), ..a }
    }
}

/// The state after a key press, and the line submitted to the agent, if any.
pub open spec fn key_step(a: AppView, key: Key) -> (AppView, Option<Seq<char>>) {
    match key {
        Key::Esc => (AppView { should_quit: true, ..a }, None),
        Key::Tab => (
            AppView {
                active_panel: if a.active_panel == 0 {
                    1
                } else {
                    0
                },
                ..a
            },
            None,
        ),
        Key::Enter => if a.input.len() == 0 {
            (a, None)
        } else {
            (
                AppView {
                    input: Seq::empty(),
                    history: a.history.push(a.input),
                    history_pos: -1,
                    messages: a.messages.push(MessageView::User(a.input)).push(
                        MessageView::Assistant(Seq::empty()),
                    ),
                    generating: true,
                    ..a
                },
                Some(a.input),
            )
        },
        Key::Char(c) => (AppView { input: a.input.push(c), ..a }, None),
        Key::Backspace => (
            AppView {
                input: if a.input.len() > 0 {
                    a.input.drop_last()
                } else {
                    a.input
                },
                ..a
            },
            None,
        ),
        Key::Up => (up_step(a), None),
        Key::Down => (down_step(a), None),
        Key::PageUp => (AppView { scroll_offset: sat_sub(a.scroll_offset, 10), ..a }, None),
        Key::PageDown => (AppView { scroll_offset: sat_add(a.scroll_offset, 10), ..a }, None),
        _ => (a, None),
    }
}

/// Index of the most recent running call of the tool `name` among the first `n` messages.
pub open spec fn last_running_call(ms: Seq<MessageView>, name: Seq<char>, n: int) -> Option<int>
    decreases n,
{
    if n <= 0 {
        None
    } else if ms[n - 1] == MessageView::ToolCall(name, StatusView::Running) {
        Some(n - 1)
    } else {
        last_running_call(ms, name, n - 1)
    }
}

/// The state after an agent event.
pub open spec fn event_step(a: AppView, e: ChatEvent) -> AppView {
    match e {
        ChatEvent::Started => a,
        ChatEvent::TurnStart => a,
        ChatEvent::TurnEnd => a,
        ChatEvent::TextDelta(d) => if a.messages.len() > 0 && a.messages.last() is Assistant {
            AppView {
                messages: a.messages.update(
                    a.messages.len() - 1,
                    MessageView::Assistant(a.messages.last()->Assistant_0 + d@),
                ),
                ..a
            }
        } else {
            a
        },
        ChatEvent::ToolCallStart(name) => AppView {
            messages: a.messages.push(MessageView::ToolCall(name@, StatusView::Running)),
            ..a
        },
        ChatEvent::ToolCallEnd { name, success, preview } => match last_running_call(
            a.messages,
            name@,
            a.messages.len() as int,
        ) {
            Some(i) => AppView {
                messages: a.messages.update(
                    i,
                    MessageView::ToolCall(
                        name@,
                        if success {
                            StatusView::Success(preview@)
                        } else {
                            StatusView::Error(preview@)
                        },
                    ),
                ),
                ..a
            },
            None => a,
        },
        ChatEvent::Done(response) => AppView {
            generating: false,
            last_result: Some(response@),
            ..a
        },
        ChatEvent::Error(msg) => AppView {
            messages: a.messages.push(MessageView::System("Error: "@ + msg@)),
            generating: false,
            ..a
        },
    }
}

/// The state after a sequence of agent events, applied in order.
pub open spec fn events_step(a: AppView, es: Seq<ChatEvent>) -> AppView
    decreases es.len(),
{
    if es.len() == 0 {
        a
    } else {
        event_step(events_step(a, es.drop_last()), es.last())
    }
}

/// `last_running_call` finds a running call of the tool, the last one.
pub proof fn lemma_last_running_call(ms: Seq<MessageView>, name: Seq<char>, n: int)
    requires
        n <= ms.len(),
    ensures
        last_running_call(ms, name, n) matches Some(i) ==> 0 <= i < n && ms[i]
            == MessageView::ToolCall(name, StatusView::Running) && forall|k: int|
            i < k < n ==> ms[k] != MessageView::ToolCall(name, StatusView::Running),
        last_running_call(ms, name, n) is None ==> forall|k: int|
            0 <= k < n ==> ms[k] != MessageView::ToolCall(name, StatusView::Running),
    decreases n,
{
    if n > 0 && ms[n - 1] != MessageView::ToolCall(name, StatusView::Running) {
        lemma_last_running_call(ms, name, n - 1);
    }
}

/// Position of the most recent running call of the tool `name`.
fn find_running_call(messages: &Vec<ChatMessage>, name: &String) -> (r: Option<usize>)
    ensures
        r matches Some(i) ==> last_running_call(
            messages_view(messages@),
            name@,
            messages@.len() as int,
        ) == Some(i as int),
        r is None ==> last_running_call(
            messages_view(messages@),
            name@,
            messages@.len() as int,
        ) is None,
{
    let ghost mv = messages_view(messages@);
    let n = messages.len();
    let mut k = n;
    while k > 0
        invariant
            k <= n,
            n == messages@.len(),
            mv == messages_view(messages@),
            last_running_call(mv, name@, k as int) == last_running_call(mv, name@, n as int),
        decreases k,
    {
        let hit = match &messages[k - 1] {
            ChatMessage::ToolCall { name: nm, status } => {
                let running = match status {
                    ToolStatus::Running => true,
                    _ => false,
                };
                running && *nm == *name
            },
            _ => false,
        };
        assert(mv[k - 1] == messages@[k - 1]@);
        if hit {
            return Some(k - 1);
        }
        k = k - 1;
    }
    None
}


/// Typing a character and then pressing Backspace leaves the screen as it was.
pub proof fn lemma_type_then_erase(a: AppView, c: char)
    ensures
        key_step(key_step(a, Key::Char(c)).0, Key::Backspace).0 == a,
{
    assert(a.input.push(c).drop_last() =~= a.input);
}

/// Tab twice returns to the panel one started from.
pub proof fn lemma_tab_twice(a: AppView)
    requires
        a.active_panel <= 1,
    ensures
        key_step(key_step(a, Key::Tab).0, Key::Tab).0 == a,
{
}

/// PageDown then PageUp restores the scroll offset when no saturation occurs.
pub proof fn lemma_page_down_then_up(a: AppView)
    requires
        a.scroll_offset + 10 <= usize::MAX,
    ensures
        key_step(key_step(a, Key::PageDown).0, Key::PageUp).0 == a,
{
}

/// Submitting a line clears the input and sends the line; pressing Up in the input
/// panel right after brings the same line back.
pub proof fn lemma_submit_then_recall(a: AppView)
    requires
        a.input.len() > 0,
        a.active_panel == 1,
    ensures
        key_step(a, Key::Enter).1 == Some(a.input),
        key_step(a, Key::Enter).0.input.len() == 0,
        key_step(key_step(a, Key::Enter).0, Key::Up).0.input == a.input,
{
}

/// Key presses never alter or drop earlier messages.
pub proof fn lemma_keys_keep_messages(a: AppView, key: Key)
    ensures
        a.messages.len() <= key_step(a, key).0.messages.len(),
        forall|i: int|
            0 <= i < a.messages.len() ==> #[trigger] key_step(a, key).0.messages[i]
                == a.messages[i],
{
}

/// Agent events never drop messages.
pub proof fn lemma_events_keep_count(a: AppView, e: ChatEvent)
    ensures
        a.messages.len() <= event_step(a, e).messages.len(),
{
    match e {
        ChatEvent::ToolCallEnd { name, success, preview } => {
            lemma_last_running_call(a.messages, name@, a.messages.len() as int);
        },
        _ => {},
    }
}

/// A tool call that starts and then ends shows the outcome in the last message.
pub proof fn lemma_tool_call_round_trip(
    a: AppView,
    name: String,
    success: bool,
    preview: String,
)
    ensures
        ({
            let b = event_step(a, ChatEvent::ToolCallStart(name));
            let c = event_step(b, ChatEvent::ToolCallEnd { name, success, preview });
            &&& c.messages.len() == a.messages.len() + 1
            &&& c.messages.last() == MessageView::ToolCall(
                name@,
                if success {
                    StatusView::Success(preview@)
                } else {
                    StatusView::Error(preview@)
                },
            )
        }),
{
    let b = event_step(a, ChatEvent::ToolCallStart(name));
    assert(b.messages.last() == MessageView::ToolCall(name@, StatusView::Running));
    assert(last_running_call(b.messages, name@, b.messages.len() as int) == Some(
        a.messages.len() as int,
    ));
}

/// Every key press and every agent event keeps the history position valid.
pub proof fn lemma_steps_keep_wf(a: AppView, key: Key, e: ChatEvent)
    requires
        view_wf(a),
        a.history.len() + 1 < isize::MAX,
    ensures
        view_wf(key_step(a, key).0),
        view_wf(event_step(a, e)),
{
    match e {
        ChatEvent::ToolCallEnd { name, success, preview } => {
            lemma_last_running_call(a.messages, name@, a.messages.len() as int);
        },
        _ => {},
    }
}

impl App {
    /// A freshly opened chat: one welcome message, an empty input line, the input
    /// panel active and no history.
    pub fn new() -> (r: App)
        ensures
            r@ == initial_view(),
            view_wf(r@),
    {
        let msg = ChatMessage::System(
            String::from_str("Welcome to mengxi chat. Type a message or /help for commands."),
        );
        let mut messages: Vec<ChatMessage> = Vec::new();
        messages.push(msg);
        let r = App {
            messages,
            input: String::new(),
            scroll_offset: 0,
            should_quit: false,
            active_panel: 1,
            last_result: None,
            history: Vec::new(),
            history_pos: -1,
            generating: false,
        };
        assert(messages_view(r.messages@) =~= initial_view().messages);
        assert(strings_view(r.history@) =~= Seq::<Seq<char>>::empty());
        r
    }

    /// Whether the agent is producing a response.
    pub fn is_generating(&self) -> (r: bool)
        ensures
            r == self@.generating,
    {
        self.generating
    }

    /// Handle one key event. Only presses act; the line submitted with Enter is
    /// returned for the caller to send to the agent.
    pub fn handle_key(&mut self, kind: KeyKind, key: Key) -> (r: Option<String>)
        requires
            view_wf(old(self)@),
            old(self)@.history.len() + 1 < isize::MAX,
        ensures
            kind != KeyKind::Press ==> final(self)@ == old(self)@ && r is None,
            kind == KeyKind::Press ==> final(self)@ == key_step(old(self)@, key).0
                && opt_string_view(r) == key_step(old(self)@, key).1,
            view_wf(final(self)@),
    {
        if kind != KeyKind::Press {
            return None;
        }
        let ghost a = self@;
        match key {
            Key::Esc => {
                self.should_quit = true;
                None
            },
            Key::Tab => {
                self.active_panel = if self.active_panel == 0 {
                    1
                } else {
                    0
                };
                None
            },
            Key::Enter => {
                if self.input.as_str().is_empty() {
                    return None;
                }
                let text = self.input.clone();
                self.input = String::new();
                self.history.push(text.clone());
                self.history_pos = -1;
                self.messages.push(ChatMessage::User(text.clone()));
                self.messages.push(ChatMessage::Assistant(String::new()));
                self.generating = true;
                proof {
                    assert(messages_view(self.messages@) =~= a.messages.push(
                        MessageView::User(a.input),
                    ).push(MessageView::Assistant(Seq::empty())));
                    assert(strings_view(self.history@) =~= a.history.push(a.input));
                }
                Some(text)
            },
            Key::Char(c) => {
                push_char(&mut self.input, c);
                None
            },
            Key::Backspace => {
                let _ = pop_char(&mut self.input);
                None
            },
            Key::Up => {
                if self.active_panel == 1 && self.history.len() > 0 {
                    if self.history_pos < 0 {
                        self.history_pos = (self.history.len() - 1) as isize;
                    } else if self.history_pos > 0 {
                        self.history_pos = self.history_pos - 1;
                    }
                    let p = self.history_pos as usize;
                    if p < self.history.len() {
                        self.input = self.history[p].clone();
                    }
                } else {
                    self.scroll_offset = self.scroll_offset.saturating_sub(1);
                }
                None
            },
            Key::Down => {
                if self.active_panel == 1 && self.history_pos >= 0 {
                    self.history_pos = self.history_pos + 1;
                    if self.history_pos as usize >= self.history.len() {
                        self.history_pos = -1;
                        self.input = String::new();
                    } else {
                        let p = self.history_pos as usize;
                        self.input = self.history[p].clone();
                    }
                } else {
                    self.scroll_offset = self.scroll_offset.saturating_add(1);
                }
                None
            },
            Key::PageUp => {
                self.scroll_offset = self.scroll_offset.saturating_sub(10);
                None
            },
            Key::PageDown => {
                self.scroll_offset = self.scroll_offset.saturating_add(10);
                None
            },
            _ => None,
        }
    }

    /// Process one agent event.
    pub fn handle_agent_event(&mut self, event: ChatEvent)
        requires
            view_wf(old(self)@),
        ensures
            final(self)@ == event_step(old(self)@, event),
            view_wf(final(self)@),
    {
        let ghost a = self@;
        let ghost e = event;
        match event {
            ChatEvent::Started => {},
            ChatEvent::TurnStart => {},
            ChatEvent::TurnEnd => {},
            ChatEvent::TextDelta(delta) => {
                let n = self.messages.len();
                if n > 0 {
                    let updated = match &self.messages[n - 1] {
                        ChatMessage::Assistant(text) => {
                            let mut t = text.clone();
                            t.append(delta.as_str());
                            Some(t)
                        },
                        _ => None,
                    };
                    match updated {
                        Some(t) => {
                            self.messages.set(n - 1, ChatMessage::Assistant(t));
                            assert(messages_view(self.messages@) =~= event_step(a, e).messages);
                        },
                        None => {},
                    }
                }
            },
            ChatEvent::ToolCallStart(name) => {
                self.messages.push(
                    ChatMessage::ToolCall { name, status: ToolStatus::Running },
                );
                assert(messages_view(self.messages@) =~= event_step(a, e).messages);
            },
            ChatEvent::ToolCallEnd { name, success, preview } => {
                let found = find_running_call(&self.messages, &name);
                proof {
                    lemma_last_running_call(a.messages, name@, a.messages.len() as int);
                }
                match found {
                    Some(i) => {
                        let status = if success {
                            ToolStatus::Success(preview)
                        } else {
                            ToolStatus::Error(preview)
                        };
                        self.messages.set(i, ChatMessage::ToolCall { name, status });
                        assert(messages_view(self.messages@) =~= event_step(a, e).messages);
                    },
                    None => {},
                }
            },
            ChatEvent::Done(response) => {
                self.generating = false;
                self.last_result = Some(response);
            },
            ChatEvent::Error(msg) => {
                let text = concat("Error: ", msg.as_str());
                self.messages.push(ChatMessage::System(text));
                self.generating = false;
                assert(messages_view(self.messages@) =~= event_step(a, e).messages);
            },
        }
    }

    /// Process agent events in the order they arrived.
    pub fn handle_agent_events(&mut self, events: Vec<ChatEvent>)
        requires
            view_wf(old(self)@),
        ensures
            final(self)@ == events_step(old(self)@, events@),
            view_wf(final(self)@),
    {
        let ghost a = self@;
        let ghost all = events@;
        let mut rest = events;
        let mut i: usize = 0;
        let n = rest.len();
        assert(all.take(0) =~= Seq::<ChatEvent>::empty());
        while i < n
            invariant
                n == all.len(),
                i <= n,
                rest@ == all.skip(i as int),
                view_wf(self@),
                self@ == events_step(a, all.take(i as int)),
            decreases n - i,
        {
            let e = rest.remove(0);
            proof {
                assert(all.take(i + 1).drop_last() =~= all.take(i as int));
                assert(e == all[i as int]);
            }
            self.handle_agent_event(e);
            proof {
                assert(rest@ =~= all.skip(i + 1));
            }
            i = i + 1;
        }
        assert(all.take(n as int) =~= all);
    }
}

} // verus!
