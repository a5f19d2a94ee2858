use vstd::prelude::*;
use vstd::string::StringExecFns;

verus! {

/// Lines scrolled by one page key.
pub const PAGE_LINES: usize = 10;

/// The assistants a conversation can be held with, each with a history of its own.
#[derive(Clone, Copy, Debug, PartialEq, Eq, Structural)]
pub enum AIProvider {
    Claude,
    Grok,
    OpenAI,
    Gemini,
}

/// The provider that follows `p` when switching: they cycle in a fixed order.
pub open spec fn next_provider(p: AIProvider) -> AIProvider {
    match p {
        AIProvider::Claude => AIProvider::Grok,
        AIProvider::Grok => AIProvider::OpenAI,
        AIProvider::OpenAI => AIProvider::Gemini,
        AIProvider::Gemini => AIProvider::Claude,
    }
}

impl AIProvider {
    pub fn next(self) -> (p: AIProvider)
        ensures
            p == next_provider(self),
    {
        match self {
            AIProvider::Claude => AIProvider::Grok,
            AIProvider::Grok => AIProvider::OpenAI,
            AIProvider::OpenAI => AIProvider::Gemini,
            AIProvider::Gemini => AIProvider::Claude,
        }
    }
}

/// Four switches bring the same provider back.
pub proof fn lemma_switching_cycles(p: AIProvider)
    ensures
        next_provider(next_provider(next_provider(next_provider(p)))) == p,
        next_provider(p) != p,
{
}

#[derive(Clone, Copy, Debug, PartialEq, Eq, Structural)]
pub enum MessageRole {
    User,
    Assistant,
}

/// One entry of a conversation; system entries are notices shown to the
/// user and never sent to the assistant.
#[derive(Debug)]
pub struct ChatMessage {
    pub role: MessageRole,
    pub content: String,
    pub is_system: bool,
}

/// Role, text and kind of a message.
pub open spec fn message_view(m: ChatMessage) -> (MessageRole, Seq<char>, bool) {
    (m.role, m.content@, m.is_system)
}

/// Role and text of the messages of `h` that go to the assistant, in order.
pub open spec fn conversation(h: Seq<ChatMessage>) -> Seq<(MessageRole, Seq<char>)>
    decreases h.len(),
{
    if h.len() == 0 {
        Seq::empty()
    } else {
        let rest = conversation(h.drop_last());
        if h.last().is_system {
            rest
        } else {
            rest.push((h.last().role, h.last().content@))
        }
    }
}

/// Marks the notices that the interface adds to a history.
pub open spec fn notice_mark() -> Seq<char> {
    seq!['\u{1F527}', ' ']
}

/// The display name of each provider.
pub struct ProviderNames {
    pub claude: String,
    pub grok: String,
    pub openai: String,
    pub gemini: String,
}

impl ProviderNames {
    /// Display name of provider `p`.
    pub open spec fn name_of(&self, p: AIProvider) -> Seq<char> {
        match p {
            AIProvider::Claude => self.claude@,
            AIProvider::Grok => self.grok@,
            AIProvider::OpenAI => self.openai@,
            AIProvider::Gemini => self.gemini@,
        }
    }

    pub fn name(&self, p: AIProvider) -> (n: &str)
        ensures
            n@ == self.name_of(p),
    {
        match p {
            AIProvider::Claude => self.claude.as_str(),
            AIProvider::Grok => self.grok.as_str(),
            AIProvider::OpenAI => self.openai.as_str(),
            AIProvider::Gemini => self.gemini.as_str(),
        }
    }
}

/// Text of a notice: the notice mark, then `prefix`, then `text`.
fn notice_text(prefix: &str, text: &str) -> (s: String)
    ensures
        s@ == notice_mark() + prefix@ + text@,
{
    let mut s = String::from_str("\u{1F527} ");
    proof {
        reveal_strlit("\u{1F527} ");
    }
    s.append(prefix);
    s.append(text);
    s
}

/// A key press, as the chat interface sees it.
#[derive(Clone, Copy, Debug, PartialEq, Eq, Structural)]
pub enum Key {
    Char(char),
    /// A character typed with Control held.
    Control(char),
    Backspace,
    Enter,
    Up,
    Down,
    PageUp,
    PageDown,
    /// Function key `F(n)`.
    F(u8),
    Other,
}

/// What the caller has to carry out after a key press.
#[derive(Debug)]
pub enum KeyEffect {
    Nothing,
    /// The history of this provider was emptied: forget the stored one too.
    Cleared(AIProvider),
    /// The conversation moved to this provider, whose history now ends with
    /// a notice of the switch: drop pending replies and talk to it from now on.
    Switched(AIProvider),
    /// `text` was sent: store it, and ask the assistant to answer
    /// `conversation`, which ends with it.
    Send { text: String, conversation: Vec<ChatMessage> },
}

/// Relies on std's `String::from_iter` over chars: the string holds them in order.
#[verifier::external_body]
fn string_of(chars: &Vec<char>) -> (s: String)
    ensures
        s@ == chars@,
{
    String::from_iter(chars.iter())
}

/// A copy of `m`.
fn copy_message(m: &ChatMessage) -> (c: ChatMessage)
    ensures
        message_view(c) == message_view(*m),
{
    ChatMessage { role: m.role, content: m.content.clone(), is_system: m.is_system }
}

/// The state of the chat panel: the provider talked to, a history per
/// provider, the line being typed, the scroll position and the modes.
pub struct ChatInterface {
    provider: AIProvider,
    names: ProviderNames,
    claude: Vec<ChatMessage>,
    grok: Vec<ChatMessage>,
    openai: Vec<ChatMessage>,
    gemini: Vec<ChatMessage>,
    input: Vec<char>,
    scroll_offset: usize,
    is_streaming: bool,
    show_help: bool,
}

impl ChatInterface {
    pub closed spec fn spec_provider(&self) -> AIProvider {
        self.provider
    }

    /// The display names of the providers.
    pub closed spec fn spec_names(&self) -> ProviderNames {
        self.names
    }

    /// The history kept for provider `p`.
    pub closed spec fn history(&self, p: AIProvider) -> Seq<ChatMessage> {
        match p {
            AIProvider::Claude => self.claude@,
            AIProvider::Grok => self.grok@,
            AIProvider::OpenAI => self.openai@,
            AIProvider::Gemini => self.gemini@,
        }
    }

    pub closed spec fn spec_input(&self) -> Seq<char> {
        self.input@
    }

    pub closed spec fn spec_scroll(&self) -> usize {
        self.scroll_offset
    }

    pub closed spec fn spec_streaming(&self) -> bool {
        self.is_streaming
    }

    pub closed spec fn spec_help(&self) -> bool {
        self.show_help
    }

    /// The history of the current provider.
    pub open spec fn current(&self) -> Seq<ChatMessage> {
        self.history(self.spec_provider())
    }

    /// Whether `self` and `o` agree on everything but the current history
    /// and the fields named by the flags.
    pub open spec fn same_but(&self, o: &ChatInterface, input: bool, scroll: bool, modes: bool) -> bool {
        &&& self.spec_provider() == o.spec_provider()
        &&& self.spec_names() == o.spec_names()
        &&& self.spec_provider() == AIProvider::Claude || self.history(AIProvider::Claude) == o.history(AIProvider::Claude)
        &&& self.spec_provider() == AIProvider::Grok || self.history(AIProvider::Grok) == o.history(AIProvider::Grok)
        &&& self.spec_provider() == AIProvider::OpenAI || self.history(AIProvider::OpenAI) == o.history(AIProvider::OpenAI)
        &&& self.spec_provider() == AIProvider::Gemini || self.history(AIProvider::Gemini) == o.history(AIProvider::Gemini)
        &&& !input ==> self.spec_input() == o.spec_input()
        &&& !scroll ==> self.spec_scroll() == o.spec_scroll()
        &&& !modes ==> self.spec_streaming() == o.spec_streaming() && self.spec_help() == o.spec_help()
    }

    /// Whether `self` and `o` agree on everything that can be observed.
    pub open spec fn unchanged(&self, o: &ChatInterface) -> bool {
        &&& self.same_but(o, false, false, false)
        &&& self.current() == o.current()
    }

    /// An interface for `provider` with the given display names and stored
    /// histories, scrolled to the top.
    pub fn new(
        provider: AIProvider,
        names: ProviderNames,
        claude: Vec<ChatMessage>,
        grok: Vec<ChatMessage>,
        openai: Vec<ChatMessage>,
        gemini: Vec<ChatMessage>,
    ) -> (c: ChatInterface)
        ensures
            c.spec_provider() == provider,
            c.spec_names() == names,
            c.history(AIProvider::Claude) == claude@,
            c.history(AIProvider::Grok) == grok@,
            c.history(AIProvider::OpenAI) == openai@,
            c.history(AIProvider::Gemini) == gemini@,
            c.spec_input() == Seq::<char>::empty(),
            c.spec_scroll() == 0,
            !c.spec_streaming(),
            !c.spec_help(),
    {
        ChatInterface {
            provider,
            names,
            claude,
            grok,
            openai,
            gemini,
            input: Vec::new(),
            scroll_offset: 0,
            is_streaming: false,
            show_help: false,
        }
    }

    pub fn provider(&self) -> (p: AIProvider)
        ensures
            p == self.spec_provider(),
    {
        self.provider
    }

    pub fn input(&self) -> (i: &Vec<char>)
        ensures
            i@ == self.spec_input(),
    {
        &self.input
    }

    pub fn scroll_offset(&self) -> (s: usize)
        ensures
            s == self.spec_scroll(),
    {
        self.scroll_offset
    }

    pub fn is_streaming(&self) -> (b: bool)
        ensures
            b == self.spec_streaming(),
    {
        self.is_streaming
    }

    pub fn show_help(&self) -> (b: bool)
        ensures
            b == self.spec_help(),
    {
        self.show_help
    }

    /// The history of the current provider.
    pub fn get_current_messages(&self) -> (h: &Vec<ChatMessage>)
        ensures
            h@ == self.current(),
    {
        match self.provider {
            AIProvider::Claude => &self.claude,
            AIProvider::Grok => &self.grok,
            AIProvider::OpenAI => &self.openai,
            AIProvider::Gemini => &self.gemini,
        }
    }

    fn push_current(&mut self, m: ChatMessage)
        ensures
            final(self).current() == old(self).current().push(m),
            final(self).same_but(&*old(self), false, false, false),
    {
        match self.provider {
            AIProvider::Claude => self.claude.push(m),
            AIProvider::Grok => self.grok.push(m),
            AIProvider::OpenAI => self.openai.push(m),
            AIProvider::Gemini => self.gemini.push(m),
        }
    }

    fn clear_current(&mut self)
        ensures
            final(self).current() == Seq::<ChatMessage>::empty(),
            final(self).same_but(&*old(self), false, false, false),
    {
        match self.provider {
            AIProvider::Claude => self.claude = Vec::new(),
            AIProvider::Grok => self.grok = Vec::new(),
            AIProvider::OpenAI => self.openai = Vec::new(),
            AIProvider::Gemini => self.gemini = Vec::new(),
        }
    }

    /// Adds a notice to the current history: `content` after the notice mark.
    pub fn add_system_message(&mut self, content: &str)
        ensures
            final(self).current().len() == old(self).current().len() + 1,
            final(self).current().drop_last() == old(self).current(),
            message_view(final(self).current().last()) == (
                MessageRole::Assistant,
                notice_mark() + content@,
                true,
            ),
            final(self).same_but(&*old(self), false, false, false),
    {
        let text = notice_text("", content);
        proof {
            reveal_strlit("");
            assert(text@ =~= notice_mark() + content@);
        }
        self.push_current(ChatMessage { role: MessageRole::Assistant, content: text, is_system: true });
        proof {
            assert(self.current().drop_last() =~= old(self).current());
        }
    }

    /// The messages of the current history that go to the assistant.
    fn outgoing(&self) -> (c: Vec<ChatMessage>)
        ensures
            c@.map_values(|m: ChatMessage| (m.role, m.content@)) == conversation(self.current()),
            forall|i: int| 0 <= i < c@.len() ==> !(#[trigger] c@[i]).is_system,
    {
        let h = self.get_current_messages();
        let mut c: Vec<ChatMessage> = Vec::new();
        let mut k: usize = 0;
        while k < h.len()
            invariant
                k <= h@.len(),
                c@.map_values(|m: ChatMessage| (m.role, m.content@)) == conversation(h@.take(k as int)),
                forall|i: int| 0 <= i < c@.len() ==> !(#[trigger] c@[i]).is_system,
            decreases h@.len() - k,
        {
            proof {
                assert(h@.take(k + 1).drop_last() =~= h@.take(k as int));
                assert(h@.take(k + 1).last() == h@[k as int]);
            }
            if !h[k].is_system {
                let m = copy_message(&h[k]);
                c.push(m);
                proof {
                    assert(c@.map_values(|m: ChatMessage| (m.role, m.content@)) =~= conversation(
                        h@.take(k + 1),
                    ));
                }
            }
            k = k + 1;
        }
        proof {
            assert(h@.take(h@.len() as int) =~= h@);
        }
        c
    }

    /// Applies one key press.
    /// - Control-L empties the current history and scrolls to the top.
    /// - F1 shows or hides the help; F2 switches to the next provider, ends
    ///   the wait for a reply, notes the switch in that provider's history
    ///   and scrolls to the top.
    /// - A character or Backspace edits the line being typed.
    /// - Enter sends a non-empty line unless a reply is awaited: it joins the
    ///   history as the user's, and the wait begins.
    /// - Up, Down, PageUp and PageDown scroll by one or by `PAGE_LINES`,
    ///   never past the last message nor above the first.
    pub fn handle_key(&mut self, key: Key) -> (e: KeyEffect)
        ensures
            key_law(*old(self), key, *final(self), e),
    {
        let len = self.get_current_messages().len();
        let last: usize = if len == 0 {
            0
        } else {
            len - 1
        };
        match key {
            Key::Control(c) => {
                if c == 'l' {
                    self.clear_current();
                    self.scroll_offset = 0;
                    KeyEffect::Cleared(self.provider)
                } else {
                    KeyEffect::Nothing
                }
            },
            Key::F(n) => {
                if n == 1 {
                    self.show_help = !self.show_help;
                    KeyEffect::Nothing
                } else if n == 2 {
                    self.is_streaming = false;
                    self.provider = self.provider.next();
                    self.scroll_offset = 0;
                    let text = notice_text("Switched to ", self.names.name(self.provider));
                    self.push_current(ChatMessage { role: MessageRole::Assistant, content: text, is_system: true });
                    proof {
                        assert(self.current().drop_last() =~= old(self).history(self.spec_provider()));
                    }
                    KeyEffect::Switched(self.provider)
                } else {
                    KeyEffect::Nothing
                }
            },
            Key::Char(c) => {
                self.input.push(c);
                KeyEffect::Nothing
            },
            Key::Backspace => {
                if self.input.len() > 0 {
                    self.input.pop();
                }
                KeyEffect::Nothing
            },
            Key::Enter => {
                if self.input.len() > 0 && !self.is_streaming {
                    let text = string_of(&self.input);
                    let stored = string_of(&self.input);
                    self.input = Vec::new();
                    self.push_current(ChatMessage { role: MessageRole::User, content: stored, is_system: false });
                    proof {
                        assert(self.current().drop_last() =~= old(self).current());
                    }
                    self.is_streaming = true;
                    let conversation = self.outgoing();
                    KeyEffect::Send { text, conversation }
                } else {
                    KeyEffect::Nothing
                }
            },
            Key::Up => {
                self.scroll_offset = self.scroll_offset.saturating_sub(1);
                KeyEffect::Nothing
            },
            Key::Down => {
                if self.scroll_offset < last {
                    self.scroll_offset = self.scroll_offset + 1;
                }
                KeyEffect::Nothing
            },
            Key::PageUp => {
                self.scroll_offset = self.scroll_offset.saturating_sub(PAGE_LINES);
                KeyEffect::Nothing
            },
            Key::PageDown => {
                let down = self.scroll_offset.saturating_add(PAGE_LINES);
                self.scroll_offset = if down < last {
                    down
                } else {
                    last
                };
                KeyEffect::Nothing
            },
            Key::Other => KeyEffect::Nothing,
        }
    }

    /// Takes the assistant's reply, if one has arrived: the wait ends; a
    /// reply joins the current history and the view scrolls to it, and a
    /// failure is noted in the history as a notice: "Error: " and its text.
    pub fn update(&mut self, reply: Option<Result<String, String>>)
        ensures
            reply is None ==> final(self).unchanged(&*old(self)),
            reply is Some ==> {
                &&& !final(self).spec_streaming()
                &&& final(self).spec_help() == old(self).spec_help()
                &&& final(self).current().drop_last() == old(self).current()
                &&& final(self).current().len() == old(self).current().len() + 1
            },
            reply matches Some(Ok(text)) ==> {
                &&& final(self).same_but(&*old(self), false, true, true)
                &&& message_view(final(self).current().last()) == (MessageRole::Assistant, text@, false)
                &&& final(self).spec_scroll() == old(self).current().len()
            },
            reply matches Some(Err(error)) ==> {
                &&& final(self).same_but(&*old(self), false, false, true)
                &&& message_view(final(self).current().last()) == (
                    MessageRole::Assistant,
                    notice_mark() + "Error: "@ + error@,
                    true,
                )
            },
    {
        match reply {
            None => {},
            Some(Ok(text)) => {
                self.is_streaming = false;
                let len = self.get_current_messages().len();
                self.push_current(ChatMessage { role: MessageRole::Assistant, content: text, is_system: false });
                proof {
                    assert(self.current().drop_last() =~= old(self).current());
                }
                self.scroll_offset = len;
            },
            Some(Err(error)) => {
                self.is_streaming = false;
                let text = notice_text("Error: ", error.as_str());
                self.push_current(ChatMessage { role: MessageRole::Assistant, content: text, is_system: true });
                proof {
                    assert(self.current().drop_last() =~= old(self).current());
                }
            },
        }
    }
}

/// Last scroll position for a history of `n` messages.
pub open spec fn last_line(n: int) -> int {
    if n == 0 {
        0
    } else {
        n - 1
    }
}

/// What a key press does: `c` is the interface after `key` is applied to
/// `o`, and `e` what the caller is asked to do.
pub open spec fn key_law(o: ChatInterface, key: Key, c: ChatInterface, e: KeyEffect) -> bool {
    let last = last_line(o.current().len() as int);
    match key {
        Key::Control(ch) => if ch == 'l' {
            &&& c.same_but(&o, false, true, false)
            &&& c.current() == Seq::<ChatMessage>::empty()
            &&& c.spec_scroll() == 0
            &&& e == KeyEffect::Cleared(o.spec_provider())
        } else {
            c.unchanged(&o) && e == KeyEffect::Nothing
        },
        Key::F(n) => if n == 1 {
            &&& c.same_but(&o, false, false, true)
            &&& c.current() == o.current()
            &&& c.spec_help() == !o.spec_help()
            &&& c.spec_streaming() == o.spec_streaming()
            &&& e == KeyEffect::Nothing
        } else if n == 2 {
            &&& c.spec_provider() == next_provider(o.spec_provider())
            &&& c.spec_names() == o.spec_names()
            &&& forall|p: AIProvider| p != c.spec_provider() ==> #[trigger] c.history(p) == o.history(p)
            &&& c.current().drop_last() == o.history(c.spec_provider())
            &&& c.current().len() == o.history(c.spec_provider()).len() + 1
            &&& message_view(c.current().last()) == (
                MessageRole::Assistant,
                notice_mark() + "Switched to "@ + o.spec_names().name_of(c.spec_provider()),
                true,
            )
            &&& c.spec_input() == o.spec_input()
            &&& c.spec_scroll() == 0
            &&& !c.spec_streaming()
            &&& c.spec_help() == o.spec_help()
            &&& e == KeyEffect::Switched(c.spec_provider())
        } else {
            c.unchanged(&o) && e == KeyEffect::Nothing
        },
        Key::Char(ch) => {
            &&& c.same_but(&o, true, false, false)
            &&& c.current() == o.current()
            &&& c.spec_input() == o.spec_input().push(ch)
            &&& e == KeyEffect::Nothing
        },
        Key::Backspace => {
            &&& c.same_but(&o, true, false, false)
            &&& c.current() == o.current()
            &&& c.spec_input() == (if o.spec_input().len() == 0 {
                o.spec_input()
            } else {
                o.spec_input().drop_last()
            })
            &&& e == KeyEffect::Nothing
        },
        Key::Enter => if o.spec_input().len() > 0 && !o.spec_streaming() {
            &&& c.same_but(&o, true, false, true)
            &&& c.spec_input() == Seq::<char>::empty()
            &&& c.spec_streaming()
            &&& c.spec_help() == o.spec_help()
            &&& c.current().drop_last() == o.current()
            &&& c.current().len() == o.current().len() + 1
            &&& message_view(c.current().last()) == (MessageRole::User, o.spec_input(), false)
            &&& match e {
                KeyEffect::Send { text, conversation: conv } => {
                    &&& text@ == o.spec_input()
                    &&& conv@.map_values(|m: ChatMessage| (m.role, m.content@)) == conversation(c.current())
                },
                _ => false,
            }
        } else {
            c.unchanged(&o) && e == KeyEffect::Nothing
        },
        Key::Up => {
            &&& c.same_but(&o, false, true, false)
            &&& c.current() == o.current()
            &&& c.spec_scroll() == (if o.spec_scroll() == 0 { 0 } else { o.spec_scroll() - 1 })
            &&& e == KeyEffect::Nothing
        },
        Key::Down => {
            &&& c.same_but(&o, false, true, false)
            &&& c.current() == o.current()
            &&& c.spec_scroll() == (if o.spec_scroll() < last { o.spec_scroll() + 1 } else { o.spec_scroll() as int })
            &&& e == KeyEffect::Nothing
        },
        Key::PageUp => {
            &&& c.same_but(&o, false, true, false)
            &&& c.current() == o.current()
            &&& c.spec_scroll() == (if o.spec_scroll() < PAGE_LINES { 0 } else { o.spec_scroll() - PAGE_LINES })
            &&& e == KeyEffect::Nothing
        },
        Key::PageDown => {
            &&& c.same_but(&o, false, true, false)
            &&& c.current() == o.current()
            &&& c.spec_scroll() == crate::min_int(o.spec_scroll() + PAGE_LINES, last)
            &&& e == KeyEffect::Nothing
        },
        Key::Other => c.unchanged(&o) && e == KeyEffect::Nothing,
    }
}

} // verus!
