//! The state of a chat window.

use vstd::prelude::*;
use crate::text::{decimal, decimal_string, digits_value, is_numeral};

verus! {

/// The messages shown in a chat window, oldest first.
#[derive(Clone, PartialEq)]
pub struct ChatState {
    messages: Vec<String>,
}

/// What happens to a chat.
pub enum ChatAction {
    MessageSent(String),
}

impl View for ChatState {
    type V = Seq<Seq<char>>;

    closed spec fn view(&self) -> Seq<Seq<char>> {
        self.messages.deep_view()
    }
}

impl Default for ChatState {
    /// A chat with no messages.
    fn default() -> (c: Self)
        ensures
            c@ == Seq::<Seq<char>>::empty(),
    {
        ChatState { messages: Vec::new() }
    }
}

impl ChatState {
    /// The messages after `message` is added: an empty message is dropped.
    pub open spec fn with_message(messages: Seq<Seq<char>>, message: Seq<char>) -> Seq<Seq<char>> {
        if message.len() == 0 {
            messages
        } else {
            messages.push(message)
        }
    }

    /// Appends a message; an empty one is ignored.
    pub fn add_message(&mut self, message: &str)
        ensures
            final(self)@ == Self::with_message(old(self)@, message@),
            message@.len() > 0 ==> final(self)@ == old(self)@.push(message@),
            message@.len() == 0 ==> final(self)@ == old(self)@,
    {
        if !message.is_empty() {
            self.messages.push(String::from_str(message));
            assert(self.messages.deep_view() =~= old(self).messages.deep_view().push(message@));
        }
    }

    /// The messages, oldest first.
    pub fn get_messages(&self) -> (m: &Vec<String>)
        ensures
            m.deep_view() == self@,
    {
        &self.messages
    }

    /// The number of messages, in decimal.
    pub fn messages_count(&self) -> (s: String)
        ensures
            s@ == decimal(self@.len()),
            is_numeral(s@),
            digits_value(s@) == self@.len(),
    {
        decimal_string(self.messages.len())
    }

    /// The state after `action`: a sent message is added as `add_message`
    /// adds it.
    pub fn reduce(&self, action: ChatAction) -> (c: Self)
        ensures
            match action {
                ChatAction::MessageSent(m) => c@ == Self::with_message(self@, m@),
            },
            match action {
                ChatAction::MessageSent(m) => m@.len() > 0 ==> c@ == self@.push(m@),
            },
            match action {
                ChatAction::MessageSent(m) => m@.len() == 0 ==> c@ == self@,
            },
    {
        match action {
            ChatAction::MessageSent(message) => {
                let mut copy = ChatState { messages: self.messages.clone() };
                assert(copy@ =~= self@);
                copy.add_message(message.as_str());
                copy
            },
        }
    }
}

/// The part of a `host` (`name` or `name:port`) before its first ':'.
pub open spec fn host_name(host: Seq<char>) -> Seq<char>
    decreases host.len(),
{
    if host.len() == 0 || host[0] == ':' {
        Seq::empty()
    } else {
        seq![host[0]] + host_name(host.drop_first())
    }
}

/// The scheme of the chat socket: secure when the page is.
pub open spec fn socket_scheme(page_protocol: Seq<char>) -> Seq<char> {
    if page_protocol == "https:"@ {
        "wss:"@
    } else {
        "ws:"@
    }
}

/// The address of the chat socket for a page: its host name, port 3000,
/// path `/ws`.
pub open spec fn chat_socket_address(page_protocol: Seq<char>, host: Seq<char>) -> Seq<char> {
    socket_scheme(page_protocol) + "//"@ + host_name(host) + ":3000/ws"@
}

proof fn lemma_host_name_prefix(host: Seq<char>, k: int)
    requires
        0 <= k <= host.len(),
        k == host.len() || host[k] == ':',
        forall|j: int| 0 <= j < k ==> host[j] != ':',
    ensures
        host_name(host) == host.take(k),
    decreases host.len(),
{
    if k == 0 {
        assert(host.take(0) =~= Seq::<char>::empty());
    } else {
        let rest = host.drop_first();
        assert forall|j: int| 0 <= j < k - 1 implies rest[j] != ':' by {
            assert(rest[j] == host[j + 1]);
        }
        lemma_host_name_prefix(rest, k - 1);
        assert(host.take(k) =~= seq![host[0]] + rest.take(k - 1));
    }
}

/// The address that a writable chat connects its socket to, given the
/// page's protocol and host.
pub fn chat_socket_url(page_protocol: &str, host: &str) -> (url: String)
    ensures
        url@ == chat_socket_address(page_protocol@, host@),
        exists|k: int|
            #![trigger host@.take(k)]
            {
                &&& 0 <= k <= host@.len()
                &&& (k == host@.len() || host@[k] == ':')
                &&& forall|j: int| 0 <= j < k ==> host@[j] != ':'
                &&& url@ == (if page_protocol@ == "https:"@ {
                    "wss:"@
                } else {
                    "ws:"@
                }) + "//"@ + host@.take(k) + ":3000/ws"@
            },
{
    proof {
        reveal_strlit("https:");
        reveal_strlit("wss:");
        reveal_strlit("ws:");
        reveal_strlit("//");
        reveal_strlit(":3000/ws");
    }
    let secure = String::from_str(page_protocol) == String::from_str("https:");
    let mut url = if secure {
        String::from_str("wss:")
    } else {
        String::from_str("ws:")
    };
    url.append("//");
    let n = host.unicode_len();
    let mut i: usize = 0;
    while i < n && host.get_char(i) != ':'
        invariant
            i <= n,
            n == host@.len(),
            forall|j: int| 0 <= j < i ==> host@[j] != ':',
        decreases n - i,
    {
        i += 1;
    }
    proof {
        lemma_host_name_prefix(host@, i as int);
        assert(host@.take(i as int) == host_name(host@));
    }
    url.append(host.substring_char(0, i));
    url.append(":3000/ws");
    url
}

} // verus!
