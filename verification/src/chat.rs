//! Routing of incoming chat messages: the game bot's commands, and the karma bot's slash
//! commands, rating replies and greetings.

use vstd::prelude::*;
use crate::ratings::{parse_rating_delta, rating_delta_spec};
use crate::text::{
    chars_of, equal_ignoring_ascii_case, equals_ignoring_ascii_case, equals_text, is_whitespace,
    strippable_exec, trim_end_index, trim_start_index, trimmed, unicode_whitespace,
};

verus! {

/// The bot's slash commands.
#[derive(Clone, Copy, Debug, PartialEq, Eq, Structural)]
pub enum BotCommand {
    /// `/ping`: a liveness reply.
    Ping,
    /// `/ratings`, `/top`, `/leaderboard`: the chat's best-rated members.
    Ratings,
    /// `/rating`, `/my_rating`: the sender's own score.
    MyRating,
    /// `/me`: who the bot is.
    Me,
    /// `/help`: the command list.
    Help,
}

/// The command a slash-command name selects; names are matched exactly.
pub open spec fn command_spec(name: Seq<char>) -> Option<BotCommand> {
    if name == "ping"@ {
        Some(BotCommand::Ping)
    } else if name == "ratings"@ || name == "top"@ || name == "leaderboard"@ {
        Some(BotCommand::Ratings)
    } else if name == "rating"@ || name == "my_rating"@ {
        Some(BotCommand::MyRating)
    } else if name == "me"@ {
        Some(BotCommand::Me)
    } else if name == "help"@ {
        Some(BotCommand::Help)
    } else {
        None
    }
}

/// The command named `name`, if the bot knows it.
pub fn command_of(name: &str) -> (command: Option<BotCommand>)
    ensures
        command == command_spec(name@),
{
    let chars = chars_of(name);
    if equals_text(&chars, "ping") {
        Some(BotCommand::Ping)
    } else if equals_text(&chars, "ratings") || equals_text(&chars, "top")
        || equals_text(&chars, "leaderboard") {
        Some(BotCommand::Ratings)
    } else if equals_text(&chars, "rating") || equals_text(
        &chars,
        "my_rating",
    ) {
        Some(BotCommand::MyRating)
    } else if equals_text(&chars, "me") {
        Some(BotCommand::Me)
    } else if equals_text(&chars, "help") {
        Some(BotCommand::Help)
    } else {
        None
    }
}

/// Index of the first whitespace character of `s` from `i` on, or its length.
pub open spec fn first_space(s: Seq<char>, i: int) -> int
    decreases s.len() - i,
{
    if 0 <= i < s.len() && !unicode_whitespace(s[i]) {
        first_space(s, i + 1)
    } else {
        i
    }
}

proof fn lemma_first_space_bounds(s: Seq<char>, i: int)
    requires
        0 <= i <= s.len(),
    ensures
        i <= first_space(s, i) <= s.len(),
        first_space(s, i) < s.len() ==> unicode_whitespace(s[first_space(s, i)]),
    decreases s.len() - i,
{
    if i < s.len() && !unicode_whitespace(s[i]) {
        lemma_first_space_bounds(s, i + 1);
    }
}

/// `trim_start_index` of a string, from `from` on.
fn trim_start_from(s: &str, words: bool, from: usize) -> (i: usize)
    requires
        from <= s@.len(),
    ensures
        i == trim_start_index(s@, words, from as int),
        from <= i <= s@.len(),
{
    let n = s.unicode_len();
    let mut i = from;
    while i < n && strippable_exec(s.get_char(i), words)
        invariant
            n == s@.len(),
            from <= i <= n,
            trim_start_index(s@, words, i as int) == trim_start_index(s@, words, from as int),
        decreases n - i,
    {
        i = i + 1;
    }
    i
}

/// `s` without strippable characters at either end.
fn trimmed_str<'a>(s: &'a str, words: bool) -> (t: &'a str)
    ensures
        t@ == trimmed(s@, words),
{
    let n = s.unicode_len();
    let lo = trim_start_from(s, words, 0);
    let mut hi = n;
    while hi > lo && strippable_exec(s.get_char(hi - 1), words)
        invariant
            n == s@.len(),
            lo <= hi <= n,
            lo == trim_start_index(s@, words, 0),
            trim_end_index(s@, words, lo as int, hi as int) == trim_end_index(
                s@,
                words,
                lo as int,
                n as int,
            ),
        decreases hi - lo,
    {
        hi = hi - 1;
    }
    s.substring_char(lo, hi)
}

/// `first_space` of a string.
fn first_space_of(s: &str) -> (k: usize)
    ensures
        k == first_space(s@, 0),
        k <= s@.len(),
{
    let n = s.unicode_len();
    let mut k: usize = 0;
    while k < n && !is_whitespace(s.get_char(k))
        invariant
            n == s@.len(),
            k <= n,
            first_space(s@, k as int) == first_space(s@, 0),
        decreases n - k,
    {
        k = k + 1;
    }
    k
}

/// The name and the arguments of a slash command in already trimmed text: the name runs from
/// after the `/` to the first whitespace character, and the arguments follow that character,
/// with leading whitespace removed. `None` when the text is not a command or the name is empty.
pub open spec fn command_parts(t: Seq<char>) -> Option<(Seq<char>, Seq<char>)> {
    if t.len() > 0 && t[0] == '/' {
        let line = t.subrange(1, t.len() as int);
        let k = first_space(line, 0);
        let name = line.subrange(0, k);
        let args = if k < line.len() {
            let rest = line.subrange(k + 1, line.len() as int);
            rest.subrange(trim_start_index(rest, false, 0), rest.len() as int)
        } else {
            Seq::<char>::empty()
        };
        if name.len() > 0 {
            Some((name, args))
        } else {
            None
        }
    } else {
        None
    }
}

/// What the bot does with an incoming message.
#[derive(Debug)]
pub enum MessageRoute<'a> {
    /// Media sent in a private chat: downloaded and sent back as a document.
    EchoMedia,
    /// Neither media to echo nor text: nothing to do.
    Ignore,
    /// A slash command with its arguments.
    Command { name: &'a str, args: &'a str },
    /// A reply that rates the replied-to message's author.
    Rate { delta: i64 },
    /// Any other text, trimmed, for the conversational patterns.
    Pattern { text: &'a str },
}

/// The route of text `text`: a command when it is one; else a rating when it asks for one and
/// replies to a message; else a pattern.
pub open spec fn text_route_matches(route: MessageRoute, text: Seq<char>, replies_to_message: bool) -> bool {
    let t = trimmed(text, false);
    match command_parts(t) {
        Some(parts) => route matches MessageRoute::Command { name, args } && name@ == parts.0
            && args@ == parts.1,
        None => if rating_delta_spec(t) is Some && replies_to_message {
            route matches MessageRoute::Rate { delta } && delta == rating_delta_spec(t)->0
        } else {
            route matches MessageRoute::Pattern { text: p } && p@ == t
        },
    }
}

/// Routes a message of chat `chat_id`: media in a private chat (an id of zero or more) is echoed,
/// a message without text is ignored, and text goes by `text_route_matches`.
pub fn route_message<'a>(chat_id: i64, has_media: bool, text: Option<&'a str>, replies_to_message: bool) -> (route:
    MessageRoute<'a>)
    ensures
        has_media && chat_id >= 0 ==> route is EchoMedia,
        !(has_media && chat_id >= 0) && text is None ==> route is Ignore,
        !(has_media && chat_id >= 0) && text is Some ==> text_route_matches(
            route,
            text->0@,
            replies_to_message,
        ),
{
    if has_media && chat_id >= 0 {
        return MessageRoute::EchoMedia;
    }
    let text = match text {
        Some(text) => text,
        None => return MessageRoute::Ignore,
    };
    let t = trimmed_str(text, false);
    let n = t.unicode_len();
    if n > 0 && t.get_char(0) == '/' {
        let line = t.substring_char(1, n);
        let m = line.unicode_len();
        let k = first_space_of(line);
        proof {
            lemma_first_space_bounds(line@, 0);
        }
        let name = line.substring_char(0, k);
        let args = if k < m {
            let rest = line.substring_char(k + 1, m);
            let lo = trim_start_from(rest, false, 0);
            rest.substring_char(lo, rest.unicode_len())
        } else {
            line.substring_char(m, m)
        };
        proof {
            assert(line@.subrange(m as int, m as int) =~= Seq::<char>::empty());
        }
        if k > 0 {
            return MessageRoute::Command { name, args };
        }
    }
    match parse_rating_delta(t) {
        Some(delta) => {
            if replies_to_message {
                return MessageRoute::Rate { delta };
            }
        },
        None => {},
    }
    MessageRoute::Pattern { text: t }
}

/// Greetings the bot answers, in any ASCII case.
pub open spec fn is_greeting_word(w: Seq<char>) -> bool {
    ||| equal_ignoring_ascii_case(w, "hello"@)
    ||| equal_ignoring_ascii_case(w, "hi"@)
    ||| equal_ignoring_ascii_case(w, "hey"@)
    ||| equal_ignoring_ascii_case(w, "sup"@)
}

/// Text that greets the bot: its first word, trimmed of anything not alphanumeric, is a
/// greeting, and nothing alphanumeric follows it.
pub open spec fn greeting_spec(text: Seq<char>) -> bool {
    let k = first_space(text, 0);
    let first = text.subrange(0, k);
    let rest = if k < text.len() {
        text.subrange(k + 1, text.len() as int)
    } else {
        Seq::<char>::empty()
    };
    let standalone = rest.len() == 0 || trimmed(rest, true).len() == 0;
    standalone && is_greeting_word(trimmed(first, true))
}

/// Whether `text` greets the bot.
pub fn is_greeting(text: &str) -> (greeting: bool)
    ensures
        greeting == greeting_spec(text@),
{
    let n = text.unicode_len();
    let k = first_space_of(text);
    let first = text.substring_char(0, k);
    let rest = if k < n {
        text.substring_char(k + 1, n)
    } else {
        text.substring_char(n, n)
    };
    proof {
        assert(text@.subrange(n as int, n as int) =~= Seq::<char>::empty());
    }
    let standalone = rest.unicode_len() == 0 || trimmed_str(rest, true).unicode_len() == 0;
    if !standalone {
        return false;
    }
    let word = chars_of(trimmed_str(first, true));
    equals_ignoring_ascii_case(&word, "hello") || equals_ignoring_ascii_case(&word, "hi")
        || equals_ignoring_ascii_case(&word, "hey") || equals_ignoring_ascii_case(&word, "sup")
}

/// What a command message asks of the game bot.
#[derive(Clone, Copy, Debug, PartialEq, Eq, Structural)]
pub enum GameCommand {
    /// `/fish` in a group: show the current shoal.
    ShowShoal,
    /// `/help` in a group, from a user: the group guide.
    GroupHelp,
    /// `/start` in a private chat: the character's home panel.
    Start,
    /// Any other command in a private chat: the guide.
    Guide,
    /// Nothing to do.
    Nothing,
}

/// The game command for command `name` in chat `chat_id` (groups have negative ids), sent by an
/// individual user or not.
pub open spec fn game_command_spec(chat_id: i64, sender_is_user: bool, name: Seq<char>) -> GameCommand {
    if chat_id < 0 {
        if name == "fish"@ {
            GameCommand::ShowShoal
        } else if name == "help"@ && sender_is_user {
            GameCommand::GroupHelp
        } else {
            GameCommand::Nothing
        }
    } else if !sender_is_user {
        GameCommand::Nothing
    } else if name == "start"@ {
        GameCommand::Start
    } else {
        GameCommand::Guide
    }
}

/// What command `name`, sent in chat `chat_id`, asks of the game bot.
pub fn game_command(chat_id: i64, sender_is_user: bool, name: &str) -> (command: GameCommand)
    ensures
        command == game_command_spec(chat_id, sender_is_user, name@),
{
    let chars = chars_of(name);
    if chat_id < 0 {
        if equals_text(&chars, "fish") {
            GameCommand::ShowShoal
        } else if equals_text(&chars, "help") && sender_is_user {
            GameCommand::GroupHelp
        } else {
            GameCommand::Nothing
        }
    } else if !sender_is_user {
        GameCommand::Nothing
    } else if equals_text(&chars, "start") {
        GameCommand::Start
    } else {
        GameCommand::Guide
    }
}

} // verus!
