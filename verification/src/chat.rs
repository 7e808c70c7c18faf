//! The chat: editing the line being typed, and the bounded history of lines.
use vstd::prelude::*;
use std::collections::VecDeque;

use crate::commands::{command_of_words, words, GameCommand};
use crate::text::{pop_char, push_char};

verus! {

/// The most lines the chat keeps.
pub const MAX_CHAT_MESSAGES: usize = 50;

/// A key typed into a text line.
#[derive(Debug, Clone, PartialEq, Eq)]
pub enum TextKey {
    Enter,
    Space,
    Backspace,
    Character(String),
    Other,
}

/// The line after a key: Space adds a blank, Backspace removes the last
/// character if any, a character key adds its text; Enter and other keys
/// leave the line as it is.
pub open spec fn edited_line(line: Seq<char>, key: TextKey) -> Seq<char> {
    match key {
        TextKey::Space => line.push(' '),
        TextKey::Backspace => if line.len() > 0 {
            line.drop_last()
        } else {
            line
        },
        TextKey::Character(c) => line + c@,
        _ => line,
    }
}

/// Applies a key to the line being typed.
pub fn edit_line(buffer: &mut String, key: &TextKey)
    ensures
        final(buffer)@ == edited_line(old(buffer)@, *key),
{
    match key {
        TextKey::Space => push_char(buffer, ' '),
        TextKey::Backspace => {
            let _ = pop_char(buffer);
        },
        TextKey::Character(c) => buffer.append(c.as_str()),
        _ => {},
    }
}

/// The history after a new line: the line goes to the back and, when that
/// makes more than the most lines kept, the oldest line leaves.
pub open spec fn history_after<T>(history: Seq<T>, line: T) -> Seq<T> {
    if history.len() + 1 > MAX_CHAT_MESSAGES {
        history.push(line).drop_first()
    } else {
        history.push(line)
    }
}

/// Adds a line to the chat history; returns the line that left it, if one did.
pub fn push_message<T>(history: &mut VecDeque<T>, line: T) -> (dropped: Option<T>)
    ensures
        final(history)@ == history_after(old(history)@, line),
        dropped == (if old(history)@.len() + 1 > MAX_CHAT_MESSAGES {
            Some(old(history)@.push(line)[0])
        } else {
            None::<T>
        }),
{
    history.push_back(line);
    if history.len() > MAX_CHAT_MESSAGES {
        history.pop_front()
    } else {
        None
    }
}

/// A history of at most 50 lines stays that short after a new line, and
/// always ends with the newest line.
pub proof fn lemma_history_bounded<T>(history: Seq<T>, line: T)
    requires
        history.len() <= MAX_CHAT_MESSAGES,
    ensures
        history_after(history, line).len() <= MAX_CHAT_MESSAGES,
        history_after(history, line).last() == line,
{
}

/// What a key does to a command being typed into the chat.
#[derive(Debug, PartialEq, Eq)]
pub enum CommandInput {
    /// Keep typing the command.
    Continue,
    /// The line became empty: back to ordinary chat.
    Leave,
    /// Enter was pressed: the command to run, or the chat line that reports
    /// why the line is no command. The line is cleared and the chat goes back
    /// to ordinary messages.
    Submit(Result<GameCommand, String>),
}

/// `outcome` is what a key does to the command line `line`: Enter submits the
/// command that the line stands for (or a failure line), Backspace leaves the
/// command mode when it empties the line, and the other keys keep typing.
pub open spec fn command_key_result(line: Seq<char>, key: TextKey, outcome: CommandInput) -> bool {
    match key {
        TextKey::Enter => match outcome {
            CommandInput::Submit(Ok(c)) => command_of_words(
                words(line.drop_first()),
                Ok::<GameCommand, &'static str>(c),
            ),
            CommandInput::Submit(Err(m)) => exists|e: &'static str|
                command_of_words(words(line.drop_first()), Err::<GameCommand, &'static str>(e))
                    && m@ == "[FAIL] "@ + e@,
            _ => false,
        },
        TextKey::Backspace => outcome == (if edited_line(line, key).len() == 0 {
            CommandInput::Leave
        } else {
            CommandInput::Continue
        }),
        _ => outcome == CommandInput::Continue,
    }
}

/// Applies a key to the command being typed.
pub fn command_input(buffer: &mut String, key: &TextKey) -> (outcome: CommandInput)
    requires
        *key == TextKey::Enter ==> old(buffer)@.len() > 0,
    ensures
        command_key_result(old(buffer)@, *key, outcome),
        *key == TextKey::Enter ==> final(buffer)@.len() == 0,
        *key != TextKey::Enter ==> final(buffer)@ == edited_line(old(buffer)@, *key),
{
    match key {
        TextKey::Enter => {
            let line = buffer.clone();
            *buffer = String::new();
            match GameCommand::try_from(line) {
                Ok(command) => CommandInput::Submit(Ok(command)),
                Err(e) => {
                    let mut m = String::new();
                    m.append("[FAIL] ");
                    m.append(e);
                    assert(m@ =~= "[FAIL] "@ + e@);
                    CommandInput::Submit(Err(m))
                },
            }
        },
        TextKey::Backspace => {
            let _ = pop_char(buffer);
            if buffer.as_str().is_empty() {
                CommandInput::Leave
            } else {
                CommandInput::Continue
            }
        },
        _ => {
            edit_line(buffer, key);
            CommandInput::Continue
        },
    }
}

/// The line being typed after the keys: Enter sends the line and starts an
/// empty one, the other keys edit it.
pub open spec fn typed_line(line: Seq<char>, keys: Seq<TextKey>) -> Seq<char>
    decreases keys.len(),
{
    if keys.len() == 0 {
        line
    } else {
        let before = typed_line(line, keys.drop_last());
        if keys.last() == TextKey::Enter {
            Seq::empty()
        } else {
            edited_line(before, keys.last())
        }
    }
}

/// The lines that the keys send, in order: the line as it stands at each Enter.
pub open spec fn sent_lines(line: Seq<char>, keys: Seq<TextKey>) -> Seq<Seq<char>>
    decreases keys.len(),
{
    if keys.len() == 0 {
        Seq::empty()
    } else {
        let before = sent_lines(line, keys.drop_last());
        if keys.last() == TextKey::Enter {
            before.push(typed_line(line, keys.drop_last()))
        } else {
            before
        }
    }
}

/// The history after several lines, each added as `history_after` adds one.
pub open spec fn history_after_all<T>(history: Seq<T>, lines: Seq<T>) -> Seq<T>
    decreases lines.len(),
{
    if lines.len() == 0 {
        history
    } else {
        history_after(history_after_all(history, lines.drop_last()), lines.last())
    }
}

/// The lines that leave the history while several lines are added, oldest first.
pub open spec fn evicted_lines<T>(history: Seq<T>, lines: Seq<T>) -> Seq<T>
    decreases lines.len(),
{
    if lines.len() == 0 {
        Seq::empty()
    } else {
        let before = history_after_all(history, lines.drop_last());
        let out = evicted_lines(history, lines.drop_last());
        if before.len() + 1 > MAX_CHAT_MESSAGES {
            out.push(before.push(lines.last())[0])
        } else {
            out
        }
    }
}

/// The last lines of `s`, at most as many as the chat keeps.
pub open spec fn keep_last<T>(s: Seq<T>) -> Seq<T> {
    if s.len() > MAX_CHAT_MESSAGES {
        s.skip(s.len() - MAX_CHAT_MESSAGES)
    } else {
        s
    }
}

/// The text that the input field shows after the keys, if any key changed it:
/// the placeholder after Enter, the line after an editing key.
pub open spec fn shown_text(line: Seq<char>, keys: Seq<TextKey>) -> Option<Seq<char>>
    decreases keys.len(),
{
    if keys.len() == 0 {
        None
    } else {
        let before = shown_text(line, keys.drop_last());
        match keys.last() {
            TextKey::Enter => Some("Start typing ..."@),
            TextKey::Other => before,
            _ => Some(typed_line(line, keys)),
        }
    }
}

/// A history of at most 50 lines, after any lines are added, holds the last
/// (at most 50) of its lines followed by the new ones.
pub proof fn lemma_history_keeps_last<T>(history: Seq<T>, lines: Seq<T>)
    requires
        history.len() <= MAX_CHAT_MESSAGES,
    ensures
        history_after_all(history, lines) == keep_last(history + lines),
    decreases lines.len(),
{
    if lines.len() > 0 {
        let front = lines.drop_last();
        let x = lines.last();
        lemma_history_keeps_last(history, front);
        let s = history + front;
        assert(history + lines =~= s.push(x));
        let k = keep_last(s);
        if k.len() + 1 > MAX_CHAT_MESSAGES {
            assert(k.push(x).drop_first() =~= keep_last(s.push(x)));
        } else {
            assert(k.push(x) =~= keep_last(s.push(x)));
        }
    }
}

/// The lines that leave, and the text the input field shows after the keys.
#[derive(Debug, PartialEq, Eq)]
pub struct ChatInputOutcome {
    pub dropped: Vec<String>,
    pub shown: Option<String>,
}

/// The texts of a sequence of strings.
pub open spec fn texts(v: Seq<String>) -> Seq<Seq<char>> {
    v.map_values(|s: String| s@)
}

/// Applies the keys typed into the open chat, in order: Enter sends the line
/// into the history (whose oldest line leaves when it would hold more than
/// 50) and clears the line; the other keys edit the line.
pub fn get_chat_input(buffer: &mut String, history: &mut VecDeque<String>, keys: &Vec<TextKey>) -> (out: ChatInputOutcome)
    ensures
        final(buffer)@ == typed_line(old(buffer)@, keys@),
        texts(final(history)@) == history_after_all(texts(old(history)@), sent_lines(old(buffer)@, keys@)),
        texts(out.dropped@) == evicted_lines(texts(old(history)@), sent_lines(old(buffer)@, keys@)),
        old(history)@.len() <= MAX_CHAT_MESSAGES ==> texts(final(history)@) == keep_last(
            texts(old(history)@) + sent_lines(old(buffer)@, keys@),
        ),
        match out.shown {
            Some(t) => shown_text(old(buffer)@, keys@) == Some(t@),
            None => shown_text(old(buffer)@, keys@) is None,
        },
{
    let ghost b0 = buffer@;
    let ghost h0 = texts(history@);
    let mut dropped: Vec<String> = Vec::new();
    let mut shown: Option<String> = None;
    let mut i: usize = 0;
    while i < keys.len()
        invariant
            i <= keys@.len(),
            buffer@ == typed_line(b0, keys@.take(i as int)),
            texts(history@) == history_after_all(h0, sent_lines(b0, keys@.take(i as int))),
            texts(dropped@) == evicted_lines(h0, sent_lines(b0, keys@.take(i as int))),
            match shown {
                Some(t) => shown_text(b0, keys@.take(i as int)) == Some(t@),
                None => shown_text(b0, keys@.take(i as int)) is None,
            },
        decreases keys@.len() - i,
    {
        let ghost pre = keys@.take(i as int);
        let ghost next = keys@.take(i + 1);
        assert(next.drop_last() =~= pre);
        assert(next.last() == keys@[i as int]);
        let key = &keys[i];
        match key {
            TextKey::Enter => {
                let line = buffer.clone();
                *buffer = String::new();
                let ghost hv = history@;
                let ghost sl = sent_lines(b0, pre);
                assert(sent_lines(b0, next) == sl.push(line@));
                assert(sl.push(line@).drop_last() =~= sl);
                assert(history_after_all(h0, sl.push(line@)) == history_after(
                    history_after_all(h0, sl),
                    line@,
                ));
                assert(evicted_lines(h0, sl.push(line@)) == (if history_after_all(h0, sl).len() + 1
                    > MAX_CHAT_MESSAGES {
                    evicted_lines(h0, sl).push(history_after_all(h0, sl).push(line@)[0])
                } else {
                    evicted_lines(h0, sl)
                }));
                let d = push_message(history, line);
                assert(texts(history@) =~= history_after(texts(hv), line@));
                match d {
                    Some(d) => {
                        let ghost dv = dropped@;
                        assert(d@ == texts(hv).push(line@)[0]);
                        dropped.push(d);
                        assert(texts(dropped@) =~= texts(dv).push(d@));
                    },
                    None => {},
                }
                let mut t = String::new();
                t.append("Start typing ...");
                shown = Some(t);
            },
            TextKey::Other => {
                assert(sent_lines(b0, next) == sent_lines(b0, pre));
            },
            _ => {
                assert(sent_lines(b0, next) == sent_lines(b0, pre));
                edit_line(buffer, key);
                shown = Some(buffer.clone());
            },
        }
        i = i + 1;
    }
    assert(keys@.take(i as int) =~= keys@);
    proof {
        if old(history)@.len() <= MAX_CHAT_MESSAGES {
            lemma_history_keeps_last(h0, sent_lines(b0, keys@));
        }
    }
    ChatInputOutcome { dropped, shown }
}

/// Moves the chat lines waiting to be shown into the history, in order, each
/// as `push_message` adds one (so the history keeps its last 50 lines), and
/// empties the waiting lines; returns the lines that left the history, oldest
/// first.
pub fn spawn_pending_messages(pending: &mut Vec<String>, history: &mut VecDeque<String>) -> (dropped: Vec<String>)
    ensures
        final(pending)@.len() == 0,
        texts(final(history)@) == history_after_all(texts(old(history)@), texts(old(pending)@)),
        texts(dropped@) == evicted_lines(texts(old(history)@), texts(old(pending)@)),
        old(history)@.len() <= MAX_CHAT_MESSAGES ==> texts(final(history)@) == keep_last(
            texts(old(history)@) + texts(old(pending)@),
        ),
{
    let ghost h0 = texts(history@);
    let ghost p0 = texts(pending@);
    let mut dropped: Vec<String> = Vec::new();
    let mut i: usize = 0;
    while i < pending.len()
        invariant
            i <= pending@.len(),
            p0 == texts(pending@),
            texts(history@) == history_after_all(h0, p0.take(i as int)),
            texts(dropped@) == evicted_lines(h0, p0.take(i as int)),
        decreases pending@.len() - i,
    {
        let ghost pre = p0.take(i as int);
        let ghost next = p0.take(i + 1);
        assert(next.drop_last() =~= pre);
        let line = pending[i].clone();
        assert(next.last() == line@);
        let ghost hv = history@;
        let d = push_message(history, line);
        assert(texts(history@) =~= history_after(texts(hv), line@));
        match d {
            Some(d) => {
                let ghost dv = dropped@;
                assert(d@ == texts(hv).push(line@)[0]);
                dropped.push(d);
                assert(texts(dropped@) =~= texts(dv).push(d@));
            },
            None => {},
        }
        i = i + 1;
    }
    assert(p0.take(i as int) =~= p0);
    proof {
        if old(history)@.len() <= MAX_CHAT_MESSAGES {
            lemma_history_keeps_last(h0, p0);
        }
    }
    *pending = Vec::new();
    dropped
}

/// Moves the chat lines waiting to be shown to the back of the history, in
/// order and with no bound, and empties the waiting lines.
pub fn dump_pending_messages(pending: &mut Vec<String>, history: &mut VecDeque<String>)
    ensures
        final(pending)@.len() == 0,
        texts(final(history)@) == texts(old(history)@) + texts(old(pending)@),
{
    let ghost h0 = texts(history@);
    let ghost p0 = texts(pending@);
    let mut i: usize = 0;
    while i < pending.len()
        invariant
            i <= pending@.len(),
            p0 == texts(pending@),
            texts(history@) == h0 + p0.take(i as int),
        decreases pending@.len() - i,
    {
        let ghost hv = history@;
        let line = pending[i].clone();
        history.push_back(line);
        assert(texts(history@) =~= texts(hv).push(p0[i as int]));
        assert(p0.take(i + 1) =~= p0.take(i as int).push(p0[i as int]));
        i = i + 1;
    }
    assert(p0.take(i as int) =~= p0);
    *pending = Vec::new();
}

/// Whether a key ends the command being typed on `line`: Enter submits it,
/// and Backspace ends it when it empties the line.
pub open spec fn ends_command(line: Seq<char>, key: TextKey) -> bool {
    key == TextKey::Enter || (key == TextKey::Backspace && edited_line(line, key).len() == 0)
}

/// Whether key `j` of the keys typed into the command line `line` ends the
/// command, given the keys before it.
pub open spec fn command_ends_at(line: Seq<char>, keys: Seq<TextKey>, j: int) -> bool {
    ends_command(typed_line(line, keys.take(j)), keys[j])
}

/// Whether the first `n` keys are those applied to the command line `line`:
/// no key before the last of them ends the command, and the last of them ends
/// it unless they are all the keys. The keys after an ending key are skipped.
pub open spec fn applies_command_keys(line: Seq<char>, keys: Seq<TextKey>, n: int) -> bool {
    &&& 0 <= n <= keys.len()
    &&& forall|j: int| 0 <= j < n - 1 ==> !#[trigger] command_ends_at(line, keys, j)
    &&& ((1 <= n && command_ends_at(line, keys, n - 1)) || (n == keys.len() && (n == 0
        || !command_ends_at(line, keys, n - 1))))
}

/// The text that the command field shows after the keys, if any key changed
/// it: the placeholder after Enter, the line after an editing key.
pub open spec fn command_shown(line: Seq<char>, keys: Seq<TextKey>) -> Option<Seq<char>>
    decreases keys.len(),
{
    if keys.len() == 0 {
        None
    } else {
        match keys.last() {
            TextKey::Enter => Some("Start typing..."@),
            TextKey::Other => command_shown(line, keys.drop_last()),
            _ => Some(typed_line(line, keys)),
        }
    }
}

/// What the keys typed into the command line did.
#[derive(Debug, PartialEq, Eq)]
pub struct CommandKeysOutcome {
    /// The command that Enter submitted, if it stands for one.
    pub command: Option<GameCommand>,
    /// The text the command field shows, if a key changed it.
    pub shown: Option<String>,
    /// Whether the chat goes back to ordinary messages.
    pub back_to_chat: bool,
    /// How many of the keys were applied; the rest were skipped.
    pub used: usize,
}

/// Exactly one count of keys is applied to a command line.
pub proof fn lemma_applied_keys_unique(line: Seq<char>, keys: Seq<TextKey>, n: int, m: int)
    requires
        applies_command_keys(line, keys, n),
        applies_command_keys(line, keys, m),
    ensures
        n == m,
{
    if n < m {
        assert(!command_ends_at(line, keys, n - 1));
    } else if m < n {
        assert(!command_ends_at(line, keys, m - 1));
    }
}

/// Keys typed after the key that ends a command change nothing: the same keys
/// are applied with any further keys behind them.
pub proof fn lemma_later_keys_skipped(line: Seq<char>, keys: Seq<TextKey>, more: Seq<TextKey>, n: int)
    requires
        applies_command_keys(line, keys, n),
        1 <= n,
        command_ends_at(line, keys, n - 1),
    ensures
        applies_command_keys(line, keys + more, n),
        (keys + more).take(n) == keys.take(n),
{
    let all = keys + more;
    assert forall|j: int| 0 <= j < n implies #[trigger] command_ends_at(line, all, j) == command_ends_at(line, keys, j) by {
        assert(all.take(j) =~= keys.take(j));
        assert(all[j] == keys[j]);
    }
    assert(all.take(n) =~= keys.take(n));
    assert(command_ends_at(line, all, n - 1));
}

/// Applies the keys typed into the command line, in order, up to the first
/// that ends the command. Enter submits the line: the command it stands for
/// is returned, or else the chat line that says why it is no command joins
/// `pending`; either way the line is cleared, the field shows the placeholder
/// and the chat goes back to ordinary messages. A Backspace that empties the
/// line goes back to ordinary messages too. The keys after either are skipped.
pub fn command_keys(buffer: &mut String, keys: &Vec<TextKey>, pending: &mut Vec<String>) -> (out: CommandKeysOutcome)
    requires
        forall|n: int|
            #[trigger] applies_command_keys(old(buffer)@, keys@, n) && 1 <= n && keys@[n - 1]
                == TextKey::Enter ==> typed_line(old(buffer)@, keys@.take(n - 1)).len() > 0,
    ensures
        applies_command_keys(old(buffer)@, keys@, out.used as int),
        final(buffer)@ == typed_line(old(buffer)@, keys@.take(out.used as int)),
        out.back_to_chat == (1 <= out.used && command_ends_at(old(buffer)@, keys@, out.used - 1)),
        out.back_to_chat ==> final(buffer)@.len() == 0,
        match out.shown {
            Some(t) => command_shown(old(buffer)@, keys@.take(out.used as int)) == Some(t@),
            None => command_shown(old(buffer)@, keys@.take(out.used as int)) is None,
        },
        ({
            let n = out.used as int;
            let line = typed_line(old(buffer)@, keys@.take(n - 1));
            if out.back_to_chat && keys@[n - 1] == TextKey::Enter {
                &&& out.shown matches Some(t) && t@ == "Start typing..."@
                &&& exists|r: Result<GameCommand, String>|
                    #[trigger] command_key_result(line, TextKey::Enter, CommandInput::Submit(r))
                        && match r {
                        Ok(c) => out.command == Some(c) && final(pending)@ == old(pending)@,
                        Err(m) => out.command is None && final(pending)@ == old(pending)@.push(m),
                    }
            } else {
                out.command is None && final(pending)@ == old(pending)@
            }
        }),
{
    let ghost b0 = buffer@;
    let mut shown: Option<String> = None;
    let mut i: usize = 0;
    while i < keys.len()
        invariant
            i <= keys@.len(),
            forall|j: int| 0 <= j < i ==> !#[trigger] command_ends_at(b0, keys@, j),
            buffer@ == typed_line(b0, keys@.take(i as int)),
            match shown {
                Some(t) => command_shown(b0, keys@.take(i as int)) == Some(t@),
                None => command_shown(b0, keys@.take(i as int)) is None,
            },
            pending@ == old(pending)@,
            b0 == old(buffer)@,
            forall|n: int|
                #[trigger] applies_command_keys(b0, keys@, n) && 1 <= n && keys@[n - 1]
                    == TextKey::Enter ==> typed_line(b0, keys@.take(n - 1)).len() > 0,
        decreases keys@.len() - i,
    {
        let ghost pre = keys@.take(i as int);
        let ghost next = keys@.take(i + 1);
        assert(next.drop_last() =~= pre);
        assert(next.last() == keys@[i as int]);
        let key = &keys[i];
        match key {
            TextKey::Enter => {
                assert(command_ends_at(b0, keys@, i as int));
                assert(applies_command_keys(b0, keys@, i + 1));
                let outcome = command_input(buffer, key);
                let command = match outcome {
                    CommandInput::Submit(Ok(c)) => Some(c),
                    CommandInput::Submit(Err(m)) => {
                        pending.push(m);
                        None
                    },
                    _ => None,
                };
                let mut t = String::new();
                t.append("Start typing...");
                return CommandKeysOutcome { command, shown: Some(t), back_to_chat: true, used: i + 1 };
            },
            TextKey::Backspace => {
                let outcome = command_input(buffer, key);
                shown = Some(buffer.clone());
                match outcome {
                    CommandInput::Leave => {
                        assert(command_ends_at(b0, keys@, i as int));
                        return CommandKeysOutcome { command: None, shown, back_to_chat: true, used: i + 1 };
                    },
                    _ => {},
                }
            },
            TextKey::Other => {},
            _ => {
                edit_line(buffer, key);
                shown = Some(buffer.clone());
            },
        }
        assert(!command_ends_at(b0, keys@, i as int));
        i = i + 1;
    }
    CommandKeysOutcome { command: None, shown, back_to_chat: false, used: i }
}

} // verus!
