//! The state of the terminal user interface: the input line with its cursor,
//! and what each key press does to it.

use vstd::prelude::*;
use vstd::string::StrSliceExecFns;
use vstd::utf8::{encode_utf8, is_char_boundary, encode_utf8_decode_utf8};
use crate::agent_responses::{AgentResponsesWidget, MessageSpec, user_message_spec};
use crate::text::{insert_at, remove_before, lemma_insert_encoded, lemma_remove_undoes_insert, text_equals};

verus! {

/// Calls `String::insert`, which inserts `c` into `s` at the byte offset
/// `index`. The contract claims what its documentation says: the UTF-8 bytes
/// of the result are those of `s` with the encoding of `c` put in at `index`.
/// The call panics where `index` is not on a character boundary of `s`, which
/// `requires` rules out.
#[verifier::external_body]
fn string_insert(s: &mut String, index: usize, c: char)
    requires
        is_char_boundary(encode_utf8(old(s)@), index as int),
    ensures
        encode_utf8(final(s)@) == encode_utf8(old(s)@).take(index as int) + encode_utf8(seq![c])
            + encode_utf8(old(s)@).skip(index as int),
{
    s.insert(index, c)
}

/// Deleting with Backspace right after typing a character gives back the line
/// as it was, with the cursor where it was: typing `c` at `cursor` yields
/// `insert_at(text, cursor, c)` with the cursor at `cursor + 1`, and deleting
/// before that cursor yields `text` again with the cursor at `cursor`.
pub proof fn law_backspace_undoes_typing(text: Seq<char>, cursor: nat, c: char)
    requires
        cursor <= text.len(),
    ensures
        remove_before(insert_at(text, cursor as int, c), cursor + 1 as int) == text,
        cursor + 1 <= insert_at(text, cursor as int, c).len(),
{
    lemma_remove_undoes_insert(text, cursor as int, c);
    assert(insert_at(text, cursor as int, c).len() == text.len() + 1);
}

/// Submitting exactly `/clear` always forgets the whole conversation, empties
/// the line and starts no run, whether or not a run is under way.
pub proof fn law_clear_always_forgets(before: App, after: App, command: AppCommand)
    requires
        submitted(before, after, command),
        before.text() == "/clear"@,
    ensures
        command == AppCommand::Nothing,
        after.conversation().history() == Seq::<MessageSpec>::empty(),
        after.conversation().active() == before.conversation().active(),
        after.text() == Seq::<char>::empty(),
        after.cursor() == 0,
{
    reveal_strlit("/clear");
}

/// Submitting any other non-empty line while no run is under way starts a
/// run on exactly that text: the conversation gains one message, from the
/// user, whose content is the line unchanged; submitting while a run is under
/// way leaves the conversation as it is; submitting an empty line changes
/// nothing.
pub proof fn law_submit_sends_the_line(before: App, after: App, command: AppCommand)
    requires
        submitted(before, after, command),
    ensures
        before.text().len() == 0 ==> after == before && command == AppCommand::Nothing,
        before.text().len() > 0 && before.text() != "/clear"@ && !before.conversation().active()
            ==> command == AppCommand::StartAgent
            && after.conversation().active()
            && after.conversation().history().len() == before.conversation().history().len() + 1
            && after.conversation().history().drop_last() == before.conversation().history()
            && after.conversation().history().last().role == Some("user"@)
            && after.conversation().history().last().content == Some(before.text())
            && after.conversation().history().last().tool_call_id is None
            && after.conversation().history().last().tool_calls is None,
        before.text().len() > 0 && before.text() != "/clear"@ && before.conversation().active()
            ==> command == AppCommand::Nothing && after.conversation() == before.conversation(),
        before.text().len() > 0 ==> after.text() == Seq::<char>::empty() && after.cursor() == 0,
{
    if before.text().len() > 0 && before.text() != "/clear"@ && !before.conversation().active() {
        assert(after.conversation().history().drop_last() =~= before.conversation().history());
    }
}

/// Typing `c` with the cursor at `cursor` puts `c` at that position, keeps
/// every character before it where it was and moves every character after it
/// one place on; the line grows by one character.
pub proof fn law_typing_inserts_at_the_cursor(text: Seq<char>, cursor: nat, c: char)
    requires
        cursor <= text.len(),
    ensures
        insert_at(text, cursor as int, c).len() == text.len() + 1,
        insert_at(text, cursor as int, c)[cursor as int] == c,
        forall|j: int| 0 <= j < cursor ==> #[trigger] insert_at(text, cursor as int, c)[j] == text[j],
        forall|j: int| cursor < j <= text.len() ==> #[trigger] insert_at(text, cursor as int, c)[j] == text[j - 1],
{
}

/// Backspace with the cursor at `cursor > 0` removes exactly the character at
/// position `cursor - 1`, keeps every character before it and moves every
/// character after it one place back; the line shrinks by one character.
pub proof fn law_backspace_removes_one_character(text: Seq<char>, cursor: nat)
    requires
        0 < cursor <= text.len(),
    ensures
        remove_before(text, cursor as int).len() == text.len() - 1,
        forall|j: int| 0 <= j < cursor - 1 ==> #[trigger] remove_before(text, cursor as int)[j] == text[j],
        forall|j: int| cursor - 1 <= j < text.len() - 1 ==> #[trigger] remove_before(text, cursor as int)[j] == text[j + 1],
{
}

/// The arrows move the cursor by one character within the line and stop at
/// its ends.
pub proof fn law_arrows_move_by_one(cursor: nat, len: nat)
    requires
        cursor <= len,
        len <= usize::MAX,
    ensures
        cursor > 0 ==> cursor_after_left(cursor, len) == cursor - 1,
        cursor == 0 ==> cursor_after_left(cursor, len) == 0,
        cursor < len ==> cursor_after_right(cursor, len) == cursor + 1,
        cursor == len ==> cursor_after_right(cursor, len) == len,
{
}

/// A key press, as far as the interface tells keys apart.
#[derive(Debug, Clone, Copy, PartialEq, Eq, Structural)]
pub enum KeyPress {
    Esc,
    Char(char),
    Enter,
    Backspace,
    Left,
    Right,
    /// Any other key, which does nothing.
    Other,
}

/// What the caller is to do after an input event.
#[derive(Debug, Clone, Copy, PartialEq, Eq, Structural)]
pub enum AppCommand {
    /// Nothing more.
    Nothing,
    /// Run the agent loop on the message just submitted.
    StartAgent,
}

/// The title of the message box: whether an agent run is under way.
pub fn status_title(agent_is_active: bool) -> (title: &'static str)
    ensures
        title@ == if agent_is_active { "Agent working ..."@ } else { "Agent idle"@ },
{
    if agent_is_active {
        "Agent working ..."
    } else {
        "Agent idle"
    }
}

/// The state of the interface.
pub struct App {
    should_quit: bool,
    agent_responses: AgentResponsesWidget,
    character_index: usize,
    input: String,
}

/// The smaller of `a` and `b`.
pub open spec fn min_nat(a: nat, b: nat) -> nat {
    if a < b { a } else { b }
}

/// Where a cursor at `cursor` in a line of `len` characters stands after a
/// move to the left.
pub open spec fn cursor_after_left(cursor: nat, len: nat) -> nat {
    min_nat(if cursor == 0 { 0 } else { (cursor - 1) as nat }, len)
}

/// Where a cursor at `cursor` in a line of `len` characters stands after a
/// move to the right.
pub open spec fn cursor_after_right(cursor: nat, len: nat) -> nat {
    min_nat(if cursor == usize::MAX { usize::MAX as nat } else { cursor + 1 }, len)
}

/// What submitting the input line of `before` leaves, with `command` for the
/// caller: an empty line changes nothing; `/clear` empties the line and forgets
/// the conversation; any other text empties the line and starts an agent run on
/// it, unless one is under way, in which case the conversation stays as it is.
pub open spec fn submitted(before: App, after: App, command: AppCommand) -> bool {
    &&& after.quitting() == before.quitting()
    &&& if before.text().len() == 0 {
        after == before && command == AppCommand::Nothing
    } else {
        &&& after.text() == Seq::<char>::empty()
        &&& after.cursor() == 0
        &&& after.conversation().state.loading_state == before.conversation().state.loading_state
        &&& if before.text() == "/clear"@ {
            &&& command == AppCommand::Nothing
            &&& after.conversation().history() == Seq::<MessageSpec>::empty()
            &&& after.conversation().active() == before.conversation().active()
        } else if before.conversation().active() {
            &&& command == AppCommand::Nothing
            &&& after.conversation() == before.conversation()
        } else {
            &&& command == AppCommand::StartAgent
            &&& after.conversation().history() == before.conversation().history().push(
                user_message_spec(before.text()),
            )
            &&& after.conversation().active()
        }
    }
}

impl App {
    /// The text of the input line.
    pub closed spec fn text(&self) -> Seq<char> {
        self.input@
    }

    /// The cursor, as a count of characters from the start of the input line.
    pub closed spec fn cursor(&self) -> nat {
        self.character_index as nat
    }

    /// Whether the user asked to quit.
    pub closed spec fn quitting(&self) -> bool {
        self.should_quit
    }

    /// The conversation that the interface shows.
    pub closed spec fn conversation(&self) -> AgentResponsesWidget {
        self.agent_responses
    }

    /// The cursor stands within the input line or just after its end.
    pub open spec fn wf(&self) -> bool {
        self.cursor() <= self.text().len()
    }

    /// An interface with an empty input line and an empty conversation.
    pub fn new() -> (app: App)
        ensures
            app.text() == Seq::<char>::empty(),
            app.cursor() == 0,
            !app.quitting(),
            app.wf(),
            app.conversation().history() == Seq::<MessageSpec>::empty(),
            !app.conversation().active(),
            app.conversation().state.loading_state is Idle,
    {
        App {
            should_quit: false,
            agent_responses: AgentResponsesWidget::new(),
            character_index: 0,
            input: String::new(),
        }
    }

    /// Whether the user asked to quit.
    pub fn should_quit(&self) -> (quit: bool)
        ensures
            quit == self.quitting(),
    {
        self.should_quit
    }

    /// The text of the input line.
    pub fn input(&self) -> (text: &str)
        ensures
            text@ == self.text(),
    {
        self.input.as_str()
    }

    /// The cursor, in characters from the start of the input line.
    pub fn character_index(&self) -> (index: usize)
        ensures
            index == self.cursor(),
    {
        self.character_index
    }

    /// The conversation, for the agent loop to work on; the rest of the
    /// interface stays as it is.
    pub fn agent_responses_mut(&mut self) -> (widget: &mut AgentResponsesWidget)
        ensures
            *widget == old(self).conversation(),
            final(self).conversation() == *final(widget),
            final(self).text() == old(self).text(),
            final(self).cursor() == old(self).cursor(),
            final(self).quitting() == old(self).quitting(),
    {
        &mut self.agent_responses
    }

    /// The conversation that the interface shows.
    pub fn agent_responses(&self) -> (widget: &AgentResponsesWidget)
        ensures
            *widget == self.conversation(),
    {
        &self.agent_responses
    }

    /// The byte offset in the input line of the character under the cursor,
    /// or the length of the line in bytes where the cursor stands at its end
    /// or beyond.
    pub fn byte_index(&self) -> (index: usize)
        ensures
            index == encode_utf8(self.text().take(min_nat(self.cursor(), self.text().len()) as int)).len(),
    {
        let line = self.input.as_str();
        let total = line.as_bytes().len();
        let n = line.unicode_len();
        if self.character_index < n {
            let before = line.substring_char(0, self.character_index);
            before.as_bytes().len()
        } else {
            assert(self.text().take(self.text().len() as int) =~= self.text());
            total
        }
    }

    /// `new_cursor_pos`, brought within the input line.
    pub fn clamp_cursor(&self, new_cursor_pos: usize) -> (pos: usize)
        ensures
            pos == min_nat(new_cursor_pos as nat, self.text().len()),
            self.text().len() <= usize::MAX,
    {
        let n = self.input.as_str().unicode_len();
        if new_cursor_pos < n {
            new_cursor_pos
        } else {
            n
        }
    }

    /// Moves the cursor one character to the left, unless it is at the start.
    pub fn move_cursor_left(&mut self)
        ensures
            final(self).cursor() == cursor_after_left(old(self).cursor(), old(self).text().len()),
            final(self).text() == old(self).text(),
            final(self).quitting() == old(self).quitting(),
            final(self).conversation() == old(self).conversation(),
            final(self).wf(),
            final(self).text().len() <= usize::MAX,
    {
        let cursor_moved_left = self.character_index.saturating_sub(1);
        self.character_index = self.clamp_cursor(cursor_moved_left);
    }

    /// Moves the cursor one character to the right, unless it is at the end.
    pub fn move_cursor_right(&mut self)
        ensures
            final(self).cursor() == cursor_after_right(old(self).cursor(), old(self).text().len()),
            final(self).text() == old(self).text(),
            final(self).quitting() == old(self).quitting(),
            final(self).conversation() == old(self).conversation(),
            final(self).wf(),
            final(self).text().len() <= usize::MAX,
    {
        let cursor_moved_right = self.character_index.saturating_add(1);
        self.character_index = self.clamp_cursor(cursor_moved_right);
    }

    /// Inserts `new_char` at the cursor and moves the cursor past it.
    pub fn enter_char(&mut self, new_char: char)
        requires
            old(self).wf(),
        ensures
            final(self).text() == insert_at(old(self).text(), old(self).cursor() as int, new_char),
            final(self).cursor() == old(self).cursor() + 1,
            final(self).quitting() == old(self).quitting(),
            final(self).conversation() == old(self).conversation(),
            final(self).wf(),
    {
        let ghost before = self.input@;
        let ghost cursor = self.character_index as int;
        let index = self.byte_index();
        proof {
            assert(min_nat(self.cursor(), self.text().len()) == cursor);
            lemma_insert_encoded(before, cursor, new_char);
        }
        string_insert(&mut self.input, index, new_char);
        proof {
            encode_utf8_decode_utf8(self.input@);
            encode_utf8_decode_utf8(insert_at(before, cursor, new_char));
        }
        self.move_cursor_right();
    }

    /// Deletes the character just before the cursor and moves the cursor onto
    /// its place; does nothing where the cursor is at the start.
    pub fn delete_char(&mut self)
        requires
            old(self).wf(),
        ensures
            old(self).cursor() == 0 ==> final(self).text() == old(self).text() && final(self).cursor() == 0,
            old(self).cursor() > 0 ==> final(self).text() == remove_before(old(self).text(), old(self).cursor() as int)
                && final(self).cursor() == old(self).cursor() - 1,
            final(self).quitting() == old(self).quitting(),
            final(self).conversation() == old(self).conversation(),
            final(self).wf(),
    {
        let is_not_cursor_leftmost = self.character_index != 0;
        if is_not_cursor_leftmost {
            let current_index = self.character_index;
            let from_left_to_current_index = current_index - 1;
            let line = self.input.as_str();
            let n = line.unicode_len();
            let before_char_to_delete = line.substring_char(0, from_left_to_current_index);
            let after_char_to_delete = line.substring_char(current_index, n);
            self.input = String::from_str(before_char_to_delete).concat(after_char_to_delete);
            self.move_cursor_left();
        }
    }

    /// Empties the input line.
    pub fn clear_input(&mut self)
        ensures
            final(self).text() == Seq::<char>::empty(),
            final(self).cursor() == 0,
            final(self).quitting() == old(self).quitting(),
            final(self).conversation() == old(self).conversation(),
            final(self).wf(),
    {
        self.input = String::new();
        self.character_index = 0;
    }

    /// Forgets every message of the conversation; the input line and whether a
    /// run is under way stay as they are.
    pub fn clear_messages(&mut self)
        ensures
            final(self).conversation().history() == Seq::<MessageSpec>::empty(),
            final(self).conversation().active() == old(self).conversation().active(),
            final(self).conversation().state.loading_state == old(self).conversation().state.loading_state,
            final(self).text() == old(self).text(),
            final(self).cursor() == old(self).cursor(),
            final(self).quitting() == old(self).quitting(),
    {
        self.agent_responses.clear_messages();
    }

    /// Submits the input line: an empty line does nothing; `/clear` forgets the
    /// conversation; any other text starts an agent run on it, unless one is
    /// under way. Every line but the empty one is then cleared.
    pub fn submit_message(&mut self) -> (command: AppCommand)
        requires
            old(self).wf(),
        ensures
            submitted(*old(self), *final(self), command),
            final(self).wf(),
    {
        if self.input.as_str().is_empty() {
            return AppCommand::Nothing;
        }
        if text_equals(&self.input, "/clear") {
            self.clear_messages();
            self.clear_input();
            return AppCommand::Nothing;
        }
        let started = self.agent_responses.run(self.input.clone());
        self.clear_input();
        if started {
            AppCommand::StartAgent
        } else {
            AppCommand::Nothing
        }
    }

    /// Acts on a key press: `Esc` asks to quit, a character is entered at the
    /// cursor, `Enter` submits the line, `Backspace` deletes the character
    /// before the cursor, the arrows move the cursor, and any other key does
    /// nothing.
    pub fn handle_event(&mut self, key: KeyPress) -> (command: AppCommand)
        requires
            old(self).wf(),
        ensures
            final(self).wf(),
            !(key is Enter) ==> final(self).conversation() == old(self).conversation(),
            command == AppCommand::StartAgent ==> key is Enter,
            match key {
                KeyPress::Esc => final(self).quitting() && final(self).text() == old(self).text()
                    && final(self).cursor() == old(self).cursor(),
                KeyPress::Char(c) => final(self).text() == insert_at(old(self).text(), old(self).cursor() as int, c)
                    && final(self).cursor() == old(self).cursor() + 1
                    && final(self).quitting() == old(self).quitting(),
                KeyPress::Enter => submitted(*old(self), *final(self), command),
                KeyPress::Backspace => final(self).quitting() == old(self).quitting()
                    && (old(self).cursor() == 0 ==> final(self).text() == old(self).text()
                        && final(self).cursor() == 0)
                    && (old(self).cursor() > 0 ==> final(self).text() == remove_before(old(self).text(), old(self).cursor() as int)
                        && final(self).cursor() == old(self).cursor() - 1),
                KeyPress::Left => final(self).quitting() == old(self).quitting()
                    && final(self).text() == old(self).text()
                    && final(self).cursor() == cursor_after_left(old(self).cursor(), old(self).text().len()),
                KeyPress::Right => final(self).quitting() == old(self).quitting()
                    && final(self).text() == old(self).text()
                    && final(self).cursor() == cursor_after_right(old(self).cursor(), old(self).text().len()),
                KeyPress::Other => *final(self) == *old(self),
            },
    {
        match key {
            KeyPress::Esc => {
                self.should_quit = true;
                AppCommand::Nothing
            },
            KeyPress::Char(to_insert) => {
                self.enter_char(to_insert);
                AppCommand::Nothing
            },
            KeyPress::Enter => self.submit_message(),
            KeyPress::Backspace => {
                self.delete_char();
                AppCommand::Nothing
            },
            KeyPress::Left => {
                self.move_cursor_left();
                AppCommand::Nothing
            },
            KeyPress::Right => {
                self.move_cursor_right();
                AppCommand::Nothing
            },
            KeyPress::Other => AppCommand::Nothing,
        }
    }
}

} // verus!
