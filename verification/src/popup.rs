//! Modal single-line text entry with a character-position cursor.
//!
//! The buffer edits on character boundaries, never on raw bytes, so it stays
//! safe under multi-byte text. The cursor always lies between zero and the
//! number of characters in the content.

use vstd::prelude::*;
use vstd::string::StrSliceExecFns;
use vstd::string::StringExecFns;

use crate::action::Action;
use crate::keys::Key;
use crate::text::push_char;

verus! {

/// A text-entry popup: the current content, the cursor as a character
/// position inside it, and whether the popup is shown and swallowing input.
pub struct Popup {
    pub input: String,
    pub character_index: usize,
    pub active: bool,
}

/// The content after inserting character `c` at character position `i`.
pub open spec fn spec_insert_char(s: Seq<char>, i: int, c: char) -> Seq<char> {
    s.subrange(0, i) + seq![c] + s.subrange(i, s.len() as int)
}

/// The content after deleting the character just left of position `i`.
pub open spec fn spec_delete_back(s: Seq<char>, i: int) -> Seq<char> {
    s.subrange(0, i - 1) + s.subrange(i, s.len() as int)
}

impl Popup {
    /// The cursor never leaves the content: `0 <= cursor <= character count`.
    pub open spec fn wf(&self) -> bool {
        self.character_index <= self.input@.len()
    }

    /// An empty, inactive popup.
    pub fn new() -> (r: Popup)
        ensures
            r.input@ == Seq::<char>::empty(),
            r.character_index == 0,
            !r.active,
            r.wf(),
    {
        Popup { input: String::new(), character_index: 0, active: false }
    }

    /// Inserts a character at the cursor, then advances the cursor past it.
    pub fn enter_char(&mut self, new_char: char)
        requires
            old(self).wf(),
        ensures
            final(self).input@ == spec_insert_char(
                old(self).input@,
                old(self).character_index as int,
                new_char,
            ),
            final(self).character_index == old(self).character_index + 1,
            final(self).active == old(self).active,
            final(self).wf(),
    {
        let ci = self.character_index;
        let len = self.input.unicode_len();
        let mut rebuilt = String::from_str(self.input.as_str().substring_char(0, ci));
        push_char(&mut rebuilt, new_char);
        rebuilt.append(self.input.as_str().substring_char(ci, len));
        proof {
            assert(rebuilt@ =~= spec_insert_char(self.input@, ci as int, new_char));
        }
        self.input = rebuilt;
        self.move_cursor_right();
    }

    /// The byte offset of the cursor in the UTF-8 encoding of the content.
    pub fn byte_index(&self) -> (r: usize)
        requires
            self.wf(),
        ensures
            r == vstd::utf8::encode_utf8(
                self.input@.subrange(0, self.character_index as int),
            ).len() as usize,
    {
        self.input.as_str().substring_char(0, self.character_index).len()
    }

    /// Removes the character just left of the cursor and steps the cursor
    /// back; a no-op when the cursor is at position zero.
    pub fn delete_char(&mut self)
        requires
            old(self).wf(),
        ensures
            old(self).character_index == 0 ==> *final(self) == *old(self),
            old(self).character_index > 0 ==> {
                &&& final(self).input@ == spec_delete_back(
                    old(self).input@,
                    old(self).character_index as int,
                )
                &&& final(self).character_index == old(self).character_index - 1
            },
            final(self).active == old(self).active,
            final(self).wf(),
    {
        if self.character_index != 0 {
            let ci = self.character_index;
            let len = self.input.unicode_len();
            let mut rebuilt = String::from_str(self.input.as_str().substring_char(0, ci - 1));
            rebuilt.append(self.input.as_str().substring_char(ci, len));
            proof {
                assert(rebuilt@ =~= spec_delete_back(self.input@, ci as int));
            }
            self.input = rebuilt;
            self.move_cursor_left();
        }
    }

    /// Moves the cursor one character left, stopping at zero.
    pub fn move_cursor_left(&mut self)
        ensures
            final(self).input == old(self).input,
            final(self).active == old(self).active,
            final(self).character_index == vstd::math::min(
                if old(self).character_index > 0 {
                    old(self).character_index - 1
                } else {
                    0
                },
                old(self).input@.len() as int,
            ),
            final(self).wf(),
    {
        let cursor_moved_left = self.character_index.saturating_sub(1);
        self.character_index = self.clamp_cursor(cursor_moved_left);
    }

    /// Moves the cursor one character right, stopping at the end of the
    /// content.
    pub fn move_cursor_right(&mut self)
        ensures
            final(self).input == old(self).input,
            final(self).active == old(self).active,
            final(self).character_index == vstd::math::min(
                old(self).character_index + 1,
                old(self).input@.len() as int,
            ),
            final(self).wf(),
    {
        let cursor_moved_right = self.character_index.saturating_add(1);
        self.character_index = self.clamp_cursor(cursor_moved_right);
    }

    /// The given position pulled back into the valid cursor range.
    pub fn clamp_cursor(&self, new_cursor_pos: usize) -> (r: usize)
        ensures
            r == vstd::math::min(new_cursor_pos as int, self.input@.len() as int),
            r <= self.input@.len(),
            self.input@.len() <= usize::MAX,
    {
        let count = self.input.as_str().unicode_len();
        if new_cursor_pos > count {
            count
        } else {
            new_cursor_pos
        }
    }

    /// Hands the content to the caller and resets the popup to empty and
    /// inactive; the caller decides what the text meant.
    pub fn submit(&mut self) -> (r: String)
        ensures
            r == old(self).input,
            final(self).input@ == Seq::<char>::empty(),
            final(self).character_index == 0,
            !final(self).active,
            final(self).wf(),
    {
        let content = self.input.clone();
        self.input = String::new();
        self.character_index = 0;
        self.active = false;
        content
    }

    /// Discards the content and hides the popup.
    pub fn cancel(&mut self)
        ensures
            final(self).input@ == Seq::<char>::empty(),
            final(self).character_index == 0,
            !final(self).active,
            final(self).wf(),
    {
        self.input = String::new();
        self.character_index = 0;
        self.active = false;
    }
}

/// How one editing key changes a well-formed popup: a character is inserted
/// at the cursor, the arrows move the cursor inside the content, backspace
/// deletes leftward, and any other key changes nothing. The active flag is
/// never touched by an edit.
pub open spec fn spec_popup_edit(p0: Popup, p1: Popup, k: Key) -> bool {
    &&& p1.active == p0.active
    &&& match k {
        Key::Char(c) => p1.input@ == spec_insert_char(
            p0.input@,
            p0.character_index as int,
            c,
        ) && p1.character_index == p0.character_index + 1,
        Key::Left => p1.input == p0.input && p1.character_index == if p0.character_index > 0 {
            (p0.character_index - 1) as usize
        } else {
            0usize
        },
        Key::Right => p1.input == p0.input && p1.character_index == vstd::math::min(
            p0.character_index + 1,
            p0.input@.len() as int,
        ),
        Key::Backspace => if p0.character_index == 0 {
            p1 == p0
        } else {
            p1.input@ == spec_delete_back(p0.input@, p0.character_index as int)
                && p1.character_index == p0.character_index - 1
        },
        _ => p1 == p0,
    }
}

impl Popup {
    /// Applies one editing key: insert, cursor moves, backspace; all other
    /// keys leave the popup as it is.
    pub fn handle_edit_key(&mut self, k: Key)
        requires
            old(self).wf(),
        ensures
            spec_popup_edit(*old(self), *final(self), k),
            final(self).wf(),
    {
        match k {
            Key::Char(c) => self.enter_char(c),
            Key::Left => self.move_cursor_left(),
            Key::Right => self.move_cursor_right(),
            Key::Backspace => self.delete_char(),
            _ => {},
        }
    }
}

/// One cursor operation on the text buffer.
pub enum PopupOp {
    Insert(char),
    DeleteBackward,
    MoveLeft,
    MoveRight,
}

/// Content and cursor after one operation, as the buffer's methods leave
/// them: insertion at the cursor advances it, backward deletion steps it
/// back (a no-op at zero), and the moves saturate at the ends.
pub open spec fn spec_popup_step(content: Seq<char>, cursor: int, op: PopupOp) -> (Seq<char>, int) {
    match op {
        PopupOp::Insert(c) => (spec_insert_char(content, cursor, c), cursor + 1),
        PopupOp::DeleteBackward => if cursor == 0 {
            (content, cursor)
        } else {
            (spec_delete_back(content, cursor), cursor - 1)
        },
        PopupOp::MoveLeft => (content, if cursor > 0 {
            cursor - 1
        } else {
            0
        }),
        PopupOp::MoveRight => (content, vstd::math::min(cursor + 1, content.len() as int)),
    }
}

/// Content and cursor after a sequence of operations.
pub open spec fn spec_popup_apply(content: Seq<char>, cursor: int, ops: Seq<PopupOp>) -> (
    Seq<char>,
    int,
)
    decreases ops.len(),
{
    if ops.len() == 0 {
        (content, cursor)
    } else {
        let (c1, i1) = spec_popup_step(content, cursor, ops[0]);
        spec_popup_apply(c1, i1, ops.drop_first())
    }
}

/// After every sequence of inserts, backward deletions and cursor moves the
/// cursor lies between zero and the character count of the content.
pub proof fn lemma_popup_ops_keep_cursor_in_bounds(content: Seq<char>, cursor: int, ops: Seq<
    PopupOp,
>)
    requires
        0 <= cursor <= content.len(),
    ensures
        0 <= spec_popup_apply(content, cursor, ops).1 <= spec_popup_apply(
            content,
            cursor,
            ops,
        ).0.len(),
    decreases ops.len(),
{
    if ops.len() == 0 {
    } else {
        let (c1, i1) = spec_popup_step(content, cursor, ops[0]);
        match ops[0] {
            PopupOp::Insert(c) => {
                assert(c1.len() == content.len() + 1);
            },
            PopupOp::DeleteBackward => {
                if cursor != 0 {
                    assert(c1.len() == content.len() - 1);
                }
            },
            _ => {},
        }
        lemma_popup_ops_keep_cursor_in_bounds(c1, i1, ops.drop_first());
    }
}

/// How a submit-or-cancel key drives a popup-owned flow: escape discards the
/// content; enter hands it to the flow, which asks for a branch creation or
/// a commit exactly when the content is not empty; any other key edits the
/// buffer. `commit_flow` picks which request an enter produces.
pub open spec fn spec_popup_submit_flow(
    p0: Popup,
    p1: Popup,
    k: Key,
    r: Action,
    commit_flow: bool,
) -> bool {
    match k {
        Key::Esc => p1.input@ == Seq::<char>::empty() && p1.character_index == 0 && !p1.active && (
        r is Nothing),
        Key::Enter => {
            &&& p1.input@ == Seq::<char>::empty()
            &&& p1.character_index == 0
            &&& !p1.active
            &&& if p0.input@.len() == 0 {
                r is Nothing
            } else if commit_flow {
                r matches Action::Commit(m) && m == p0.input
            } else {
                r matches Action::CreateBranch(m) && m == p0.input
            }
        },
        _ => spec_popup_edit(p0, p1, k) && (r is Nothing),
    }
}

/// Submitting an empty popup and then cancelling asks for no repository
/// operation at all, and hands back a popup with the original (empty)
/// content and cursor: the workspace is left as it was.
pub proof fn lemma_empty_submit_then_cancel_changes_nothing(
    p0: Popup,
    p1: Popup,
    p2: Popup,
    r1: Action,
    r2: Action,
    commit_flow: bool,
)
    requires
        p0.wf(),
        p0.input@.len() == 0,
        spec_popup_submit_flow(p0, p1, Key::Enter, r1, commit_flow),
        spec_popup_submit_flow(p1, p2, Key::Esc, r2, commit_flow),
    ensures
        r1 is Nothing,
        r2 is Nothing,
        p2.input@ == p0.input@,
        p2.character_index == p0.character_index,
{
    assert(p0.input@ =~= Seq::<char>::empty());
}

/// Round trip: inserting a character at the cursor and then deleting backward
/// restores the original content and cursor position.
pub proof fn lemma_insert_delete_round_trip(s: Seq<char>, i: int, c: char)
    requires
        0 <= i <= s.len(),
    ensures
        spec_delete_back(spec_insert_char(s, i, c), i + 1) == s,
        (i + 1) - 1 == i,
{
    assert(spec_delete_back(spec_insert_char(s, i, c), i + 1) =~= s);
}

} // verus!
