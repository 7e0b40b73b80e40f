//! The status tab: two file panes and a diff pane, with focus and scrolling.
//!
//! Scroll offsets are clamped to the pane contents: on a pane holding `N`
//! rows the offset stays in `[0, N-1]`, and on an empty pane it is forced to
//! zero, so a draw never indexes past the end of a freshly built list.

use vstd::prelude::*;
use vstd::string::StringExecFns;

use crate::action::Action;
use crate::ansi::Color;
use crate::ansi::TextSpan;
use crate::ansi::TextStyle;
use crate::ansi::spec_default_style;
use crate::ansi::spec_span_model;
use crate::getstatus::GitFile;
use crate::keys::Key;
use crate::keys::KeyInput;
use crate::text::push_char;
use crate::text::spec_decimal;
use crate::text::usize_to_string;

verus! {

/// The pane of the status tab that holds keyboard focus.
#[derive(PartialEq, Eq, Structural, Clone, Copy, Debug)]
pub enum StatusBlocks {
    Unstaged,
    Staged,
    Diff,
}

/// Scroll offsets, pane row counts and focus of the status tab.
pub struct StatusTab {
    pub line_in_file: u16,
    pub line_in_folder_unstaged: u16,
    pub line_in_folder_staged: u16,
    pub focused_block: StatusBlocks,
    pub nb_unstaged_file: u16,
    pub nb_staged_file: u16,
    pub filepath_diff: String,
}

/// Focus change requested by one directional chord: right always reaches the
/// diff pane, left returns to the unstaged pane, up and down move between the
/// two file panes.
pub open spec fn spec_status_focus_step(b: StatusBlocks, k: Key) -> StatusBlocks {
    if !(b is Diff) && k is Right {
        StatusBlocks::Diff
    } else if b is Diff && k is Left {
        StatusBlocks::Unstaged
    } else if b is Unstaged && k is Down {
        StatusBlocks::Staged
    } else if b is Staged && k is Up {
        StatusBlocks::Unstaged
    } else {
        b
    }
}

/// The tab after one scroll-down: the diff pane scrolls without a known
/// bound; a file pane steps at most to its last row and rewinds the diff.
pub open spec fn spec_scroll_down(t: StatusTab) -> StatusTab {
    match t.focused_block {
        StatusBlocks::Diff => StatusTab {
            line_in_file: if t.line_in_file < u16::MAX {
                (t.line_in_file + 1) as u16
            } else {
                u16::MAX
            },
            ..t
        },
        StatusBlocks::Unstaged => StatusTab {
            line_in_file: 0,
            line_in_folder_unstaged: if t.line_in_folder_unstaged + 1 < t.nb_unstaged_file {
                (t.line_in_folder_unstaged + 1) as u16
            } else {
                t.line_in_folder_unstaged
            },
            ..t
        },
        StatusBlocks::Staged => StatusTab {
            line_in_file: 0,
            line_in_folder_staged: if t.line_in_folder_staged + 1 < t.nb_staged_file {
                (t.line_in_folder_staged + 1) as u16
            } else {
                t.line_in_folder_staged
            },
            ..t
        },
    }
}

/// The tab after one scroll-up: the focused pane's offset steps back,
/// stopping at zero.
pub open spec fn spec_scroll_up(t: StatusTab) -> StatusTab {
    match t.focused_block {
        StatusBlocks::Diff => StatusTab {
            line_in_file: if t.line_in_file > 0 {
                (t.line_in_file - 1) as u16
            } else {
                0
            },
            ..t
        },
        StatusBlocks::Unstaged => StatusTab {
            line_in_folder_unstaged: if t.line_in_folder_unstaged > 0 {
                (t.line_in_folder_unstaged - 1) as u16
            } else {
                0
            },
            ..t
        },
        StatusBlocks::Staged => StatusTab {
            line_in_folder_staged: if t.line_in_folder_staged > 0 {
                (t.line_in_folder_staged - 1) as u16
            } else {
                0
            },
            ..t
        },
    }
}

/// The row a pane's offset selects: the offset itself, pulled back to the
/// last row where the list shrank underneath it.
pub open spec fn spec_selected_index(pos: u16, len: int) -> int {
    if (pos as int) < len {
        pos as int
    } else {
        len - 1
    }
}

/// The tab after a sequence of scroll actions (`true` is down, `false` up).
pub open spec fn spec_apply_scrolls(t: StatusTab, ops: Seq<bool>) -> StatusTab
    decreases ops.len(),
{
    if ops.len() == 0 {
        t
    } else {
        let stepped = if ops[0] {
            spec_scroll_down(t)
        } else {
            spec_scroll_up(t)
        };
        spec_apply_scrolls(stepped, ops.drop_first())
    }
}

/// The focus after a sequence of directional chords.
pub open spec fn spec_apply_status_focus(b: StatusBlocks, ks: Seq<Key>) -> StatusBlocks
    decreases ks.len(),
{
    if ks.len() == 0 {
        b
    } else {
        spec_apply_status_focus(spec_status_focus_step(b, ks[0]), ks.drop_first())
    }
}

impl StatusTab {
    /// Every pane offset lies inside its pane: strictly below the row count
    /// when the pane has rows, and zero when it is empty.
    pub open spec fn wf(&self) -> bool {
        &&& (self.nb_unstaged_file == 0 ==> self.line_in_folder_unstaged == 0)
        &&& (self.nb_unstaged_file > 0 ==> self.line_in_folder_unstaged < self.nb_unstaged_file)
        &&& (self.nb_staged_file == 0 ==> self.line_in_folder_staged == 0)
        &&& (self.nb_staged_file > 0 ==> self.line_in_folder_staged < self.nb_staged_file)
    }

    /// A fresh status tab: everything at the top, the unstaged pane focused.
    pub fn new() -> (r: StatusTab)
        ensures
            r.line_in_file == 0,
            r.line_in_folder_unstaged == 0,
            r.line_in_folder_staged == 0,
            r.focused_block is Unstaged,
            r.nb_unstaged_file == 0,
            r.nb_staged_file == 0,
            r.filepath_diff@ == Seq::<char>::empty(),
            r.wf(),
    {
        StatusTab {
            line_in_file: 0,
            line_in_folder_unstaged: 0,
            line_in_folder_staged: 0,
            focused_block: StatusBlocks::Unstaged,
            nb_unstaged_file: 0,
            nb_staged_file: 0,
            filepath_diff: String::new(),
        }
    }

    /// Scrolls the focused pane one row down, clamped to its contents.
    pub fn scroll_down(&mut self)
        ensures
            *final(self) == spec_scroll_down(*old(self)),
            old(self).wf() ==> final(self).wf(),
    {
        match self.focused_block {
            StatusBlocks::Diff => {
                self.line_in_file = self.line_in_file.saturating_add(1);
            },
            StatusBlocks::Unstaged => {
                self.line_in_file = 0;
                if (self.line_in_folder_unstaged as u32) + 1 < (self.nb_unstaged_file as u32) {
                    self.line_in_folder_unstaged = self.line_in_folder_unstaged + 1;
                }
            },
            StatusBlocks::Staged => {
                self.line_in_file = 0;
                if (self.line_in_folder_staged as u32) + 1 < (self.nb_staged_file as u32) {
                    self.line_in_folder_staged = self.line_in_folder_staged + 1;
                }
            },
        }
    }

    /// Scrolls the focused pane one row up, stopping at the top.
    pub fn scroll_up(&mut self)
        ensures
            *final(self) == spec_scroll_up(*old(self)),
            old(self).wf() ==> final(self).wf(),
    {
        match self.focused_block {
            StatusBlocks::Diff => {
                if self.line_in_file > 0 {
                    self.line_in_file = self.line_in_file - 1;
                }
            },
            StatusBlocks::Unstaged => {
                if self.line_in_folder_unstaged > 0 {
                    self.line_in_folder_unstaged = self.line_in_folder_unstaged - 1;
                }
            },
            StatusBlocks::Staged => {
                if self.line_in_folder_staged > 0 {
                    self.line_in_folder_staged = self.line_in_folder_staged - 1;
                }
            },
        }
    }

    /// Moves focus along the pane graph for one directional chord.
    pub fn change_block(&mut self, code: Key)
        ensures
            *final(self) == (StatusTab {
                focused_block: spec_status_focus_step(old(self).focused_block, code),
                ..*old(self)
            }),
    {
        if !matches!(self.focused_block, StatusBlocks::Diff) && matches!(code, Key::Right) {
            self.focused_block = StatusBlocks::Diff;
            return ;
        }
        if matches!(self.focused_block, StatusBlocks::Diff) && matches!(code, Key::Left) {
            self.focused_block = StatusBlocks::Unstaged;
            return ;
        }
        if matches!(self.focused_block, StatusBlocks::Unstaged) && matches!(code, Key::Down) {
            self.focused_block = StatusBlocks::Staged;
            return ;
        }
        if matches!(self.focused_block, StatusBlocks::Staged) && matches!(code, Key::Up) {
            self.focused_block = StatusBlocks::Unstaged;
        }
    }

    /// Steps the given pane's offset back by one row, so the selection stays
    /// in place after the selected row leaves the list.
    pub fn handle_pos_in_blocks(&mut self, block: StatusBlocks)
        ensures
            final(self).line_in_folder_unstaged == if block is Unstaged && old(
                self,
            ).line_in_folder_unstaged != 0 {
                (old(self).line_in_folder_unstaged - 1) as u16
            } else {
                old(self).line_in_folder_unstaged
            },
            final(self).line_in_folder_staged == if block is Staged && old(
                self,
            ).line_in_folder_staged != 0 {
                (old(self).line_in_folder_staged - 1) as u16
            } else {
                old(self).line_in_folder_staged
            },
            final(self).line_in_file == old(self).line_in_file,
            final(self).focused_block == old(self).focused_block,
            final(self).nb_unstaged_file == old(self).nb_unstaged_file,
            final(self).nb_staged_file == old(self).nb_staged_file,
            final(self).filepath_diff == old(self).filepath_diff,
            old(self).wf() ==> final(self).wf(),
    {
        if matches!(block, StatusBlocks::Unstaged) && self.line_in_folder_unstaged != 0 {
            self.line_in_folder_unstaged = self.line_in_folder_unstaged - 1;
        }
        if matches!(block, StatusBlocks::Staged) && self.line_in_folder_staged != 0 {
            self.line_in_folder_staged = self.line_in_folder_staged - 1;
        }
    }

    /// Records the freshly built pane lengths and pulls both offsets back
    /// inside them, so a list that shrank since the last frame is never
    /// indexed past its end.
    pub fn set_counts(&mut self, nb_unstaged: usize, nb_staged: usize)
        ensures
            final(self).nb_unstaged_file == vstd::math::min(nb_unstaged as int, u16::MAX as int),
            final(self).nb_staged_file == vstd::math::min(nb_staged as int, u16::MAX as int),
            final(self).line_in_folder_unstaged == if final(self).nb_unstaged_file == 0 {
                0int
            } else {
                vstd::math::min(
                    old(self).line_in_folder_unstaged as int,
                    final(self).nb_unstaged_file - 1,
                )
            },
            final(self).line_in_folder_staged == if final(self).nb_staged_file == 0 {
                0int
            } else {
                vstd::math::min(
                    old(self).line_in_folder_staged as int,
                    final(self).nb_staged_file - 1,
                )
            },
            final(self).line_in_file == old(self).line_in_file,
            final(self).focused_block == old(self).focused_block,
            final(self).filepath_diff == old(self).filepath_diff,
            final(self).wf(),
    {
        self.nb_unstaged_file = if nb_unstaged > u16::MAX as usize {
            u16::MAX
        } else {
            nb_unstaged as u16
        };
        self.nb_staged_file = if nb_staged > u16::MAX as usize {
            u16::MAX
        } else {
            nb_staged as u16
        };
        if self.nb_unstaged_file == 0 {
            self.line_in_folder_unstaged = 0;
        } else if self.line_in_folder_unstaged >= self.nb_unstaged_file {
            self.line_in_folder_unstaged = self.nb_unstaged_file - 1;
        }
        if self.nb_staged_file == 0 {
            self.line_in_folder_staged = 0;
        } else if self.line_in_folder_staged >= self.nb_staged_file {
            self.line_in_folder_staged = self.nb_staged_file - 1;
        }
    }

    /// The path selected in the given pane; remembers it as the file whose
    /// diff is shown. On an empty pane, returns the empty path and changes
    /// nothing.
    pub fn get_selected_file_path(&mut self, files: &Vec<GitFile>, pos: u16) -> (r: String)
        ensures
            files@.len() == 0 ==> r@ == Seq::<char>::empty() && *final(self) == *old(self),
            files@.len() > 0 ==> {
                &&& r == files@[spec_selected_index(pos, files@.len() as int)].filename
                &&& *final(self) == StatusTab { filepath_diff: r, ..*old(self) }
            },
    {
        if files.len() > 0 {
            let idx = if (pos as usize) < files.len() {
                pos as usize
            } else {
                files.len() - 1
            };
            let name = files[idx].filename.clone();
            self.filepath_diff = name.clone();
            name
        } else {
            String::new()
        }
    }

    /// One key press on the status tab. A control chord moves focus; plain
    /// arrows scroll; `s` stages and `r` restores the selected file; `c` and
    /// `p` ask for the commit popup and the push dialog.
    pub fn handle_key_event(&mut self, key: KeyInput, unstaged: &Vec<GitFile>, staged: &Vec<
        GitFile,
    >) -> (r: Action)
        ensures
            spec_status_key_post(*old(self), *final(self), key, unstaged@, staged@, r),
            old(self).wf() ==> final(self).wf(),
    {
        if key.ctrl {
            self.change_block(key.code);
            return Action::Nothing;
        }
        match key.code {
            Key::Up => {
                self.scroll_up();
                Action::Nothing
            },
            Key::Down => {
                self.scroll_down();
                Action::Nothing
            },
            Key::Char(c) => {
                if c == 's' {
                    if unstaged.len() > 0 {
                        let pos = self.line_in_folder_unstaged;
                        let path = self.get_selected_file_path(unstaged, pos);
                        self.handle_pos_in_blocks(StatusBlocks::Unstaged);
                        Action::StageFile(path)
                    } else {
                        Action::Nothing
                    }
                } else if c == 'r' {
                    if staged.len() > 0 {
                        let pos = self.line_in_folder_staged;
                        let path = self.get_selected_file_path(staged, pos);
                        self.handle_pos_in_blocks(StatusBlocks::Staged);
                        Action::UnstageFile(path)
                    } else {
                        Action::Nothing
                    }
                } else if c == 'c' {
                    Action::OpenCommitPopup
                } else if c == 'p' {
                    Action::OpenPushDialog
                } else {
                    Action::Nothing
                }
            },
            _ => Action::Nothing,
        }
    }
}

/// Whether this key is one of the status tab's own action characters.
pub open spec fn spec_is_tab_char(k: Key) -> bool {
    k == Key::Char('s') || k == Key::Char('r') || k == Key::Char('c') || k == Key::Char('p')
}

/// One key press on the status tab: a control chord moves focus, plain
/// arrows scroll, `s` and `r` ask to stage or restore the selected file, `c`
/// and `p` ask for the commit popup and the push dialog, and every other key
/// changes nothing.
pub open spec fn spec_status_key_post(
    t0: StatusTab,
    t1: StatusTab,
    key: KeyInput,
    unstaged: Seq<GitFile>,
    staged: Seq<GitFile>,
    r: Action,
) -> bool {
    &&& key.ctrl ==> t1 == (StatusTab {
        focused_block: spec_status_focus_step(t0.focused_block, key.code),
        ..t0
    }) && (r is Nothing)
    &&& !key.ctrl && key.code is Up ==> t1 == spec_scroll_up(t0) && (r is Nothing)
    &&& !key.ctrl && key.code is Down ==> t1 == spec_scroll_down(t0) && (r is Nothing)
    &&& !key.ctrl && key.code == Key::Char('s') ==> spec_pick_case(
        t0,
        t1,
        unstaged,
        t0.line_in_folder_unstaged,
        StatusBlocks::Unstaged,
        r,
    ) && (unstaged.len() > 0 ==> r is StageFile)
    &&& !key.ctrl && key.code == Key::Char('r') ==> spec_pick_case(
        t0,
        t1,
        staged,
        t0.line_in_folder_staged,
        StatusBlocks::Staged,
        r,
    ) && (staged.len() > 0 ==> r is UnstageFile)
    &&& !key.ctrl && key.code == Key::Char('c') ==> t1 == t0 && (r is OpenCommitPopup)
    &&& !key.ctrl && key.code == Key::Char('p') ==> t1 == t0 && (r is OpenPushDialog)
    &&& !key.ctrl && !(key.code is Up) && !(key.code is Down) && !spec_is_tab_char(key.code) ==> t1
        == t0 && (r is Nothing)
}

/// How a stage or restore press changes the tab: on an empty pane nothing
/// happens; otherwise the selected path is requested, remembered as the diff
/// file, and the pane's offset steps back by one so the selection stays in
/// place once the row leaves the list.
pub open spec fn spec_pick_case(
    told: StatusTab,
    tnew: StatusTab,
    files: Seq<GitFile>,
    pos: u16,
    block: StatusBlocks,
    r: Action,
) -> bool {
    if files.len() == 0 {
        tnew == told && r is Nothing
    } else {
        let name = files[spec_selected_index(pos, files.len() as int)].filename;
        let dec = if pos != 0 {
            (pos - 1) as u16
        } else {
            pos
        };
        &&& tnew == if block is Unstaged {
            StatusTab { filepath_diff: name, line_in_folder_unstaged: dec, ..told }
        } else {
            StatusTab { filepath_diff: name, line_in_folder_staged: dec, ..told }
        }
        &&& match r {
            Action::StageFile(p) => block is Unstaged && p == name,
            Action::UnstageFile(p) => block is Staged && p == name,
            _ => false,
        }
    }
}

/// The color a status code is drawn in: modified yellow, deleted red,
/// renamed blue, new green, anything else plain.
pub open spec fn spec_status_color(c: char) -> Option<Color> {
    if c == 'm' {
        Some(Color::Yellow)
    } else if c == 'd' {
        Some(Color::Red)
    } else if c == 'r' {
        Some(Color::Blue)
    } else if c == 'n' {
        Some(Color::Green)
    } else {
        None
    }
}

/// One pane row for one file: its code, a space and its path, colored by
/// the code.
pub open spec fn spec_file_row(f: GitFile) -> (Seq<char>, TextStyle) {
    (
        seq![f.status, ' '] + f.filename@,
        TextStyle { fg: spec_status_color(f.status), ..spec_default_style() },
    )
}

/// The rows a file pane shows: the files from the scroll offset down, or a
/// single plain row with the given text when the list is empty.
pub open spec fn spec_pane_rows(files: Seq<GitFile>, offset: int, empty_text: Seq<char>) -> Seq<
    (Seq<char>, TextStyle),
> {
    if files.len() == 0 {
        seq![(empty_text, spec_default_style())]
    } else if offset >= files.len() {
        Seq::empty()
    } else {
        files.skip(offset).map_values(|f: GitFile| spec_file_row(f))
    }
}

/// The rows with the first one highlighted when the pane holds focus.
pub open spec fn spec_highlight_first(rows: Seq<(Seq<char>, TextStyle)>, focused: bool) -> Seq<
    (Seq<char>, TextStyle),
> {
    if focused && rows.len() > 0 {
        rows.update(0, (rows[0].0, TextStyle { bg: Some(Color::DarkGray), ..rows[0].1 }))
    } else {
        rows
    }
}

/// The rows of one file pane, built fresh for one draw: each file from the
/// scroll offset down as `code path` colored by its code, a plain
/// placeholder row when the list is empty, and the top row highlighted when
/// the pane holds focus.
pub fn file_rows(files: &Vec<GitFile>, offset: u16, focused: bool, empty_text: &str) -> (r: Vec<
    TextSpan,
>)
    ensures
        r@.map_values(|s: TextSpan| spec_span_model(s)) == spec_highlight_first(
            spec_pane_rows(files@, offset as int, empty_text@),
            focused,
        ),
{
    let mut rows: Vec<TextSpan> = Vec::new();
    if files.len() == 0 {
        rows.push(TextSpan { content: String::from_str(empty_text), style: TextStyle::plain() });
        proof {
            assert(rows@.map_values(|s: TextSpan| spec_span_model(s)) =~= spec_pane_rows(
                files@,
                offset as int,
                empty_text@,
            ));
        }
    } else if (offset as usize) < files.len() {
        let mut i: usize = offset as usize;
        while i < files.len()
            invariant
                offset as int <= i <= files@.len(),
                rows@.map_values(|s: TextSpan| spec_span_model(s)) == files@.subrange(
                    offset as int,
                    i as int,
                ).map_values(|f: GitFile| spec_file_row(f)),
            decreases files@.len() - i,
        {
            let ghost before = rows@.map_values(|s: TextSpan| spec_span_model(s));
            let f = &files[i];
            let mut content = String::new();
            push_char(&mut content, f.status);
            push_char(&mut content, ' ');
            content.append(f.filename.as_str());
            proof {
                assert(content@ =~= seq![f.status, ' '] + f.filename@);
            }
            let style = TextStyle { fg: status_color(f.status), ..TextStyle::plain() };
            rows.push(TextSpan { content, style });
            proof {
                assert(rows@.map_values(|s: TextSpan| spec_span_model(s)) =~= before.push(
                    spec_file_row(files@[i as int]),
                ));
                assert(rows@.map_values(|s: TextSpan| spec_span_model(s)) =~= files@.subrange(
                    offset as int,
                    i + 1 as int,
                ).map_values(|f2: GitFile| spec_file_row(f2)));
            }
            i += 1;
        }
        proof {
            assert(files@.subrange(offset as int, files@.len() as int) =~= files@.skip(
                offset as int,
            ));
        }
    }
    if focused && rows.len() > 0 {
        let ghost base = rows@.map_values(|s: TextSpan| spec_span_model(s));
        let first_style = TextStyle { bg: Some(Color::DarkGray), ..rows[0].style };
        let first_content = rows[0].content.clone();
        rows.set(0, TextSpan { content: first_content, style: first_style });
        proof {
            assert(rows@.map_values(|s: TextSpan| spec_span_model(s)) =~= spec_highlight_first(
                base,
                focused,
            ));
        }
    }
    rows
}

/// The color a status code is drawn in.
pub fn status_color(c: char) -> (r: Option<Color>)
    ensures
        r == spec_status_color(c),
{
    if c == 'm' {
        Some(Color::Yellow)
    } else if c == 'd' {
        Some(Color::Red)
    } else if c == 'r' {
        Some(Color::Blue)
    } else if c == 'n' {
        Some(Color::Green)
    } else {
        None
    }
}

/// A pane title carrying its row count, as `prefix (count)`.
pub fn pane_title(prefix: &str, n: usize) -> (r: String)
    ensures
        r@ == prefix@ + " ("@ + spec_decimal(n as int) + ")"@,
{
    let mut r = String::from_str(prefix);
    r.append(" (");
    r.append(usize_to_string(n).as_str());
    r.append(")");
    r
}

/// Any finite sequence of scroll actions keeps every pane offset inside its
/// pane: between zero and the row count less one when the pane has rows, and
/// zero when it is empty.
pub proof fn lemma_scroll_sequence_stays_in_bounds(t: StatusTab, ops: Seq<bool>)
    requires
        t.wf(),
    ensures
        spec_apply_scrolls(t, ops).wf(),
    decreases ops.len(),
{
    if ops.len() > 0 {
        let stepped = if ops[0] {
            spec_scroll_down(t)
        } else {
            spec_scroll_up(t)
        };
        lemma_scroll_sequence_stays_in_bounds(stepped, ops.drop_first());
    }
}

/// One chord applied through `spec_apply_status_focus` is one focus step.
pub proof fn lemma_apply_status_focus_single(b: StatusBlocks, k: Key)
    ensures
        spec_apply_status_focus(b, seq![k]) == spec_status_focus_step(b, k),
{
    let stepped = spec_status_focus_step(b, k);
    assert(seq![k][0] == k);
    assert(seq![k].drop_first() =~= Seq::<Key>::empty());
    assert(spec_apply_status_focus(stepped, Seq::<Key>::empty()) == stepped);
}

/// Chord sequences compose: applying one sequence after another is applying
/// their concatenation.
pub proof fn lemma_apply_status_focus_concat(b: StatusBlocks, ks1: Seq<Key>, ks2: Seq<Key>)
    ensures
        spec_apply_status_focus(b, ks1 + ks2) == spec_apply_status_focus(
            spec_apply_status_focus(b, ks1),
            ks2,
        ),
    decreases ks1.len(),
{
    if ks1.len() == 0 {
        assert(ks1 + ks2 =~= ks2);
    } else {
        let stepped = spec_status_focus_step(b, ks1[0]);
        assert((ks1 + ks2).drop_first() =~= ks1.drop_first() + ks2);
        lemma_apply_status_focus_concat(stepped, ks1.drop_first(), ks2);
    }
}

/// The focus graph of the status tab is closed and has no unreachable state:
/// from any focused pane, some finite sequence of chords reaches any other
/// pane, and every sequence of chords lands on one of the three panes.
pub proof fn lemma_status_focus_graph_connected(a: StatusBlocks, b: StatusBlocks)
    ensures
        exists|ks: Seq<Key>| spec_apply_status_focus(a, ks) == b,
{
    match b {
        StatusBlocks::Diff => {
            lemma_apply_status_focus_single(a, Key::Right);
            assert(spec_apply_status_focus(a, seq![Key::Right]) == b);
        },
        StatusBlocks::Unstaged => {
            lemma_apply_status_focus_single(a, Key::Right);
            lemma_apply_status_focus_concat(a, seq![Key::Right], seq![Key::Left]);
            lemma_apply_status_focus_single(StatusBlocks::Diff, Key::Left);
            assert(seq![Key::Right] + seq![Key::Left] =~= seq![Key::Right, Key::Left]);
            assert(spec_apply_status_focus(a, seq![Key::Right, Key::Left]) == b);
        },
        StatusBlocks::Staged => {
            lemma_apply_status_focus_single(a, Key::Right);
            lemma_apply_status_focus_concat(a, seq![Key::Right], seq![Key::Left]);
            lemma_apply_status_focus_single(StatusBlocks::Diff, Key::Left);
            lemma_apply_status_focus_concat(
                a,
                seq![Key::Right, Key::Left],
                seq![Key::Down],
            );
            lemma_apply_status_focus_single(StatusBlocks::Unstaged, Key::Down);
            assert(seq![Key::Right] + seq![Key::Left] =~= seq![Key::Right, Key::Left]);
            assert(seq![Key::Right, Key::Left] + seq![Key::Down] =~= seq![
                Key::Right,
                Key::Left,
                Key::Down,
            ]);
            assert(spec_apply_status_focus(a, seq![Key::Right, Key::Left, Key::Down]) == b);
        },
    }
}

} // verus!
