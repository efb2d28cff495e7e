//! The browsing state: the list of matches, the mode the move keys act in,
//! the scroll offset of the preview, and the one cached preview.
use vstd::prelude::*;
use crate::list::{next_index, prev_index, StatefulList};
use crate::search::Match;

verus! {

/// What the move keys act on.
#[derive(Debug, Clone, Copy, PartialEq, Eq, Structural)]
pub enum Mode {
    /// They move the selection through the list of matches.
    Files,
    /// They scroll the preview.
    Preview,
}

/// The keys the browser knows.
#[derive(Debug, Clone, Copy, PartialEq, Eq, Structural)]
pub enum Key {
    Advance,
    Retreat,
    EnterPreview,
    EnterFiles,
    Quit,
    Other,
}

/// What the caller does after a key: end the session, draw again, or first
/// render the preview of the given match and hand it to `cache_preview`.
#[derive(Debug, Clone, PartialEq, Eq)]
pub enum Action {
    Quit,
    Draw,
    Render(Match),
}

/// The key that a typed character stands for: `j` advances, `k` retreats,
/// `l` enters the preview, `h` the file list, `q` quits.
pub open spec fn key_for(c: char) -> Key {
    if c == 'j' {
        Key::Advance
    } else if c == 'k' {
        Key::Retreat
    } else if c == 'l' {
        Key::EnterPreview
    } else if c == 'h' {
        Key::EnterFiles
    } else if c == 'q' {
        Key::Quit
    } else {
        Key::Other
    }
}

/// Reads a typed character as a key.
pub fn key_of_char(c: char) -> (r: Key)
    ensures
        r == key_for(c),
{
    if c == 'j' {
        Key::Advance
    } else if c == 'k' {
        Key::Retreat
    } else if c == 'l' {
        Key::EnterPreview
    } else if c == 'h' {
        Key::EnterFiles
    } else if c == 'q' {
        Key::Quit
    } else {
        Key::Other
    }
}

/// One line further down, staying at the largest offset.
pub open spec fn scroll_down(offset: u16) -> u16 {
    if offset == u16::MAX {
        u16::MAX
    } else {
        (offset + 1) as u16
    }
}

/// One line further up, staying at the top.
pub open spec fn scroll_up(offset: u16) -> u16 {
    if offset == 0 {
        0
    } else {
        (offset - 1) as u16
    }
}

/// The selection after `key`, in a list of `n` in mode `mode`: the move keys
/// move it in file mode only.
pub open spec fn step_selection(sel: int, n: int, mode: Mode, key: Key) -> int {
    if mode == Mode::Files && key == Key::Advance {
        next_index(sel, n)
    } else if mode == Mode::Files && key == Key::Retreat {
        prev_index(sel, n)
    } else {
        sel
    }
}

/// The offset after `key`: in file mode a move key puts the newly selected
/// line (`home`) at the top, in preview mode it scrolls by one line.
pub open spec fn step_offset(offset: u16, mode: Mode, key: Key, home: u16) -> u16 {
    if key == Key::Advance {
        if mode == Mode::Files {
            home
        } else {
            scroll_down(offset)
        }
    } else if key == Key::Retreat {
        if mode == Mode::Files {
            home
        } else {
            scroll_up(offset)
        }
    } else {
        offset
    }
}

/// The mode after `key`.
pub open spec fn step_mode(mode: Mode, key: Key) -> Mode {
    match key {
        Key::EnterPreview => Mode::Preview,
        Key::EnterFiles => Mode::Files,
        _ => mode,
    }
}

/// The move keys do one thing per mode: in preview mode they leave the
/// selection where it is, and in file mode they do not scroll, the offset
/// they leave being the newly selected line's whatever the offset was.
pub proof fn lemma_mode_isolation(sel: int, n: int, offset: u16, other: u16, key: Key, home: u16)
    requires
        key == Key::Advance || key == Key::Retreat,
    ensures
        step_selection(sel, n, Mode::Preview, key) == sel,
        step_offset(offset, Mode::Files, key, home) == home,
        step_offset(offset, Mode::Files, key, home) == step_offset(other, Mode::Files, key, home),
{
}

/// The browser over a non-empty list of matches.
pub struct App {
    items: StatefulList<Match>,
    mode: Mode,
    offset: u16,
    last_file_name: Option<String>,
    last_file_contents: String,
}

impl App {
    /// The matches, in order.
    pub closed spec fn entries(&self) -> Seq<Match> {
        self.items.entries()
    }

    /// The position of the selected match.
    pub closed spec fn selection(&self) -> int {
        self.items.index()
    }

    /// The current mode.
    pub closed spec fn spec_mode(&self) -> Mode {
        self.mode
    }

    /// The preview's scroll offset: the 0-based line shown at the top.
    pub closed spec fn spec_offset(&self) -> u16 {
        self.offset
    }

    /// The file whose preview is cached, if any.
    pub closed spec fn cached_file(&self) -> Option<Seq<char>> {
        match self.last_file_name {
            Some(f) => Some(f@),
            None => None,
        }
    }

    /// The cached preview text (empty before the first one).
    pub closed spec fn preview(&self) -> Seq<char> {
        self.last_file_contents@
    }

    /// The selection lies in the list and every line number is positive.
    pub closed spec fn wf(&self) -> bool {
        &&& self.items.wf()
        &&& forall|i: int|
            0 <= i < self.items.entries().len() ==> #[trigger] self.items.entries()[i].line_number >= 1
    }

    /// The selected match.
    pub open spec fn current(&self) -> Match {
        self.entries()[self.selection()]
    }

    /// The cached preview is not the one of the selected match's file.
    pub open spec fn needs_render(&self) -> bool {
        self.cached_file() != Some(self.current().file@)
    }

    /// The offset that puts the selected match's line at the top.
    pub open spec fn home_offset(&self) -> u16 {
        (self.current().line_number - 1) as u16
    }

    /// A browser over `items` with the first match selected, in file mode,
    /// its line at the top and nothing cached yet.
    pub fn new(items: Vec<Match>) -> (r: App)
        requires
            items@.len() > 0,
            forall|i: int| 0 <= i < items@.len() ==> #[trigger] items@[i].line_number >= 1,
        ensures
            r.wf(),
            r.entries() == items@,
            r.selection() == 0,
            r.spec_mode() == Mode::Files,
            r.spec_offset() == items@[0].line_number - 1,
            r.cached_file() is None,
            r.preview().len() == 0,
            r.needs_render(),
    {
        let offset = items[0].line_number - 1;
        App {
            items: StatefulList::with_items(items),
            mode: Mode::Files,
            offset,
            last_file_name: None,
            last_file_contents: String::new(),
        }
    }

    /// Makes `m` the current mode.
    pub fn change_mode(&mut self, m: Mode)
        ensures
            final(self).spec_mode() == m,
            final(self).entries() == old(self).entries(),
            final(self).selection() == old(self).selection(),
            final(self).spec_offset() == old(self).spec_offset(),
            final(self).cached_file() == old(self).cached_file(),
            final(self).preview() == old(self).preview(),
            old(self).wf() ==> final(self).wf(),
    {
        self.mode = m;
    }

    /// Selects the following match (the first after the last) and puts its
    /// line at the top; the cache stays as it is.
    pub fn next_file(&mut self)
        requires
            old(self).wf(),
        ensures
            final(self).wf(),
            final(self).entries() == old(self).entries(),
            final(self).selection() == next_index(old(self).selection(), old(self).entries().len() as int),
            final(self).spec_mode() == old(self).spec_mode(),
            final(self).spec_offset() == final(self).home_offset(),
            final(self).cached_file() == old(self).cached_file(),
            final(self).preview() == old(self).preview(),
    {
        self.items.next();
        self.offset = self.items.selected().line_number - 1;
    }

    /// Selects the preceding match (the last before the first) and puts its
    /// line at the top; the cache stays as it is.
    pub fn prev_file(&mut self)
        requires
            old(self).wf(),
        ensures
            final(self).wf(),
            final(self).entries() == old(self).entries(),
            final(self).selection() == prev_index(old(self).selection(), old(self).entries().len() as int),
            final(self).spec_mode() == old(self).spec_mode(),
            final(self).spec_offset() == final(self).home_offset(),
            final(self).cached_file() == old(self).cached_file(),
            final(self).preview() == old(self).preview(),
    {
        self.items.previous();
        self.offset = self.items.selected().line_number - 1;
    }

    /// The match whose preview must be rendered before the next draw: the
    /// selected one, when the cache holds another file (or none).
    pub fn preview_request(&self) -> (r: Option<Match>)
        requires
            self.wf(),
        ensures
            r is Some <==> self.needs_render(),
            r matches Some(m) ==> m@ == self.current()@,
    {
        let selected = self.items.selected();
        if let Some(cached) = &self.last_file_name {
            if *cached == selected.file {
                return None;
            }
        }
        Some(Match { file: selected.file.clone(), line_number: selected.line_number })
    }

    /// Stores `contents` as the preview of the selected match's file and puts
    /// that match's line at the top.
    pub fn cache_preview(&mut self, contents: String)
        requires
            old(self).wf(),
        ensures
            final(self).wf(),
            final(self).entries() == old(self).entries(),
            final(self).selection() == old(self).selection(),
            final(self).spec_mode() == old(self).spec_mode(),
            final(self).cached_file() == Some(final(self).current().file@),
            final(self).preview() == contents@,
            final(self).spec_offset() == final(self).home_offset(),
            !final(self).needs_render(),
    {
        let selected = self.items.selected();
        let file = selected.file.clone();
        let line = selected.line_number;
        self.last_file_name = Some(file);
        self.last_file_contents = contents;
        self.offset = line - 1;
    }

    /// Scrolls the preview down one line, staying at the largest offset.
    pub fn inc_offset(&mut self)
        ensures
            final(self).spec_offset() == scroll_down(old(self).spec_offset()),
            final(self).entries() == old(self).entries(),
            final(self).selection() == old(self).selection(),
            final(self).spec_mode() == old(self).spec_mode(),
            final(self).cached_file() == old(self).cached_file(),
            final(self).preview() == old(self).preview(),
            old(self).wf() ==> final(self).wf(),
    {
        self.offset = self.offset.saturating_add(1);
    }

    /// Scrolls the preview up one line, staying at the top.
    pub fn dec_offset(&mut self)
        ensures
            final(self).spec_offset() == scroll_up(old(self).spec_offset()),
            final(self).entries() == old(self).entries(),
            final(self).selection() == old(self).selection(),
            final(self).spec_mode() == old(self).spec_mode(),
            final(self).cached_file() == old(self).cached_file(),
            final(self).preview() == old(self).preview(),
            old(self).wf() ==> final(self).wf(),
    {
        self.offset = self.offset.saturating_sub(1);
    }

    /// Applies one key: moves the selection or scrolls as the mode says,
    /// switches mode, or quits. Unless it quits, it asks for a render exactly
    /// when the newly selected match lies in another file than the cached
    /// preview.
    pub fn handle_key(&mut self, key: Key) -> (r: Action)
        requires
            old(self).wf(),
        ensures
            final(self).wf(),
            final(self).entries() == old(self).entries(),
            final(self).cached_file() == old(self).cached_file(),
            final(self).preview() == old(self).preview(),
            final(self).spec_mode() == step_mode(old(self).spec_mode(), key),
            final(self).selection() == step_selection(
                old(self).selection(),
                old(self).entries().len() as int,
                old(self).spec_mode(),
                key,
            ),
            final(self).spec_offset() == step_offset(
                old(self).spec_offset(),
                old(self).spec_mode(),
                key,
                final(self).home_offset(),
            ),
            key == Key::Quit ==> r == Action::Quit,
            key != Key::Quit ==> match r {
                Action::Render(m) => final(self).needs_render() && m@ == final(self).current()@,
                Action::Draw => !final(self).needs_render(),
                Action::Quit => false,
            },
    {
        match key {
            Key::Quit => {
                return Action::Quit;
            },
            Key::Advance => match self.mode {
                Mode::Files => self.next_file(),
                Mode::Preview => self.inc_offset(),
            },
            Key::Retreat => match self.mode {
                Mode::Files => self.prev_file(),
                Mode::Preview => self.dec_offset(),
            },
            Key::EnterPreview => self.change_mode(Mode::Preview),
            Key::EnterFiles => self.change_mode(Mode::Files),
            Key::Other => {},
        }
        match self.preview_request() {
            Some(m) => Action::Render(m),
            None => Action::Draw,
        }
    }

    /// The preview's scroll offset.
    pub fn get_offset(&self) -> (r: u16)
        ensures
            r == self.spec_offset(),
    {
        self.offset
    }

    /// The cached preview text.
    pub fn get_file_text(&self) -> (r: &String)
        ensures
            r@ == self.preview(),
    {
        &self.last_file_contents
    }

    /// The current mode.
    pub fn get_mode(&self) -> (r: Mode)
        ensures
            r == self.spec_mode(),
    {
        self.mode
    }

    /// The matches, in order.
    pub fn matches(&self) -> (r: &Vec<Match>)
        ensures
            r@ == self.entries(),
    {
        self.items.items()
    }

    /// The position of the selected match.
    pub fn selected_index(&self) -> (r: usize)
        ensures
            r as int == self.selection(),
    {
        self.items.selected_index()
    }
}

} // verus!
