use vstd::prelude::*;

verus! {

/// What a buffer holds, as plain mathematical values.
pub struct TabView {
    pub text: Seq<char>,
    pub path: Option<Seq<char>>,
}

/// The editor's state as a mathematical value: the buffers in display order,
/// the index of the visible one, and the two inputs of the "new tab" form.
pub struct EditorModel {
    pub tabs: Seq<TabView>,
    pub active: Option<int>,
    pub new_tab_label: Seq<char>,
    pub new_tab_content: Seq<char>,
}

/// The text that a freshly created tab starts with: its position, in decimal.
pub open spec fn decimal(n: nat) -> Seq<char>
    decreases n,
{
    if n < 10 {
        seq![digit(n)]
    } else {
        decimal(n / 10) + seq![digit(n % 10)]
    }
}

pub open spec fn digit(d: nat) -> char {
    if d == 0 { '0' }
    else if d == 1 { '1' }
    else if d == 2 { '2' }
    else if d == 3 { '3' }
    else if d == 4 { '4' }
    else if d == 5 { '5' }
    else if d == 6 { '6' }
    else if d == 7 { '7' }
    else if d == 8 { '8' }
    else { '9' }
}

impl EditorModel {
    pub open spec fn empty() -> EditorModel {
        EditorModel {
            tabs: Seq::empty(),
            active: None,
            new_tab_label: Seq::empty(),
            new_tab_content: Seq::empty(),
        }
    }

    /// The active index is absent exactly when there are no buffers, and
    /// otherwise names one of them.
    pub open spec fn valid(self) -> bool {
        &&& (self.active is None <==> self.tabs.len() == 0)
        &&& (self.active matches Some(i) ==> 0 <= i < self.tabs.len())
    }

    /// Appends a buffer and makes it the visible one.
    pub open spec fn create(self, tab: TabView) -> EditorModel {
        EditorModel { tabs: self.tabs.push(tab), active: Some(self.tabs.len() as int), ..self }
    }

    /// Replaces the active buffer's text; with no buffer open, opens one that
    /// holds the text and has no path.
    pub open spec fn set_text(self, text: Seq<char>) -> EditorModel {
        match self.active {
            None => self.create(TabView { text, path: None }),
            Some(i) => EditorModel {
                tabs: self.tabs.update(i, TabView { text, path: self.tabs[i].path }),
                ..self
            },
        }
    }

    /// Takes in a file that was picked: into a new buffer when none is open,
    /// else into the active buffer, text and path both.
    pub open spec fn open(self, text: Seq<char>, path: Seq<char>) -> EditorModel {
        match self.active {
            None => self.create(TabView { text, path: Some(path) }),
            Some(i) => EditorModel {
                tabs: self.tabs.update(i, TabView { text, path: Some(path) }),
                ..self
            },
        }
    }

    /// Records the path that the active buffer was saved under.
    pub open spec fn set_path(self, path: Seq<char>) -> EditorModel {
        match self.active {
            None => self,
            Some(i) => EditorModel {
                tabs: self.tabs.update(i, TabView { text: self.tabs[i].text, path: Some(path) }),
                ..self
            },
        }
    }

    pub open spec fn select(self, index: int) -> EditorModel {
        EditorModel { active: Some(index), ..self }
    }

    /// The active index after the buffer at `index` is removed from a list of
    /// `len` buffers: none when the list is left empty, else the old index
    /// clamped to the last slot.
    pub open spec fn active_after_close(active: Option<int>, len: int) -> Option<int> {
        if len <= 1 {
            None
        } else {
            match active {
                None => Some(0),
                Some(a) => Some(if a < len - 2 { a } else { len - 2 }),
            }
        }
    }

    /// Removes the buffer at `index`.
    pub open spec fn close(self, index: int) -> EditorModel {
        EditorModel {
            tabs: self.tabs.remove(index),
            active: Self::active_after_close(self.active, self.tabs.len() as int),
            ..self
        }
    }
}

} // verus!

verus! {

/// What the editor asks its surroundings to do after a command.
pub enum ActionView {
    Nothing,
    PickFile,
    PickFolder,
    Save { text: Seq<char>, path: Seq<char> },
    SaveAs { text: Seq<char>, path: Option<Seq<char>> },
}

impl EditorModel {
    /// Saving writes the active buffer to its path; a buffer that has no path
    /// yet is saved "as", so that a path is asked for first.
    pub open spec fn save_action(self) -> ActionView {
        match self.active {
            None => ActionView::Nothing,
            Some(i) => match self.tabs[i].path {
                Some(p) => ActionView::Save { text: self.tabs[i].text, path: p },
                None => ActionView::SaveAs { text: self.tabs[i].text, path: None },
            },
        }
    }

    pub open spec fn save_as_action(self) -> ActionView {
        match self.active {
            None => ActionView::Nothing,
            Some(i) => ActionView::SaveAs { text: self.tabs[i].text, path: self.tabs[i].path },
        }
    }
}

} // verus!
