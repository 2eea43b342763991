use crate::model::{decimal, ActionView, EditorModel, TabView};
use vstd::prelude::*;

verus! {

/// The commands that the editor's view and menus send.
#[derive(Debug, Clone)]
pub enum Message {
    TextUpdate(String),
    NewFile,
    OpenFile,
    OpenFolder,
    Save,
    SaveAs,
    NewTab,
    TabSelected(usize),
    TabClosed(usize),
    TabLabelInputChanged(String),
    TabContentInputChanged(String),
}

/// Outside work that a command leaves to the caller: file dialogs and writes.
#[derive(Debug, Clone)]
pub enum Action {
    Nothing,
    PickFile,
    PickFolder,
    Save { text: String, path: String },
    SaveAs { text: String, path: Option<String> },
}

impl View for Action {
    type V = ActionView;

    open spec fn view(&self) -> ActionView {
        match self {
            Action::Nothing => ActionView::Nothing,
            Action::PickFile => ActionView::PickFile,
            Action::PickFolder => ActionView::PickFolder,
            Action::Save { text, path } => ActionView::Save { text: text@, path: path@ },
            Action::SaveAs { text, path } => ActionView::SaveAs { text: text@, path: opt_view(*path) },
        }
    }
}

/// A command that named a tab which does not exist.
#[derive(Debug, Clone, Copy, PartialEq, Eq, Structural)]
pub enum TabError {
    IndexOutOfRange { index: usize, len: usize },
}

pub open spec fn opt_view(p: Option<String>) -> Option<Seq<char>> {
    match p {
        Some(s) => Some(s@),
        None => None,
    }
}

fn copy_path(p: &Option<String>) -> (r: Option<String>)
    ensures
        opt_view(r) == opt_view(*p),
{
    match p {
        Some(s) => Some(s.clone()),
        None => None,
    }
}

/// Relies on `usize`'s `ToString` (through `Display`): the value's decimal
/// digits, with no sign and no padding.
#[verifier::external_body]
fn decimal_string(n: usize) -> (r: String)
    ensures
        r@ == decimal(n as nat),
{
    n.to_string()
}

/// One open buffer: its text, and the file it belongs to, if any.
#[derive(Clone)]
pub struct FileTab {
    text: String,
    path: Option<String>,
}

impl View for FileTab {
    type V = TabView;

    closed spec fn view(&self) -> TabView {
        TabView { text: self.text@, path: opt_view(self.path) }
    }
}

impl FileTab {
    pub fn new(text: String, path: Option<String>) -> (r: FileTab)
        ensures
            r@ == (TabView { text: text@, path: opt_view(path) }),
    {
        FileTab { text, path }
    }

    pub fn text(&self) -> (r: &String)
        ensures
            r@ == self@.text,
    {
        &self.text
    }

    pub fn path(&self) -> (r: &Option<String>)
        ensures
            opt_view(*r) == self@.path,
    {
        &self.path
    }
}

/// The editor: its buffers in display order and the one that is shown.
pub struct State {
    active_tab: Option<usize>,
    new_tab_label: String,
    new_tab_content: String,
    tabs: Vec<FileTab>,
}

impl View for State {
    type V = EditorModel;

    closed spec fn view(&self) -> EditorModel {
        EditorModel {
            tabs: self.tabs@.map_values(|t: FileTab| t@),
            active: match self.active_tab {
                Some(i) => Some(i as int),
                None => None,
            },
            new_tab_label: self.new_tab_label@,
            new_tab_content: self.new_tab_content@,
        }
    }
}

impl State {
    pub open spec fn wf(&self) -> bool {
        self@.valid()
    }

    pub fn new() -> (r: State)
        ensures
            r.wf(),
            r@ == EditorModel::empty(),
    {
        let r = State {
            active_tab: None,
            new_tab_label: String::new(),
            new_tab_content: String::new(),
            tabs: Vec::new(),
        };
        proof {
            assert(r@.tabs =~= Seq::<TabView>::empty());
        }
        r
    }

    /// Appends a buffer holding `text` and `path`, and shows it.
    pub fn create_buffer(&mut self, text: String, path: Option<String>)
        requires
            old(self).wf(),
        ensures
            final(self).wf(),
            final(self)@ == old(self)@.create(TabView { text: text@, path: opt_view(path) }),
    {
        let tab = FileTab { text, path };
        let ghost tv = tab@;
        self.tabs.push(tab);
        self.active_tab = Some(self.tabs.len() - 1);
        proof {
            assert(self@.tabs =~= old(self)@.tabs.push(tv));
        }
    }

    /// Replaces the shown buffer's text; with no buffer open, opens a new
    /// one that holds the text.
    pub fn set_active_text(&mut self, text: String)
        requires
            old(self).wf(),
        ensures
            final(self).wf(),
            final(self)@ == old(self)@.set_text(text@),
    {
        match self.active_tab {
            None => self.create_buffer(text, None),
            Some(i) => {
                let path = copy_path(&self.tabs[i].path);
                let tab = FileTab { text, path };
                let ghost tv = tab@;
                self.tabs.set(i, tab);
                proof {
                    assert(self@.tabs =~= old(self)@.tabs.update(i as int, tv));
                }
            },
        }
    }

    /// Takes in a file that the file picker returned: into a new buffer when
    /// none is open, else in place of the shown buffer's text and path.
    pub fn file_picked(&mut self, text: String, path: String)
        requires
            old(self).wf(),
        ensures
            final(self).wf(),
            final(self)@ == old(self)@.open(text@, path@),
    {
        match self.active_tab {
            None => self.create_buffer(text, Some(path)),
            Some(i) => {
                let tab = FileTab { text, path: Some(path) };
                let ghost tv = tab@;
                self.tabs.set(i, tab);
                proof {
                    assert(self@.tabs =~= old(self)@.tabs.update(i as int, tv));
                }
            },
        }
    }

    /// Records the path that the shown buffer was saved under.
    pub fn saved_as(&mut self, path: String)
        requires
            old(self).wf(),
        ensures
            final(self).wf(),
            final(self)@ == old(self)@.set_path(path@),
    {
        match self.active_tab {
            None => {},
            Some(i) => {
                let text = self.tabs[i].text.clone();
                let tab = FileTab { text, path: Some(path) };
                let ghost tv = tab@;
                self.tabs.set(i, tab);
                proof {
                    assert(self@.tabs =~= old(self)@.tabs.update(i as int, tv));
                }
            },
        }
    }

    /// Shows the buffer at `index`, which must exist.
    pub fn select_tab(&mut self, index: usize) -> (r: Result<(), TabError>)
        requires
            old(self).wf(),
        ensures
            final(self).wf(),
            r is Ok <==> index < old(self)@.tabs.len(),
            r is Ok ==> final(self)@ == old(self)@.select(index as int),
            r is Err ==> final(self)@ == old(self)@ && r == Err::<(), TabError>(
                TabError::IndexOutOfRange { index, len: old(self)@.tabs.len() as usize },
            ),
    {
        let len = self.tabs.len();
        if index >= len {
            return Err(TabError::IndexOutOfRange { index, len });
        }
        self.active_tab = Some(index);
        Ok(())
    }

    /// Removes the buffer at `index`, which must exist. The shown index is
    /// kept where it still names a buffer, else moved to the last one; with
    /// no buffer left, none is shown.
    pub fn close_tab(&mut self, index: usize) -> (r: Result<(), TabError>)
        requires
            old(self).wf(),
        ensures
            final(self).wf(),
            r is Ok <==> index < old(self)@.tabs.len(),
            r is Ok ==> final(self)@ == old(self)@.close(index as int),
            r is Err ==> final(self)@ == old(self)@ && r == Err::<(), TabError>(
                TabError::IndexOutOfRange { index, len: old(self)@.tabs.len() as usize },
            ),
    {
        let len = self.tabs.len();
        if index >= len {
            return Err(TabError::IndexOutOfRange { index, len });
        }
        self.tabs.remove(index);
        let left = self.tabs.len();
        self.active_tab = if left == 0 {
            None
        } else {
            match self.active_tab {
                None => Some(0),
                Some(a) => Some(if a < left - 1 { a } else { left - 1 }),
            }
        };
        proof {
            assert(self@.tabs =~= old(self)@.tabs.remove(index as int));
        }
        Ok(())
    }

    /// Handles one command, and returns the outside work that it asks for.
    /// A command that names a tab which does not exist changes nothing and
    /// is reported as an error.
    pub fn update(&mut self, message: Message) -> (r: Result<Action, TabError>)
        requires
            old(self).wf(),
        ensures
            final(self).wf(),
            match message {
                Message::TextUpdate(text) => r matches Ok(a) && a@ == ActionView::Nothing
                    && final(self)@ == old(self)@.set_text(text@),
                Message::NewFile | Message::NewTab => r matches Ok(a) && a@ == ActionView::Nothing
                    && final(self)@ == old(self)@.create(
                    TabView { text: decimal(old(self)@.tabs.len() as nat), path: None },
                ),
                Message::OpenFile => r matches Ok(a) && a@ == ActionView::PickFile
                    && final(self)@ == old(self)@,
                Message::OpenFolder => r matches Ok(a) && a@ == ActionView::PickFolder
                    && final(self)@ == old(self)@,
                Message::Save => r matches Ok(a) && a@ == old(self)@.save_action()
                    && final(self)@ == old(self)@,
                Message::SaveAs => r matches Ok(a) && a@ == old(self)@.save_as_action()
                    && final(self)@ == old(self)@,
                Message::TabSelected(index) => if index < old(self)@.tabs.len() {
                    r matches Ok(a) && a@ == ActionView::Nothing
                        && final(self)@ == old(self)@.select(index as int)
                } else {
                    final(self)@ == old(self)@ && r == Err::<Action, TabError>(
                        TabError::IndexOutOfRange { index, len: old(self)@.tabs.len() as usize },
                    )
                },
                Message::TabClosed(index) => if index < old(self)@.tabs.len() {
                    r matches Ok(a) && a@ == ActionView::Nothing
                        && final(self)@ == old(self)@.close(index as int)
                } else {
                    final(self)@ == old(self)@ && r == Err::<Action, TabError>(
                        TabError::IndexOutOfRange { index, len: old(self)@.tabs.len() as usize },
                    )
                },
                Message::TabLabelInputChanged(value) => r matches Ok(a) && a@ == ActionView::Nothing
                    && final(self)@ == (EditorModel { new_tab_label: value@, ..old(self)@ }),
                Message::TabContentInputChanged(value) => r matches Ok(a) && a@
                    == ActionView::Nothing && final(self)@ == (EditorModel {
                    new_tab_content: value@,
                    ..old(self)@
                }),
            },
    {
        match message {
            Message::TextUpdate(text) => {
                self.set_active_text(text);
                Ok(Action::Nothing)
            },
            Message::NewFile | Message::NewTab => {
                let text = decimal_string(self.tabs.len());
                self.create_buffer(text, None);
                Ok(Action::Nothing)
            },
            Message::OpenFile => Ok(Action::PickFile),
            Message::OpenFolder => Ok(Action::PickFolder),
            Message::Save => Ok(self.save_request()),
            Message::SaveAs => Ok(self.save_as_request()),
            Message::TabSelected(index) => match self.select_tab(index) {
                Ok(()) => Ok(Action::Nothing),
                Err(e) => Err(e),
            },
            Message::TabClosed(index) => match self.close_tab(index) {
                Ok(()) => Ok(Action::Nothing),
                Err(e) => Err(e),
            },
            Message::TabLabelInputChanged(value) => {
                self.new_tab_label = value;
                Ok(Action::Nothing)
            },
            Message::TabContentInputChanged(value) => {
                self.new_tab_content = value;
                Ok(Action::Nothing)
            },
        }
    }

    /// The write that saving the shown buffer takes.
    pub fn save_request(&self) -> (r: Action)
        requires
            self.wf(),
        ensures
            r@ == self@.save_action(),
    {
        match self.active_tab {
            None => Action::Nothing,
            Some(i) => {
                let tab = &self.tabs[i];
                match &tab.path {
                    Some(p) => Action::Save { text: tab.text.clone(), path: p.clone() },
                    None => Action::SaveAs { text: tab.text.clone(), path: None },
                }
            },
        }
    }

    /// The write that saving the shown buffer under a new path takes.
    pub fn save_as_request(&self) -> (r: Action)
        requires
            self.wf(),
        ensures
            r@ == self@.save_as_action(),
    {
        match self.active_tab {
            None => Action::Nothing,
            Some(i) => {
                let tab = &self.tabs[i];
                Action::SaveAs { text: tab.text.clone(), path: copy_path(&tab.path) }
            },
        }
    }

    pub fn title(&self) -> (r: String)
        ensures
            r@ == "code editor"@,
    {
        "code editor".to_string()
    }

    pub fn active_tab(&self) -> (r: Option<usize>)
        ensures
            r matches Some(i) ==> self@.active == Some(i as int),
            r is None ==> self@.active is None,
    {
        self.active_tab
    }

    pub fn tabs(&self) -> (r: &Vec<FileTab>)
        ensures
            r@.map_values(|t: FileTab| t@) == self@.tabs,
    {
        &self.tabs
    }

    pub fn new_tab_label(&self) -> (r: &String)
        ensures
            r@ == self@.new_tab_label,
    {
        &self.new_tab_label
    }

    pub fn new_tab_content(&self) -> (r: &String)
        ensures
            r@ == self@.new_tab_content,
    {
        &self.new_tab_content
    }
}

} // verus!
