//! The browser's state and its reaction to the user's gestures.
//!
//! The state machine decides; its caller reads the filesystem. A gesture that
//! calls for a fresh listing makes [`FilePicker::update`] return
//! [`Action::Scan`] with the directory to read, and the caller hands what it
//! read to [`FilePicker::scanned`], which replaces path and listing together.

use vstd::prelude::*;
use crate::content::{Content, ContentDataView, ContentView};
use crate::listing::{get_dir_content, listing, rows, DirReading};
use crate::paths::parent_of;

verus! {

/// Address field and listing of the browser.
pub struct FilePicker {
    path: String,
    content: Vec<Content>,
}

/// What a [`FilePicker`] holds, as mathematical values.
pub struct PickerView {
    pub path: Seq<char>,
    pub content: Seq<ContentView>,
}

impl PickerView {
    /// What holds of the listing in every state: it starts with the parent
    /// link, and every row is named by the rule of its kind.
    pub open spec fn well_formed(self) -> bool {
        &&& self.content.len() >= 1
        &&& self.content[0] is Directory
        &&& self.content[0]->Directory_0.is_parent
        &&& forall|i: int| 0 <= i < self.content.len() ==> (#[trigger] self.content[i]).well_formed()
    }
}

impl View for FilePicker {
    type V = PickerView;

    closed spec fn view(&self) -> PickerView {
        PickerView { path: self.path@, content: rows(self.content@) }
    }
}

/// A gesture of the user.
#[derive(Debug, Clone)]
pub enum Message {
    /// The text of the address field was edited.
    PathInput(String),
    /// The address field was submitted.
    PathChange,
    /// A row of the listing was clicked.
    ContentClicked(Content),
    /// The header of the listing was clicked.
    Sort,
}

/// What a [`Message`] holds, as mathematical values.
pub enum MessageView {
    PathInput(Seq<char>),
    PathChange,
    ContentClicked(ContentView),
    Sort,
}

impl View for Message {
    type V = MessageView;

    open spec fn view(&self) -> MessageView {
        match self {
            Message::PathInput(text) => MessageView::PathInput(text@),
            Message::PathChange => MessageView::PathChange,
            Message::ContentClicked(content) => MessageView::ContentClicked(content@),
            Message::Sort => MessageView::Sort,
        }
    }
}

/// What the caller is to do after a gesture was handled.
#[derive(Debug, Clone)]
pub enum Action {
    /// Nothing.
    Idle,
    /// Read this directory and hand the outcome to [`FilePicker::scanned`].
    Scan(String),
}

/// What an [`Action`] holds, as mathematical values.
pub enum ActionView {
    Idle,
    Scan(Seq<char>),
}

impl View for Action {
    type V = ActionView;

    open spec fn view(&self) -> ActionView {
        match self {
            Action::Idle => ActionView::Idle,
            Action::Scan(path) => ActionView::Scan(path@),
        }
    }
}

/// The state right after a gesture: an edit replaces the address, a click on
/// a file selects its path, and nothing else changes before a scan comes in.
pub open spec fn after_update(state: PickerView, message: MessageView) -> PickerView {
    match message {
        MessageView::PathInput(text) => PickerView { path: text, content: state.content },
        MessageView::ContentClicked(ContentView::File(file)) => PickerView {
            path: file.path,
            content: state.content,
        },
        _ => state,
    }
}

/// The scan that a gesture calls for: of the address on a submit, of the
/// directory on a click on one, none otherwise.
pub open spec fn action_for(state: PickerView, message: MessageView) -> ActionView {
    match message {
        MessageView::PathChange => ActionView::Scan(state.path),
        MessageView::ContentClicked(ContentView::Directory(dir)) => ActionView::Scan(dir.path),
        _ => ActionView::Idle,
    }
}

/// The state that shows `path` with what was read of it.
pub open spec fn after_scan(path: Seq<char>, reading: DirReading) -> PickerView {
    PickerView { path, content: listing(path, reading) }
}

/// The state once a gesture is handled to its end, where `reading` is what
/// the scan found that the gesture called for (and is ignored where it
/// called for none).
pub open spec fn handled(state: PickerView, message: MessageView, reading: DirReading)
    -> PickerView {
    match action_for(state, message) {
        ActionView::Scan(path) => after_scan(path, reading),
        ActionView::Idle => after_update(state, message),
    }
}

impl FilePicker {
    #[verifier::type_invariant]
    spec fn listing_is_headed(self) -> bool {
        self@.well_formed()
    }

    /// The browser as it starts: at `cwd`, showing what was read of it.
    pub fn new(cwd: String, reading: DirReading) -> (picker: FilePicker)
        ensures
            picker@ == after_scan(cwd@, reading),
            picker@.well_formed(),
    {
        let content = get_dir_content(cwd.clone(), reading);
        FilePicker { path: cwd, content }
    }

    /// The window's title.
    pub fn title(&self) -> (title: String)
        ensures
            title@ == "FilePicker - Iced"@,
    {
        "FilePicker - Iced".to_string()
    }

    /// The text of the address field.
    pub fn path(&self) -> (path: &str)
        ensures
            path@ == self@.path,
    {
        self.path.as_str()
    }

    /// The rows of the listing.
    pub fn content(&self) -> (content: &Vec<Content>)
        ensures
            rows(content@) == self@.content,
            content@.len() >= 1,
            self@.well_formed(),
    {
        proof {
            use_type_invariant(self);
        }
        &self.content
    }

    /// Handles a gesture, and says which directory is to be read for it.
    ///
    /// An edit of the address field replaces the address and leaves the
    /// listing. A click on a file puts its path into the address field and
    /// leaves the listing. A submit asks for a scan of the address, a click on
    /// a directory for a scan of that directory; the state changes when the
    /// outcome arrives. A click on a placeholder or on the header does nothing.
    pub fn update(&mut self, message: Message) -> (action: Action)
        ensures
            final(self)@ == after_update(old(self)@, message@),
            action@ == action_for(old(self)@, message@),
            final(self)@.well_formed(),
            message@ matches MessageView::ContentClicked(ContentView::File(file)) ==> {
                &&& final(self)@.content == old(self)@.content
                &&& final(self)@.path == file.path
                &&& action@ == ActionView::Idle
            },
            message@ matches MessageView::ContentClicked(ContentView::Corrupt) ==> {
                &&& final(self)@ == old(self)@
                &&& action@ == ActionView::Idle
            },
    {
        proof {
            use_type_invariant(&*self);
        }
        match message {
            Message::PathInput(path) => {
                self.path = path;
                Action::Idle
            },
            Message::PathChange => Action::Scan(self.path.clone()),
            Message::ContentClicked(content) => match content {
                Content::Directory(dir) => Action::Scan(dir.path),
                Content::File(file) => {
                    self.path = file.path;
                    Action::Idle
                },
                Content::Corrupt => Action::Idle,
            },
            Message::Sort => Action::Idle,
        }
    }

    /// Takes in what was read of `path`: the address becomes `path` and the
    /// listing is replaced whole by that of `path`.
    pub fn scanned(&mut self, path: String, reading: DirReading)
        ensures
            final(self)@ == after_scan(path@, reading),
            final(self)@.well_formed(),
    {
        self.content = get_dir_content(path.clone(), reading);
        self.path = path;
    }
}

/// A click on a file leaves the listing as it is and puts the file's path
/// into the address field.
pub proof fn law_file_is_selected(state: PickerView, file: ContentDataView, reading: DirReading)
    ensures
        handled(state, MessageView::ContentClicked(ContentView::File(file)), reading) == (PickerView {
            path: file.path,
            content: state.content,
        }),
{
}

/// A click on a directory replaces the listing by that of the directory and
/// puts the directory's path into the address field.
pub proof fn law_directory_is_opened(state: PickerView, dir: ContentDataView, reading: DirReading)
    ensures
        handled(state, MessageView::ContentClicked(ContentView::Directory(dir)), reading) == (PickerView {
            path: dir.path,
            content: listing(dir.path, reading),
        }),
{
}

/// A submit leaves the address and replaces the listing by that of the
/// address.
pub proof fn law_submit_rescans(state: PickerView, reading: DirReading)
    ensures
        handled(state, MessageView::PathChange, reading) == (PickerView {
            path: state.path,
            content: listing(state.path, reading),
        }),
{
}

/// Into a child and back: from a directory, a click on a child directory whose
/// parent is that directory, then a click on the first row of the child's
/// listing, then a submit, and the address is the directory again, with its
/// listing shown.
pub proof fn law_round_trip(
    state: PickerView,
    child: ContentDataView,
    inner: DirReading,
    outer: DirReading,
    last: DirReading,
)
    ensures
        parent_of(child.path) == Some(state.path) ==> {
            let inside = handled(
                state,
                MessageView::ContentClicked(ContentView::Directory(child)),
                inner,
            );
            let back = handled(inside, MessageView::ContentClicked(inside.content[0]), outer);
            let shown = handled(back, MessageView::PathChange, last);
            &&& inside.path == child.path
            &&& back.path == state.path
            &&& back.content == listing(state.path, outer)
            &&& shown.path == state.path
            &&& shown.content == listing(state.path, last)
        },
{
}

} // verus!
