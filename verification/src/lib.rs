//! State and listing logic of a small file browser.
//!
//! The library never touches the filesystem. A caller reads a directory and
//! hands the outcome over as a [`DirReading`]; the library turns it into the
//! rows of a listing and keeps the browser's state ([`FilePicker`]) in step
//! with the user's gestures ([`Message`]).

pub mod content;
pub mod listing;
pub mod paths;
pub mod picker;

pub use content::{Content, ContentData, ContentDataView, ContentView};
pub use listing::{get_dir_content, ChildReading, DirReading};
pub use paths::parent_dir;
pub use picker::{Action, FilePicker, Message, PickerView};
