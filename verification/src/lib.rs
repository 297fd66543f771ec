//! Editing core of a small modal terminal text editor: a line-oriented
//! buffer (`Row`, `Document`), a cursor/viewport coordinate model, and the
//! modal key-dispatch state machine (`Editor`). Terminal I/O lives outside
//! this crate; the core works on plain values only.

pub mod document;
pub mod editor;
pub mod row;
pub mod text;

pub use document::Document;
pub use editor::move_cursor;
pub use editor::Editor;
pub use editor::Key;
pub use editor::Mode;
pub use editor::Position;
pub use editor::Size;
pub use row::Row;
