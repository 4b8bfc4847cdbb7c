//! A modal terminal text editor: a line buffer with a cursor, three input
//! modes, a command line, and a projection of the session onto a viewport.
//!
//! Terminal control, key capture and file access are left to the caller: the
//! library takes plain key values and file text, and hands back frames, file
//! text and the actions to perform.

mod editor;
mod laws;
mod render;
mod text;

pub use editor::{
    handle_command_key, handle_command_mode, handle_insert_mode, handle_key, handle_normal_mode,
    is_control, Action, EditorModel, EditorState, KeyCode, KeyInput, Mode,
};
pub use laws::{
    lemma_clamp_idempotent, lemma_insert_delete_inverse, lemma_key_step_keeps_invariant,
    lemma_save_load_round_trip,
};
pub use render::{draw_content, render_frame};
pub use text::{join_lines, split_text};
