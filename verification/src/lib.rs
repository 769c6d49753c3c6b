//! A server-side terminal-UI engine: widgets paint into a flat screen
//! buffer, and consecutive frames are compared so that only the cells
//! that changed are re-sent to the terminal as ANSI escape sequences.

mod buffer;
mod format;
mod screen;
mod session;
mod widget;
mod widgets;

pub use buffer::apply_patches;
pub use buffer::cell_changed;
pub use buffer::changed_count;
pub use buffer::cursor_to;
pub use buffer::diff;
pub use buffer::diff_bytes;
pub use buffer::lemma_diff_exact;
pub use buffer::patch_bytes;
pub use buffer::patch_list;
pub use buffer::patches_bytes;
pub use buffer::push_cursor_to;
pub use buffer::ScreenBuffer;
pub use format::dec_of;
pub use format::push_dec;
pub use format::sgr_of;
pub use format::Color;
pub use format::Format;
pub use screen::fill_format;
pub use screen::frame_rendered;
pub use screen::is_blank;
pub use screen::lemma_no_focusable_keeps_active;
pub use screen::rotation_candidate;
pub use screen::Screen;
pub use screen::TAB;
pub use session::initial_fill;
pub use session::reset_bytes;
pub use session::Session;
pub use session::SessionEvent;
pub use session::SessionState;
pub use session::SessionStep;
pub use widget::Widget;
pub use widgets::lemma_entry_cells;
pub use widgets::put_cell;
pub use widgets::Entry;
