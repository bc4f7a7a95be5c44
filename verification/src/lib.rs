//! A terminal text-input widget core: a character buffer with a logical edit
//! cursor, a pure viewport mapper that clamps the cursor into a fixed-width
//! visible window, and a button press state machine.
//!
//! The editing core owns the buffer and cursor and turns discrete key actions
//! into buffer mutations and change notifications; the host widget owns the
//! scroll offset and viewport width and re-clamps the display column after
//! every edit.

pub mod button;
pub mod editor;
pub mod events;
pub mod laws;
pub mod viewport;
