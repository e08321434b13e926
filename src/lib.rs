//! Password-encrypted notes with a terminal line editor: the key derivation
//! and sealed-blob format, the editing buffer with its cursor, the
//! highlighting of command tokens, and the reading of typed commands.
pub mod crypto;
pub mod editor;
pub mod highlight;
pub mod notes;
pub mod shell;
pub mod text;
