//! Raw keyboard input for a terminal settings editor, the settings catalog it
//! edits, and the XML configuration document it writes.
pub mod inputs;
pub mod session;
pub mod settings;
pub mod menu;
pub mod system_xml;
