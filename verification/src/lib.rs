//! The logic of a panel applet that shows the current temperature at a chosen place:
//! its settings and their migration (`config`), what it asks the forecast and
//! geocoding services for and keeps of their answers (`weather`), how its state
//! reacts to each message (`applet`), the properties that hold across messages
//! (`laws`), and the text operations these rest on (`text`).
pub mod applet;
pub mod config;
pub mod laws;
pub mod text;
pub mod weather;
