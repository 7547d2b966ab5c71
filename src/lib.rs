//! Application shell of the Jell Machine desktop program: the native menu
//! it shows, the decisions taken on a menu selection, and the commands it
//! exposes to its web content. The host runtime that renders the menu and
//! carries out the decisions lives outside this library.

pub mod text;
pub mod dispatch;
pub mod menu;
