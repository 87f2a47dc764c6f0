//! A resizable two-pane split container, as integer geometry and interaction rules.
//!
//! The crate decides where the two panes and the divider between them go,
//! how pointer events move a split between idle and dragging, which cursor
//! and which style each region gets, and in what order a split is drawn.
//! Child widgets stay with the caller: every function here takes what a
//! child reported and returns what to do next.
//!
//! The modules [`navigation`], [`top`] and [`users`] hold the state of a
//! small application with two tabs, in the same manner: messages in, state
//! and the next thing to do out.

pub mod dispatch;
pub mod draw;
pub mod geometry;
pub mod layout;
pub mod navigation;
pub mod pointer;
pub mod split;
pub mod state;
pub mod style;
pub mod top;
pub mod users;
