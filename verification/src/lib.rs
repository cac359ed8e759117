//! A keyboard-driven task list: the task store, the key-binding table and
//! the state machine that turns key presses into changes of the list.

pub mod app;
pub mod domain;
pub mod input;
pub mod storage;
