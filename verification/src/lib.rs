//! Integer and state logic of a small optimisation-methods workbench:
//! Fibonacci numbers for the Fibonacci search, tab management, playback of
//! iteration histories, selection of the iterations a report draws, and the
//! choices that depend on the selected objective, method, lab or colour theme.
pub mod export;
pub mod fibonacci;
pub mod lab1;
pub mod lab2;
pub mod navigation;
pub mod playback;
pub mod png;
pub mod settings;
pub mod tabs;
