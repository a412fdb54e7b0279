//! Compositor core for a tiling window manager's status bar.
//!
//! The library lays an ordered list of rendered components out into three
//! aligned sections (left, center, right), computes the minimal set of
//! drawing and clearing commands needed to repaint a bar against the previous
//! frame, maps pointer coordinates back to items and fragments, and keeps the
//! registry of per-display bars consistent. Everything that touches the
//! window system (window creation, the drawing device, the event queue, the
//! refresh timer thread) lives outside the library and exchanges plain values
//! with it.

pub mod bar;
pub mod component;
pub mod display;
pub mod draw;
pub mod geometry;
pub mod hittest;
pub mod item;
pub mod layout;
pub mod registry;
pub mod repaint;
pub mod scheduler;
