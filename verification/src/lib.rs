//! The arithmetic of a tiling Wayland compositor: window layouts and
//! placement, the shortcut vocabulary and its binding table, the titlebar's
//! application menus, and the geometry its glass is drawn with.
//!
//! Nothing here sees a surface, an output or a renderer. Every function takes
//! plain values and hands plain values back, so what it promises is stated
//! and proved rather than tested into shape.

pub mod geometry;
pub mod text;
pub mod numbers;
pub mod layout;
pub mod input;
pub mod menu;
pub mod rendering;
pub mod protocols;
