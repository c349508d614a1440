//! Coordination core for a multi-window desktop companion overlay.
//!
//! The crate models the state machines that make several native windows act
//! as one floating entity: per-window presentation state (opacity, focus,
//! pixel-accurate click-through), frame-sequence animation, timed callout
//! bubbles with progressive text reveal, and the snap/follow protocol that
//! keeps satellite windows glued to a primary window.  Everything here is
//! pure state-transition logic over plain values; the operating-system and
//! GPU edges live outside the crate and feed events in as integers.

pub mod animation;
pub mod callout;
pub mod commands;
pub mod config;
pub mod coord;
pub mod elements;
pub mod geom;
pub mod layer;
pub mod mask;
pub mod presentation;
pub mod skin;
pub mod strutil;
pub mod text;
