//! The engine of a desktop player that compares videos side by side.
//!
//! Several videos are open at once, each in a tab; all play on one clock, and
//! switching tabs shows the same moment of another video at once. The library
//! decides; a shell around it owns the media pipeline, the GL context and the
//! window. It reports what it reads, and carries out what it is told:
//!
//! * [`player`] holds the open tabs and the state of playback; [`opening`]
//!   takes the opening of a video step by step; [`action`] lists what the shell
//!   is told, and [`seek`] settles the requests that wait for the seek thread;
//! * [`media`] distils the facts of the info bar from a prober's report;
//! * [`video_texture`] and [`present`] drive the two textures on screen;
//! * [`ui`], [`numbers`] and [`text`] write what the window shows; [`double`]
//!   is the binary64 rounding that the numbers go through.
//!
//! Contracts speak of the state of the engine as a [`model::Model`]; [`laws`]
//! states what holds of it as a whole, and [`conduct`] what each operation does
//! to it; [`calls`] states how the results of calls hang together. [`display`]
//! states what the texts in the window say, and [`accuracy`]
//! how near the numbers in them are.

pub mod accuracy;
pub mod action;
pub mod calls;
pub mod conduct;
pub mod display;
pub mod double;
pub mod laws;
pub mod media;
pub mod model;
pub mod numbers;
pub mod opening;
pub mod player;
pub mod present;
pub mod seek;
pub mod text;
pub mod ui;
pub mod video_texture;
