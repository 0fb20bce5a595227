//! An audio-driven render pipeline for a small fixed-resolution display.
//!
//! A stream of raw stereo microphone samples is turned into drawing
//! commands against a framebuffer. Several visualization strategies plug
//! into the same sampling/drawing loop; a dispatcher owns exactly one
//! active strategy and invokes it once per tick. Everything that touches
//! the board itself (register bring-up, the busy-poll on the audio FIFO,
//! the physical blit) lives outside this crate; here the sample stream and
//! the framebuffer are modelled as plain values, so every transformation
//! from samples to pixels is specified and proved.

pub mod constants;

pub mod params;
pub mod pipeline;
pub mod source;
pub mod surface;
pub mod visuals;
