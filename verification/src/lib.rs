//! Runtime support for a CHIP-8 front end: the sixteen-key input state, the
//! pause-depth counter, the frame clock that paces the interpreter, the audio
//! control that follows the sound timer, and the projection of the 64x32
//! pixel grid onto a drawing surface.

pub mod audio;
pub mod clock;
pub mod display;
pub mod keys;
pub mod pause;
