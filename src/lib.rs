//! Platform-independent core of a small real-time game loop: the audio
//! ring-buffer scheduler, the waveform generator, the input reducer, the
//! window-event reducer and the pixel renderer.

pub mod game;
pub mod gfx;
pub mod sound;
pub mod wave;
pub mod window;
