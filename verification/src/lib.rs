//! Engine for a rotating text progress indicator.
//!
//! The engine decides, turn by turn, which bytes a render loop must put on its
//! output sink: a cycling glyph followed by a cursor retreat for every frame,
//! and one closing retreat once a stop has been observed. Running the loop
//! concurrently (thread, one-shot signal, sink, sleep) is the embedding
//! program's part; everything the loop writes is decided and proved here.

pub mod engine;
pub mod frames;
