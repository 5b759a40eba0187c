//! Ingestion core of a streaming pixel visualizer.
//!
//! Clients write fixed-size binary frames (consecutive R,G,B byte triplets)
//! over a local TCP socket. Each connection's bytes are decoded into a frame
//! of colors and handed to a single consumer through a latest-wins,
//! single-slot channel: a new frame overwrites any unread prior one, so the
//! consumer always sees the most recently delivered frame and no backlog
//! builds up.
//!
//! This crate holds the verified logic of that pipeline: the frame decoder,
//! the latest-wins channel state with its transition contracts, and the
//! per-connection and accept-loop decision steps. The TCP socket work, the
//! threads, and the rendering around it are ordinary unverified code that
//! drives these functions.

mod channel;
mod color;
mod decoder;
mod handler;
mod server;

pub use channel::ChannelClosedError;
pub use channel::ChannelView;
pub use channel::LatestFrameChannel;
pub use channel::PollOutcome;
pub use channel::lemma_latest_wins;
pub use channel::send_all;
pub use channel::send_result;
pub use color::Color;
pub use decoder::FRAME_BYTES;
pub use decoder::FRAME_COLORS;
pub use decoder::color_at;
pub use decoder::decode_frame;
pub use decoder::decoded;
pub use decoder::lemma_decode_deterministic;
pub use decoder::lemma_full_frame_length;
pub use decoder::lemma_trailing_bytes_ignored;
pub use handler::ReadEvent;
pub use handler::handler_step;
pub use server::AcceptAction;
pub use server::AcceptEvent;
pub use server::accept_step;
