//! Hardware abstraction layer for real-time camera frame acquisition.
//!
//! The crate has two tightly coupled parts: the camera lifecycle engine,
//! a state machine that owns a backend handler and moves between the
//! `Waiting` and `Connected` phases, and the serial frame protocol
//! parser, a resynchronizing decoder that extracts length-prefixed JPEG
//! payloads from an unreliable byte stream.

pub mod backends;
pub mod camera;
pub mod channel;
pub mod handler;
pub mod protocol;

pub use backends::CameraHandlers;
pub use backends::NoOpCamera;
pub use camera::Atomics;
pub use camera::Camera;
pub use camera::achieved_fps;
pub use camera::facade_read_result;
pub use camera::frame_disposition;
pub use camera::pacing_interval_ms;
pub use camera::sleep_gap_ms;
pub use channel::BUFFERED_FRAMES;
pub use channel::FrameChannel;
pub use channel::SendOutcome;
pub use handler::CameraHandler;
pub use handler::CameraState;
pub use protocol::DecodeStep;
pub use protocol::FrameParse;
pub use protocol::HeaderScan;
pub use protocol::LEFTOVER_THRESHOLD;
pub use protocol::PEEK_BUF_SIZE;
pub use protocol::complete_frame;
pub use protocol::extract_frame;
pub use protocol::missing_bytes;
pub use protocol::ParserState;
pub use protocol::decode_step;
pub use protocol::parse_jpeg_data;
pub use protocol::parse_next_header;
pub use protocol::should_drop_backlog;
