//! Verified core of an off-screen browser that a game engine drives from another process.
//!
//! The engine side (client) and the browser side (server) exchange commands over a channel and
//! pixels and audio samples over shared memory. Everything that decides, encodes, or lays out
//! data stands here with a proved contract; talking to the operating system and to the browser
//! engine is left to the program around this library.
pub mod accelerated_paint;
pub mod arguments;
pub mod audio_pull;
pub mod audio_ring;
pub mod audio_shared_memory;
pub mod begin_frame;
pub mod bytes;
pub mod caret;
pub mod client;
pub mod command_line;
pub mod copy_mode;
pub mod d3d11;
pub mod d3d11_pool;
pub mod d3d12;
pub mod dmabuf;
pub mod event_loop;
pub mod file_descriptor_channel;
pub mod frames;
pub mod ipc;
pub mod log_buffer;
pub mod logging;
pub mod pixels;
pub mod protocol;
pub mod scroll_monitor;
pub mod server;
pub mod shared_memory;
pub mod shared_texture;
pub mod socket_client;
pub mod socket_server;
pub mod statistics;
pub mod text;
pub mod wasapi_output;
