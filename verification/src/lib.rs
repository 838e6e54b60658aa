//! Frame logic of an egui renderer for Vulkano.
//!
//! The crate turns the meshes that egui's tessellator produces into what a
//! Vulkan command recorder needs for one frame: two contiguous buffers, one
//! range and clip rectangle per mesh, and one scissored indexed draw per
//! range. It also decides when the font atlas has to be uploaded again and
//! prepares the bytes of that upload. Everything that talks to a graphics
//! device is left to the caller, who performs what these functions return.

pub mod draw;
pub mod error;
pub mod frame;
pub mod mesh;
pub mod painter;
pub mod texture;
pub mod vertex;

pub use draw::{draw_call, emit, DrawCall, DrawList};
pub use error::{CreateTextureError, DrawError, PainterCreationError, UpdateSetError};
pub use frame::{pack, Frame, MeshRange};
pub use mesh::Scissor;
pub use painter::{FrameState, Painter};
pub use texture::{expand_pixels, upload_for, TextureUpload};
pub use vertex::Vertex;
