//! The painter: what is kept from frame to frame, and the steps of a frame.
//!
//! A frame has two steps. `update_set` and, where an upload is due,
//! `install_set` bring the binding of the font atlas up to date; `draw` then
//! turns the frame's meshes into a draw list. The caller does the device's
//! part in between: it creates the image and the descriptor set that
//! `update_set` asks for, and records what `draw` returns.

use vstd::prelude::*;
use epaint::{ClippedMesh, Texture};
use crate::draw::{draw_list_of, emit, DrawList};
use crate::error::UpdateSetError;
use crate::frame::{pack, packed};
use crate::mesh::mesh_views;
use crate::texture::{atlas_view, upload_for, upload_of, version_of, TextureUpload};

verus! {

/// Where the painter stands within a frame.
#[derive(Clone, Copy, Debug, PartialEq, Eq, Structural)]
pub enum FrameState {
    /// Between frames, or after an upload that failed.
    Idle,
    /// The binding shows the atlas of this frame; the frame can be drawn.
    TextureSynced,
}

/// Everything that is kept between frames.
///
/// `B` is the binding of the font atlas, the descriptor set that the draws
/// use. The painter holds at most one, and a new one replaces the old one as
/// a whole.
pub struct Painter<B> {
    /// The atlas version that `set` was built from; 0 before the first
    /// upload.
    pub texture_version: u64,
    /// The current binding, if one was ever built.
    pub set: Option<B>,
    /// Where the painter stands within the frame.
    pub state: FrameState,
}

impl<B> Painter<B> {
    /// A frame is drawn only with a binding in place.
    pub open spec fn wf(self) -> bool {
        self.state == FrameState::TextureSynced ==> self.set is Some
    }

    /// The binding has to be built: none exists yet, or the one that exists
    /// shows another version of the atlas.
    pub open spec fn upload_needed(self, version: u64) -> bool {
        self.set is None || self.texture_version != version
    }

    /// The painter after a binding for `version` was installed.
    pub open spec fn installed(self, version: u64, set: B) -> Painter<B> {
        Painter { texture_version: version, set: Some(set), state: FrameState::TextureSynced }
    }

    /// The painter with another frame state and nothing else changed.
    pub open spec fn in_state(self, state: FrameState) -> Painter<B> {
        Painter { texture_version: self.texture_version, set: self.set, state }
    }

    /// A painter without a binding, at version 0.
    pub fn new() -> (painter: Painter<B>)
        ensures
            painter.texture_version == 0,
            painter.set is None,
            painter.state == FrameState::Idle,
            painter.wf(),
    {
        Painter { texture_version: 0, set: None, state: FrameState::Idle }
    }

    /// Decides whether the font atlas has to be uploaded.
    ///
    /// With a binding in place that shows the version of `texture`, nothing
    /// is due: the result is `None` and the frame can be drawn. Otherwise the
    /// result is the upload to perform, and the frame can be drawn only
    /// after `install_set` has taken the new binding. The binding and the
    /// version that the painter holds stay as they are either way. An upload
    /// also tells the caller to wait for the device before reusing the old
    /// image.
    pub fn update_set(&mut self, texture: &Texture) -> (upload: Option<TextureUpload>)
        ensures
            old(self).upload_needed(atlas_view(*texture).version) ==> {
                &&& upload matches Some(u)
                &&& u@ == upload_of(atlas_view(*texture))
                &&& *final(self) == old(self).in_state(FrameState::Idle)
            },
            !old(self).upload_needed(atlas_view(*texture).version) ==> {
                &&& upload is None
                &&& *final(self) == old(self).in_state(FrameState::TextureSynced)
            },
            final(self).wf(),
    {
        let version = version_of(texture);
        if self.set.is_some() && self.texture_version == version {
            self.state = FrameState::TextureSynced;
            None
        } else {
            self.state = FrameState::Idle;
            Some(upload_for(texture))
        }
    }

    /// Takes the outcome of building the binding for atlas version
    /// `version`.
    ///
    /// A binding that was built replaces the old one, together with the
    /// version, and the frame can be drawn. A failure is handed back as it
    /// came and leaves binding and version as they were; the frame cannot be
    /// drawn.
    pub fn install_set(&mut self, version: u64, built: Result<B, UpdateSetError>) -> (result: Result<
        (),
        UpdateSetError,
    >)
        ensures
            built matches Ok(set) ==> result is Ok && *final(self) == old(self).installed(
                version,
                set,
            ),
            built matches Err(e) ==> result == Err::<(), UpdateSetError>(e) && *final(self) == old(
                self,
            ).in_state(FrameState::Idle),
            final(self).wf(),
    {
        match built {
            Ok(set) => {
                self.texture_version = version;
                self.set = Some(set);
                self.state = FrameState::TextureSynced;
                Ok(())
            },
            Err(e) => {
                self.state = FrameState::Idle;
                Err(e)
            },
        }
    }

    /// Turns the tessellated meshes of the frame into its draw list and ends
    /// the frame.
    ///
    /// Meshes without vertices or without indices are left out. The others
    /// are packed in order, and each gets one draw, scissored to its clip
    /// rectangle. The result is `None` exactly when no mesh is left: then no
    /// buffer is to be created and nothing is to be drawn.
    pub fn draw(&mut self, clipped_meshes: &Vec<ClippedMesh>) -> (list: Option<DrawList>)
        requires
            old(self).wf(),
            old(self).state == FrameState::TextureSynced,
        ensures
            *final(self) == old(self).in_state(FrameState::Idle),
            final(self).set is Some,
            list is None <==> packed(mesh_views(clipped_meshes@)).ranges.len() == 0,
            list matches Some(l) ==> l@ == draw_list_of(packed(mesh_views(clipped_meshes@))),
    {
        self.state = FrameState::Idle;
        match pack(clipped_meshes) {
            Some(frame) => Some(emit(frame)),
            None => None,
        }
    }
}

/// Once a binding for a version of the atlas is installed, that version
/// asks for no further upload.
pub proof fn lemma_upload_once<B>(painter: Painter<B>, version: u64, set: B)
    ensures
        !painter.installed(version, set).upload_needed(version),
        painter.installed(version, set).wf(),
{
}

/// A failed upload changes neither the binding nor the version, so the
/// same atlas asks for the upload again.
pub proof fn lemma_failure_keeps_binding<B>(painter: Painter<B>, version: u64)
    ensures
        painter.in_state(FrameState::Idle).set == painter.set,
        painter.in_state(FrameState::Idle).texture_version == painter.texture_version,
        painter.in_state(FrameState::Idle).upload_needed(version) == painter.upload_needed(
            version,
        ),
{
}

} // verus!
