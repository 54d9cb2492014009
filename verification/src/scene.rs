//! The description of one frame: camera layers that hold batches of textured
//! rectangles.
//!
//! A frame is built once by the simulation side and read once by the render
//! side.  Nesting is one level deep by construction: a frame holds cameras, a
//! camera holds batches, a batch holds rectangles, and nothing else can be
//! put together.  The scene only carries coordinates, it never computes with
//! them, so it is generic over the scalar `S` that they are written in.

use vstd::prelude::*;
use crate::texture::TextureId;

verus! {

/// A textured rectangle: where its centre is, how large it is, what it shows.
pub struct Rectangle<S> {
    pub position: [S; 2],
    pub size: [S; 2],
    pub texture: TextureId,
}

/// A batch of rectangles that are drawn with one draw call, in order.
pub struct RenderBatchInfo<S> {
    rectangles: Vec<Rectangle<S>>,
}

impl<S> View for RenderBatchInfo<S> {
    type V = Seq<Rectangle<S>>;

    closed spec fn view(&self) -> Seq<Rectangle<S>> {
        self.rectangles@
    }
}

impl<S> RenderBatchInfo<S> {
    /// Adds a rectangle behind those that are there.
    pub fn rectangle(&mut self, rect: Rectangle<S>)
        ensures
            final(self)@ == old(self)@.push(rect),
    {
        self.rectangles.push(rect);
    }

    /// The rectangles of the batch, in the order in which they were added.
    pub fn rectangles(&self) -> (rectangles: &Vec<Rectangle<S>>)
        ensures
            rectangles@ == self@,
    {
        &self.rectangles
    }
}

/// What a camera layer holds, as mathematics.
pub struct CameraView<S> {
    pub position: [S; 2],
    pub batches: Seq<Seq<Rectangle<S>>>,
}

/// A camera layer: a position in the render plane and the batches seen from it.
pub struct GameCameraInfo<S> {
    position: [S; 2],
    layers: Vec<RenderBatchInfo<S>>,
}

impl<S> View for GameCameraInfo<S> {
    type V = CameraView<S>;

    closed spec fn view(&self) -> CameraView<S> {
        CameraView {
            position: self.position,
            batches: Seq::new(self.layers@.len(), |b: int| self.layers@[b]@),
        }
    }
}

impl<S: Copy> GameCameraInfo<S> {
    /// Where the camera stands.
    pub fn position(&self) -> (position: [S; 2])
        ensures
            position == self@.position,
    {
        self.position
    }

    /// Opens a new, empty batch behind those that are there and hands it out
    /// to be filled.
    pub fn batch(&mut self) -> (batch: &mut RenderBatchInfo<S>)
        ensures
            batch@ == Seq::<Rectangle<S>>::empty(),
            final(self)@.position == old(self)@.position,
            final(self)@.batches =~= old(self)@.batches.push(final(batch)@),
    {
        let batch = RenderBatchInfo { rectangles: Vec::new() };
        self.layers.push(batch);
        let last = self.layers.len() - 1;
        &mut self.layers[last]
    }

    /// The batches of the camera, in the order in which they were opened.
    pub fn layers(&self) -> (layers: &Vec<RenderBatchInfo<S>>)
        ensures
            layers@.len() == self@.batches.len(),
            forall|b: int| 0 <= b < layers@.len() ==> (#[trigger] layers@[b])@ == self@.batches[b],
    {
        &self.layers
    }
}

/// The scene of one frame: camera layers, drawn in order.
///
/// One such buffer goes round between the simulation side, which fills it,
/// and the render side, which draws it; it cannot be copied.
pub struct FrameRenderInfo<S> {
    layers: Vec<GameCameraInfo<S>>,
}

impl<S> View for FrameRenderInfo<S> {
    type V = Seq<CameraView<S>>;

    closed spec fn view(&self) -> Seq<CameraView<S>> {
        Seq::new(self.layers@.len(), |c: int| self.layers@[c]@)
    }
}

impl<S: Copy> FrameRenderInfo<S> {
    /// A frame with no camera in it.
    pub(crate) fn new() -> (frame: Self)
        ensures
            frame@ == Seq::<CameraView<S>>::empty(),
    {
        let frame = FrameRenderInfo { layers: Vec::new() };
        assert(frame@ =~= Seq::<CameraView<S>>::empty());
        frame
    }

    /// Empties the frame so that it can be filled again.
    pub(crate) fn clear(&mut self)
        ensures
            final(self)@ == Seq::<CameraView<S>>::empty(),
    {
        self.layers.clear();
        assert(self@ =~= Seq::<CameraView<S>>::empty());
    }

    /// Opens a new camera layer at `position`, behind those that are there,
    /// and hands it out to be filled with batches.
    pub fn game_camera(&mut self, position: [S; 2]) -> (camera: &mut GameCameraInfo<S>)
        ensures
            camera@ == (CameraView { position, batches: Seq::<Seq<Rectangle<S>>>::empty() }),
            final(self)@ =~= old(self)@.push(final(camera)@),
    {
        let camera = GameCameraInfo { position, layers: Vec::new() };
        assert(camera@.batches =~= Seq::<Seq<Rectangle<S>>>::empty());
        self.layers.push(camera);
        let last = self.layers.len() - 1;
        &mut self.layers[last]
    }

    /// The camera layers of the frame, in the order in which they were opened.
    pub fn layers(&self) -> (layers: &Vec<GameCameraInfo<S>>)
        ensures
            layers@.len() == self@.len(),
            forall|c: int| 0 <= c < layers@.len() ==> (#[trigger] layers@[c])@ == self@[c],
    {
        &self.layers
    }
}

} // verus!
