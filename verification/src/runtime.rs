//! The render side: turns a frame into draw calls and takes in textures.
//!
//! The runtime owns the texture atlas.  For a frame it brings the atlas up to
//! date and lays out, batch by batch, the vertices of two triangles for every
//! rectangle, each tagged with the array and layer of its texture.  Placing
//! the corners in the render plane and issuing the draw calls is left to the
//! caller, which owns the graphics device.

use vstd::prelude::*;
use crate::frontend::FrontendCommand;
use crate::scene::{CameraView, FrameRenderInfo, GameCameraInfo, Rectangle, RenderBatchInfo};
use crate::texture::{
    allowed_sizes, array_shape, loadable, AtlasView, TextureError, TextureId, TextureLocation,
    Textures,
};

verus! {

/// A corner of a rectangle, named by the end of each axis that it lies at.
#[derive(Copy, Clone, Debug, PartialEq, Eq, Structural)]
pub enum Corner {
    /// Low x, low y: texture coordinate (0, 0).
    MinMin,
    /// High x, low y: texture coordinate (1, 0).
    MaxMin,
    /// High x, high y: texture coordinate (1, 1).
    MaxMax,
    /// Low x, high y: texture coordinate (0, 1).
    MinMax,
}

impl Corner {
    /// The texture coordinate at this corner, each axis 0 or 1.
    pub open spec fn spec_texture_coord(self) -> (u8, u8) {
        match self {
            Corner::MinMin => (0, 0),
            Corner::MaxMin => (1, 0),
            Corner::MaxMax => (1, 1),
            Corner::MinMax => (0, 1),
        }
    }

    /// The texture coordinate at this corner, each axis 0 or 1.  Along an
    /// axis the corner lies half the rectangle's size below its centre where
    /// the coordinate is 0, and half the size above it where it is 1.
    pub fn texture_coord(self) -> (coord: (u8, u8))
        ensures
            coord == self.spec_texture_coord(),
    {
        match self {
            Corner::MinMin => (0, 0),
            Corner::MaxMin => (1, 0),
            Corner::MaxMax => (1, 1),
            Corner::MinMax => (0, 1),
        }
    }
}

/// One vertex of a batch: a corner of one of the batch's rectangles, tagged
/// with the array (`sampler_id`) and layer (`texture_id`) of its texture.
#[derive(Copy, Clone, Debug, PartialEq, Eq, Structural)]
pub struct Vertex2D {
    /// The position of the rectangle in its batch.
    pub rectangle: usize,
    pub corner: Corner,
    pub sampler_id: u32,
    pub texture_id: u32,
}

/// The corners of the two triangles that cover a rectangle, in drawing order.
pub open spec fn triangle_corners() -> Seq<Corner> {
    seq![
        Corner::MinMin,
        Corner::MaxMin,
        Corner::MaxMax,
        Corner::MinMin,
        Corner::MaxMax,
        Corner::MinMax,
    ]
}

/// The six vertices of the rectangle at position `rectangle` of a batch whose
/// texture lives at `location`.
pub open spec fn rectangle_vertices(rectangle: int, location: TextureLocation) -> Seq<Vertex2D> {
    Seq::new(
        6,
        |k: int|
            Vertex2D {
                rectangle: rectangle as usize,
                corner: triangle_corners()[k],
                sampler_id: location.array,
                texture_id: location.index,
            },
    )
}

/// The texture of the rectangle was loaded.
pub open spec fn known<S>(atlas: AtlasView, rect: Rectangle<S>) -> bool {
    atlas.resolve(rect.texture@) is Some
}

/// Every rectangle of the batch shows a texture that was loaded.
pub open spec fn batch_known<S>(atlas: AtlasView, rects: Seq<Rectangle<S>>) -> bool {
    forall|i: int| 0 <= i < rects.len() ==> known(atlas, #[trigger] rects[i])
}

/// The rectangle at `i` is the first of the batch whose texture is unknown.
pub open spec fn batch_stops_at<S>(atlas: AtlasView, rects: Seq<Rectangle<S>>, i: int) -> bool {
    &&& 0 <= i < rects.len()
    &&& !known(atlas, rects[i])
    &&& batch_known(atlas, rects.take(i))
}

/// The vertices of a batch: six for each rectangle, rectangle after rectangle.
pub open spec fn batch_vertices<S>(atlas: AtlasView, rects: Seq<Rectangle<S>>) -> Seq<Vertex2D> {
    Seq::new(
        6 * rects.len(),
        |v: int| rectangle_vertices(v / 6, atlas.resolve(rects[v / 6].texture@).unwrap())[v % 6],
    )
}

/// What a draw call holds, as mathematics.
pub struct DrawView {
    pub camera: usize,
    pub batch: usize,
    pub vertices: Seq<Vertex2D>,
}

/// One draw call: the vertices of one batch, and which batch of which camera
/// layer of the frame they belong to.
pub struct DrawCall {
    pub camera: usize,
    pub batch: usize,
    pub vertices: Vec<Vertex2D>,
}

impl View for DrawCall {
    type V = DrawView;

    open spec fn view(&self) -> DrawView {
        DrawView { camera: self.camera, batch: self.batch, vertices: self.vertices@ }
    }
}

/// The draw calls of a list, each as mathematics.
pub open spec fn draw_views(draws: Seq<DrawCall>) -> Seq<DrawView> {
    Seq::new(draws.len(), |k: int| draws[k]@)
}

/// Every batch of the camera layer shows only textures that were loaded.
pub open spec fn camera_known<S>(atlas: AtlasView, camera: CameraView<S>) -> bool {
    forall|b: int| 0 <= b < camera.batches.len() ==> batch_known(atlas, #[trigger] camera.batches[b])
}

/// Drawing the camera layer stops in batch `b` at rectangle `i`: the first
/// rectangle, in drawing order, whose texture is unknown.
pub open spec fn camera_stops_at<S>(atlas: AtlasView, camera: CameraView<S>, b: int, i: int) -> bool {
    &&& 0 <= b < camera.batches.len()
    &&& forall|a: int| 0 <= a < b ==> batch_known(atlas, #[trigger] camera.batches[a])
    &&& batch_stops_at(atlas, camera.batches[b], i)
}

/// The draw calls of the camera layer at position `c` of a frame: one for
/// each batch, in order.
pub open spec fn camera_draws<S>(atlas: AtlasView, c: int, camera: CameraView<S>) -> Seq<DrawView> {
    Seq::new(
        camera.batches.len(),
        |b: int|
            DrawView {
                camera: c as usize,
                batch: b as usize,
                vertices: batch_vertices(atlas, camera.batches[b]),
            },
    )
}

/// Every camera layer of the frame shows only textures that were loaded.
pub open spec fn frame_known<S>(atlas: AtlasView, frame: Seq<CameraView<S>>) -> bool {
    forall|c: int| 0 <= c < frame.len() ==> camera_known(atlas, #[trigger] frame[c])
}

/// Drawing the frame stops in camera layer `c`, batch `b`, at rectangle `i`:
/// the first rectangle, in drawing order, whose texture is unknown.
pub open spec fn frame_stops_at<S>(
    atlas: AtlasView,
    frame: Seq<CameraView<S>>,
    c: int,
    b: int,
    i: int,
) -> bool {
    &&& 0 <= c < frame.len()
    &&& forall|a: int| 0 <= a < c ==> camera_known(atlas, #[trigger] frame[a])
    &&& camera_stops_at(atlas, frame[c], b, i)
}

/// The draw calls of a frame: those of its camera layers, layer after layer.
pub open spec fn frame_draws<S>(atlas: AtlasView, frame: Seq<CameraView<S>>) -> Seq<DrawView>
    decreases frame.len(),
{
    if frame.len() == 0 {
        Seq::empty()
    } else {
        frame_draws(atlas, frame.drop_last()) + camera_draws(
            atlas,
            frame.len() - 1,
            frame.last(),
        )
    }
}

/// What drawing a frame takes: whether the device arrays have to be built
/// again first, and the draw calls in order.
pub struct FrameDraw {
    pub rebuilt: bool,
    pub draws: Vec<DrawCall>,
}

/// What the render loop is woken by.
pub enum RuntimeEvent<S> {
    /// The next command came off the command channel.
    Command(FrontendCommand<S>),
    /// The image that a load command named was read and decoded.
    Decoded { id: TextureId, pixels: Vec<u8>, width: u32, height: u32 },
    /// The command channel is closed: the simulation side is gone.
    Closed,
}

/// What the render loop has to do next.
pub enum RuntimeAction<S> {
    /// Forward the window's pending input events, build the device arrays
    /// again if `draw.rebuilt`, issue the draw calls, and send `frame` back
    /// on the return channel.
    Draw { draw: FrameDraw, frame: FrameRenderInfo<S> },
    /// Read and decode the image at `path`, and come back with
    /// `RuntimeEvent::Decoded` under the same identifier.
    Decode { id: TextureId, path: String },
    /// Wait for the next command.
    Wait,
    /// Leave the loop.
    Stop,
    /// The two sides are out of step, or an image is unusable: give up.
    Fail { error: TextureError },
}

/// The render side's state: the texture atlas.
pub struct FrontendRuntime {
    textures: Textures,
}

impl View for FrontendRuntime {
    type V = AtlasView;

    closed spec fn view(&self) -> AtlasView {
        self.textures@
    }
}

impl FrontendRuntime {
    /// The runtime's atlas is consistent.
    pub open spec fn wf(&self) -> bool {
        &&& self@.wf()
        &&& self.images_fit()
    }

    /// Every image of the atlas has the dimensions of its bucket.
    pub closed spec fn images_fit(&self) -> bool {
        self.textures.images_fit()
    }

    /// A runtime with an empty atlas.
    pub fn new() -> (runtime: Self)
        ensures
            runtime.wf(),
            runtime@ == AtlasView::empty(),
    {
        FrontendRuntime { textures: Textures::new() }
    }

    /// The atlas, to read the images that the device arrays are built from.
    pub fn textures(&self) -> (textures: &Textures)
        ensures
            textures@ == self@,
            textures.wf() == self.wf(),
    {
        &self.textures
    }

    /// Lays out the vertices of one batch: for each rectangle in order, the
    /// six corners of its two triangles, tagged with where its texture lives.
    /// A rectangle whose texture was never loaded stops the batch.
    pub fn render_batch<S>(&self, batch: &RenderBatchInfo<S>) -> (result: Result<
        Vec<Vertex2D>,
        TextureError,
    >)
        requires
            self.wf(),
        ensures
            result is Ok <==> batch_known(self@, batch@),
            match result {
                Ok(vertices) => {
                    &&& batch_known(self@, batch@)
                    &&& vertices@ == batch_vertices(self@, batch@)
                },
                Err(TextureError::UnknownTextureId { id }) => exists|i: int|
                    batch_stops_at(self@, batch@, i) && id == (#[trigger] batch@[i]).texture@,
                Err(_) => false,
            },
    {
        let rectangles = batch.rectangles();
        let mut vertices: Vec<Vertex2D> = Vec::new();
        let mut i: usize = 0;
        while i < rectangles.len()
            invariant
                self.wf(),
                rectangles@ == batch@,
                i <= rectangles@.len(),
                batch_known(self@, batch@.take(i as int)),
                vertices@ == batch_vertices(self@, batch@.take(i as int)),
            decreases rectangles@.len() - i,
        {
            let location = match self.textures.resolve(rectangles[i].texture) {
                Ok(location) => location,
                Err(error) => {
                    assert(batch_stops_at(self@, batch@, i as int));
                    return Err(error);
                },
            };
            let ghost before = vertices@;
            let sampler_id = location.array;
            let texture_id = location.index;
            vertices.push(Vertex2D { rectangle: i, corner: Corner::MinMin, sampler_id, texture_id });
            vertices.push(Vertex2D { rectangle: i, corner: Corner::MaxMin, sampler_id, texture_id });
            vertices.push(Vertex2D { rectangle: i, corner: Corner::MaxMax, sampler_id, texture_id });
            vertices.push(Vertex2D { rectangle: i, corner: Corner::MinMin, sampler_id, texture_id });
            vertices.push(Vertex2D { rectangle: i, corner: Corner::MaxMax, sampler_id, texture_id });
            vertices.push(Vertex2D { rectangle: i, corner: Corner::MinMax, sampler_id, texture_id });
            proof {
                let shorter = batch@.take(i as int);
                let longer = batch@.take(i + 1);
                assert forall|j: int| 0 <= j < longer.len() implies known(
                    self@,
                    #[trigger] longer[j],
                ) by {
                    if j < i {
                        assert(longer[j] == shorter[j]);
                    }
                }
                let expected = batch_vertices(self@, longer);
                assert(vertices@.len() == expected.len());
                assert forall|v: int| 0 <= v < expected.len() implies vertices@[v] == expected[v] by {
                    if v < 6 * i {
                        assert(vertices@[v] == before[v]);
                        assert(longer[v / 6] == shorter[v / 6]);
                    } else {
                        assert(v / 6 == i);
                        assert(longer[i as int] == batch@[i as int]);
                    }
                }
                assert(vertices@ =~= expected);
            }
            i += 1;
        }
        assert(batch@.take(i as int) =~= batch@);
        Ok(vertices)
    }

    /// Lays out one draw call for each batch of the camera layer at position
    /// `index` of a frame, in order, behind the draw calls in `draws`.  A
    /// rectangle whose texture was never loaded stops the layer.
    pub fn render_camera<S: Copy>(
        &self,
        draws: &mut Vec<DrawCall>,
        index: usize,
        camera: &GameCameraInfo<S>,
    ) -> (result: Result<(), TextureError>)
        requires
            self.wf(),
        ensures
            result is Ok <==> camera_known(self@, camera@),
            match result {
                Ok(()) => {
                    &&& camera_known(self@, camera@)
                    &&& draw_views(final(draws)@) == draw_views(old(draws)@) + camera_draws(
                        self@,
                        index as int,
                        camera@,
                    )
                },
                Err(TextureError::UnknownTextureId { id }) => exists|b: int, i: int|
                    camera_stops_at(self@, camera@, b, i) && id == (
                    #[trigger] camera@.batches[b][i]).texture@,
                Err(_) => false,
            },
    {
        let batches = camera.layers();
        let mut b: usize = 0;
        while b < batches.len()
            invariant
                self.wf(),
                batches@.len() == camera@.batches.len(),
                forall|a: int| 0 <= a < batches@.len() ==> (#[trigger] batches@[a])@ == camera@.batches[a],
                b <= batches@.len(),
                forall|a: int| 0 <= a < b ==> batch_known(self@, #[trigger] camera@.batches[a]),
                draw_views(draws@) == draw_views(old(draws)@) + camera_draws(
                    self@,
                    index as int,
                    camera@,
                ).take(b as int),
            decreases batches@.len() - b,
        {
            let vertices = match self.render_batch(&batches[b]) {
                Ok(vertices) => vertices,
                Err(error) => {
                    return Err(error);
                },
            };
            let ghost before = draw_views(draws@);
            draws.push(DrawCall { camera: index, batch: b, vertices });
            proof {
                let all = camera_draws(self@, index as int, camera@);
                assert(draw_views(draws@) =~= before.push(all[b as int]));
                assert(all.take(b + 1) =~= all.take(b as int).push(all[b as int]));
                assert(draw_views(draws@) =~= draw_views(old(draws)@) + all.take(b + 1));
            }
            b += 1;
        }
        proof {
            let all = camera_draws(self@, index as int, camera@);
            assert(all.take(b as int) =~= all);
        }
        Ok(())
    }

    /// Works out what drawing the frame takes.  The atlas is brought up to
    /// date first; then every camera layer in order gives one draw call for
    /// each of its batches.  A rectangle whose texture was never loaded stops
    /// the frame: the scene was built on a texture that is not there.
    pub fn render_frame<S: Copy>(&mut self, info: &FrameRenderInfo<S>) -> (result: Result<
        FrameDraw,
        TextureError,
    >)
        requires
            old(self).wf(),
        ensures
            final(self).wf(),
            final(self)@ == old(self)@.prepare(),
            result is Ok <==> frame_known(final(self)@, info@),
            match result {
                Ok(frame) => {
                    &&& frame_known(final(self)@, info@)
                    &&& frame.rebuilt == (old(self)@.arrays is None)
                    &&& draw_views(frame.draws@) == frame_draws(final(self)@, info@)
                },
                Err(TextureError::UnknownTextureId { id }) => exists|c: int, b: int, i: int|
                    frame_stops_at(final(self)@, info@, c, b, i) && id == (
                    #[trigger] info@[c].batches[b][i]).texture@,
                Err(_) => false,
            },
    {
        let rebuilt = self.textures.prepare_for_frame();
        let cameras = info.layers();
        let mut draws: Vec<DrawCall> = Vec::new();
        let mut c: usize = 0;
        assert(draw_views(draws@) =~= frame_draws(self@, info@.take(0)));
        while c < cameras.len()
            invariant
                self.wf(),
                cameras@.len() == info@.len(),
                forall|a: int| 0 <= a < cameras@.len() ==> (#[trigger] cameras@[a])@ == info@[a],
                c <= cameras@.len(),
                forall|a: int| 0 <= a < c ==> camera_known(self@, #[trigger] info@[a]),
                draw_views(draws@) == frame_draws(self@, info@.take(c as int)),
                self@ == old(self)@.prepare(),
            decreases cameras@.len() - c,
        {
            match self.render_camera(&mut draws, c, &cameras[c]) {
                Ok(()) => {},
                Err(error) => {
                    return Err(error);
                },
            }
            proof {
                let longer = info@.take(c + 1);
                assert(longer.drop_last() =~= info@.take(c as int));
                assert(longer.last() == info@[c as int]);
            }
            c += 1;
        }
        assert(info@.take(c as int) =~= info@);
        Ok(FrameDraw { rebuilt, draws })
    }

    /// Takes in the decoded image of a texture that the simulation side
    /// announced under `id`.  The image must be loadable and `id` must be the
    /// identifier that the atlas hands out next; otherwise the atlas stays as
    /// it was and the error says which of the two failed, the size first.
    pub fn load_texture(&mut self, id: TextureId, pixels: Vec<u8>, width: u32, height: u32) -> (result:
        Result<(), TextureError>)
        requires
            old(self).wf(),
            loadable(width, height) ==> old(self)@.next_id() < u32::MAX,
        ensures
            final(self).wf(),
            match result {
                Ok(()) => {
                    &&& loadable(width, height)
                    &&& id@ == old(self)@.next_id()
                    &&& final(self)@ == old(self)@.load(pixels@, width)
                },
                Err(TextureError::InvalidTextureSize { width: w, height: h }) => {
                    &&& !loadable(width, height)
                    &&& w == width
                    &&& h == height
                    &&& *final(self) == *old(self)
                },
                Err(TextureError::OutOfOrderTextureId { requested, next }) => {
                    &&& loadable(width, height)
                    &&& id@ != old(self)@.next_id()
                    &&& requested == id@
                    &&& next == old(self)@.next_id()
                    &&& *final(self) == *old(self)
                },
                Err(_) => false,
            },
    {
        let next = self.textures.len();
        if width == height && self.textures.allows(width) && id.raw() as usize != next {
            return Err(TextureError::OutOfOrderTextureId { requested: id.raw(), next: next as u32 });
        }
        match self.textures.load(pixels, width, height) {
            Ok(_) => Ok(()),
            Err(error) => Err(error),
        }
    }

    /// One turn of the render loop: what follows from `event`.
    ///
    /// A frame command is answered by its draw calls and the buffer to send
    /// back, the same that came.  A load command is answered by the request
    /// to decode its image, and the decoded image is taken into the atlas
    /// under the announced identifier.  A closed command channel ends the
    /// loop.  An unknown texture in a frame, an unusable image or an
    /// identifier out of order is fatal.
    pub fn step<S: Copy>(&mut self, event: RuntimeEvent<S>) -> (action: RuntimeAction<S>)
        requires
            old(self).wf(),
            event matches RuntimeEvent::Decoded { width, height, .. } ==> (loadable(width, height)
                ==> old(self)@.next_id() < u32::MAX),
        ensures
            final(self).wf(),
            match event {
                RuntimeEvent::Command(FrontendCommand::Frame(sent)) => {
                    &&& final(self)@ == old(self)@.prepare()
                    &&& match action {
                        RuntimeAction::Draw { draw, frame } => {
                            &&& frame == sent
                            &&& frame_known(final(self)@, sent@)
                            &&& draw.rebuilt == (old(self)@.arrays is None)
                            &&& draw_views(draw.draws@) == frame_draws(final(self)@, sent@)
                        },
                        RuntimeAction::Fail { error: TextureError::UnknownTextureId { id } } => {
                            exists|c: int, b: int, i: int|
                                frame_stops_at(final(self)@, sent@, c, b, i) && id == (
                                #[trigger] sent@[c].batches[b][i]).texture@
                        },
                        _ => false,
                    }
                },
                RuntimeEvent::Command(FrontendCommand::LoadTexture(announced, sent_path)) => {
                    &&& *final(self) == *old(self)
                    &&& action matches RuntimeAction::Decode { id, path }
                    &&& id == announced
                    &&& path == sent_path
                },
                RuntimeEvent::Decoded { id, pixels, width, height } => {
                    if !loadable(width, height) {
                        &&& *final(self) == *old(self)
                        &&& action matches RuntimeAction::Fail {
                            error: TextureError::InvalidTextureSize { width: w, height: h },
                        }
                        &&& w == width
                        &&& h == height
                    } else if id@ != old(self)@.next_id() {
                        &&& *final(self) == *old(self)
                        &&& action matches RuntimeAction::Fail {
                            error: TextureError::OutOfOrderTextureId { requested, next },
                        }
                        &&& requested == id@
                        &&& next == old(self)@.next_id()
                    } else {
                        &&& final(self)@ == old(self)@.load(pixels@, width)
                        &&& action is Wait
                    }
                },
                RuntimeEvent::Closed => {
                    &&& *final(self) == *old(self)
                    &&& action is Stop
                },
            },
    {
        match event {
            RuntimeEvent::Command(FrontendCommand::Frame(frame)) => {
                match self.render_frame(&frame) {
                    Ok(draw) => RuntimeAction::Draw { draw, frame },
                    Err(error) => RuntimeAction::Fail { error },
                }
            },
            RuntimeEvent::Command(FrontendCommand::LoadTexture(id, path)) => {
                RuntimeAction::Decode { id, path }
            },
            RuntimeEvent::Decoded { id, pixels, width, height } => {
                match self.load_texture(id, pixels, width, height) {
                    Ok(()) => RuntimeAction::Wait,
                    Err(error) => RuntimeAction::Fail { error },
                }
            },
            RuntimeEvent::Closed => RuntimeAction::Stop,
        }
    }
}

/// The vertices of a batch whose textures are all known point into the
/// arrays of a prepared atlas: each names a bucket that has an array and a
/// layer that the array has, and a rectangle of the batch.
pub proof fn law_vertices_drawable<S>(atlas: AtlasView, rects: Seq<Rectangle<S>>)
    requires
        atlas.wf(),
        atlas.arrays is Some,
        batch_known(atlas, rects),
        rects.len() <= usize::MAX,
    ensures
        batch_vertices(atlas, rects).len() == 6 * rects.len(),
        forall|v: int|
            0 <= v < 6 * rects.len() ==> {
                let vertex = #[trigger] batch_vertices(atlas, rects)[v];
                &&& vertex.rectangle == v / 6
                &&& vertex.corner == triangle_corners()[v % 6]
                &&& atlas.drawable(
                    TextureLocation { array: vertex.sampler_id, index: vertex.texture_id },
                )
            },
{
    assert forall|v: int| 0 <= v < 6 * rects.len() implies {
        let vertex = #[trigger] batch_vertices(atlas, rects)[v];
        &&& vertex.rectangle == v / 6
        &&& vertex.corner == triangle_corners()[v % 6]
        &&& atlas.drawable(TextureLocation { array: vertex.sampler_id, index: vertex.texture_id })
    } by {
        let rect = rects[v / 6];
        assert(known(atlas, rect));
        let location = atlas.resolve(rect.texture@).unwrap();
        assert(location == atlas.registry[rect.texture@ as int]);
        assert(atlas.arrays.unwrap() == atlas.fresh_arrays());
        let shape = atlas.arrays.unwrap()[location.array as int];
        assert(shape == array_shape(
            allowed_sizes()[location.array as int],
            atlas.images[location.array as int].len(),
        ));
    }
}

} // verus!
