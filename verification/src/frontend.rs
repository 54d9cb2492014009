//! The simulation side: hands out texture identifiers and fills the scene
//! buffer whenever the render side has given it back.
//!
//! The frontend never touches a channel.  Its caller receives from the return
//! channel without blocking and passes on what came; where no buffer came the
//! frame is skipped, so a slow render side lowers the frame rate and never
//! stalls the simulation.

use std::marker::PhantomData;
use vstd::prelude::*;
use crate::scene::{CameraView, FrameRenderInfo};
use crate::texture::TextureId;

verus! {

/// The window was asked to close.
pub struct CloseRequestEvent;

/// What the simulation side asks of the render side.  Commands are carried
/// out in the order in which they are sent.
pub enum FrontendCommand<S> {
    /// Draw this frame and send the buffer back.
    Frame(FrameRenderInfo<S>),
    /// Load the image at the path; it is known under the identifier from then on.
    LoadTexture(TextureId, String),
}

/// Fills a frame with what is to be seen of a model.
pub trait View2D<M, S> {
    /// Describes `model` in `info`, which is handed over empty.
    fn render(&mut self, model: &M, info: &mut FrameRenderInfo<S>)
        requires
            old(info)@ == Seq::<CameraView<S>>::empty(),
    ;
}

/// The simulation side's state: the identifier that the next texture gets.
/// `S` is the scalar in which the scene's coordinates are written.
pub struct Frontend2D<S> {
    texture_id_counter: u32,
    scalar: PhantomData<S>,
}

impl<S: Copy> Frontend2D<S> {
    /// The identifier that the next call of `load_texture` hands out.
    pub closed spec fn next_texture(&self) -> nat {
        self.texture_id_counter as nat
    }

    /// A frontend that has announced no texture yet, and the one scene buffer
    /// of the exchange, empty.  The buffer starts out on the return channel.
    pub fn new() -> (result: (Self, FrameRenderInfo<S>))
        ensures
            result.0.next_texture() == 0,
            result.1@ == Seq::<CameraView<S>>::empty(),
    {
        (Frontend2D { texture_id_counter: 0, scalar: PhantomData }, FrameRenderInfo::new())
    }

    /// How many textures were announced so far: the identifier that the next
    /// one gets.
    pub fn texture_count(&self) -> (count: u32)
        ensures
            count == self.next_texture(),
    {
        self.texture_id_counter
    }

    /// Announces the texture at `path`: hands out the next identifier, and
    /// the command that has the render side load the image under it.  The
    /// command has to be sent before any frame that shows the texture.
    pub fn load_texture(&mut self, path: &str) -> (result: (TextureId, FrontendCommand<S>))
        requires
            old(self).next_texture() < u32::MAX,
        ensures
            result.0@ == old(self).next_texture(),
            final(self).next_texture() == old(self).next_texture() + 1,
            result.1 matches FrontendCommand::LoadTexture(id, sent_path) && id@ == result.0@
                && sent_path@ == path@,
    {
        let id = TextureId::from_raw(self.texture_id_counter);
        self.texture_id_counter += 1;
        (id, FrontendCommand::LoadTexture(id, path.to_owned()))
    }

    /// Takes up what a receive on the return channel gave: the scene buffer,
    /// emptied to be filled again, or nothing while the buffer is away.
    pub fn begin_frame(returned: Option<FrameRenderInfo<S>>) -> (frame: Option<
        FrameRenderInfo<S>,
    >)
        ensures
            frame is Some <==> returned is Some,
            frame matches Some(buffer) ==> buffer@ == Seq::<CameraView<S>>::empty(),
    {
        match returned {
            Some(mut buffer) => {
                buffer.clear();
                Some(buffer)
            },
            None => None,
        }
    }

    /// The command that has the render side draw `frame`.
    pub fn frame_command(frame: FrameRenderInfo<S>) -> (command: FrontendCommand<S>)
        ensures
            command == FrontendCommand::Frame(frame),
    {
        FrontendCommand::Frame(frame)
    }

    /// Builds the next frame if the scene buffer is back.  `returned` is what
    /// a receive on the return channel gave.  With a buffer, it is emptied,
    /// filled by one call of the view and handed out, as the view left it, in
    /// a frame command to send; without one the frame is skipped: nothing is
    /// to be sent and the view is left alone.
    pub fn render<M, V: View2D<M, S>>(
        &self,
        view: &mut V,
        model: &M,
        returned: Option<FrameRenderInfo<S>>,
    ) -> (command: Option<FrontendCommand<S>>)
        ensures
            command is Some <==> returned is Some,
            returned is None ==> *final(view) == *old(view),
            returned is Some ==> {
                &&& command matches Some(FrontendCommand::Frame(filled))
                &&& exists|before: &mut V, info: &mut FrameRenderInfo<S>|
                    {
                        &&& *before == *old(view)
                        &&& *final(before) == *final(view)
                        &&& (*info)@ == Seq::<CameraView<S>>::empty()
                        &&& #[trigger] call_ensures(V::render, (before, model, info), ())
                        &&& *final(info) == filled
                    }
            },
    {
        match Self::begin_frame(returned) {
            Some(mut frame) => {
                view.render(model, &mut frame);
                Some(Self::frame_command(frame))
            },
            None => None,
        }
    }
}

} // verus!
