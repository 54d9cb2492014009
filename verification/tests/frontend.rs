use std::sync::mpsc;
use warp_horizon::frontend::{Frontend2D, FrontendCommand, View2D};
use warp_horizon::runtime::{FrontendRuntime, RuntimeAction, RuntimeEvent};
use warp_horizon::scene::{FrameRenderInfo, Rectangle};
use warp_horizon::texture::TextureId;

struct Model {
    rectangles: usize,
}

struct View {
    texture: TextureId,
    frames_built: usize,
}

impl View2D<Model, f32> for View {
    fn render(&mut self, model: &Model, info: &mut FrameRenderInfo<f32>) {
        assert!(info.layers().is_empty());
        self.frames_built += 1;
        let batch = info.game_camera([0.0, 0.0]).batch();
        for i in 0..model.rectangles {
            batch.rectangle(Rectangle {
                position: [i as f32 * 64.0, -360.0],
                size: [64.0, 64.0],
                texture: self.texture,
            });
        }
    }
}

#[test]
fn load_texture_hands_out_ids_in_order_with_their_commands() {
    let (mut frontend, _buffer) = Frontend2D::<f32>::new();
    let paths = ["./assets/bird.png", "./assets/grass.png", "./assets/youdied.png"];
    for (expected, path) in paths.iter().enumerate() {
        let (id, command) = frontend.load_texture(path);
        assert_eq!(id.raw() as usize, expected);
        match command {
            FrontendCommand::LoadTexture(sent, sent_path) => {
                assert_eq!(sent.raw() as usize, expected);
                assert_eq!(sent_path, *path);
            }
            FrontendCommand::Frame(_) => panic!("a load must not send a frame"),
        }
    }
}

#[test]
fn render_skips_the_frame_while_the_buffer_is_away() {
    let (frontend, _buffer) = Frontend2D::<f32>::new();
    let mut view = View { texture: TextureId::from_raw(0), frames_built: 0 };
    let model = Model { rectangles: 3 };
    assert!(frontend.render(&mut view, &model, None).is_none());
    assert_eq!(view.frames_built, 0);
}

#[test]
fn render_clears_fills_and_sends_a_returned_buffer() {
    let (frontend, mut buffer) = Frontend2D::<f32>::new();
    buffer.game_camera([9.0, 9.0]).batch();
    buffer.game_camera([8.0, 8.0]);
    let mut view = View { texture: TextureId::from_raw(4), frames_built: 0 };
    let model = Model { rectangles: 2 };
    match frontend.render(&mut view, &model, Some(buffer)) {
        Some(FrontendCommand::Frame(frame)) => {
            assert_eq!(view.frames_built, 1);
            assert_eq!(frame.layers().len(), 1);
            assert_eq!(frame.layers()[0].position(), [0.0, 0.0]);
            let rectangles = frame.layers()[0].layers()[0].rectangles();
            assert_eq!(rectangles.len(), 2);
            assert_eq!(rectangles[1].position, [64.0, -360.0]);
            assert_eq!(rectangles[1].texture.raw(), 4);
        }
        _ => panic!("a returned buffer must be sent as a frame"),
    }
}

#[test]
fn begin_frame_empties_a_returned_buffer_and_passes_on_an_absent_one() {
    let (_frontend, mut buffer) = Frontend2D::<f32>::new();
    buffer.game_camera([9.0, 9.0]).batch();
    let frame = Frontend2D::begin_frame(Some(buffer)).unwrap();
    assert!(frame.layers().is_empty());
    assert!(Frontend2D::<f32>::begin_frame(None).is_none());
}

#[test]
fn texture_count_follows_the_announcements() {
    let (mut frontend, _buffer) = Frontend2D::<f32>::new();
    assert_eq!(frontend.texture_count(), 0);
    frontend.load_texture("./assets/bird.png");
    frontend.load_texture("./assets/grass.png");
    assert_eq!(frontend.texture_count(), 2);
}

#[test]
fn frame_command_wraps_the_frame() {
    let (_frontend, mut buffer) = Frontend2D::<f32>::new();
    buffer.game_camera([1.0, 2.0]);
    match Frontend2D::frame_command(buffer) {
        FrontendCommand::Frame(frame) => assert_eq!(frame.layers()[0].position(), [1.0, 2.0]),
        FrontendCommand::LoadTexture(..) => panic!("a frame must be sent as a frame"),
    }
}

#[test]
fn one_buffer_goes_round_and_never_more_than_one_frame_is_in_flight() {
    let (command_send, command_recv) = mpsc::channel::<FrontendCommand<f32>>();
    let (return_send, return_recv) = mpsc::channel::<FrameRenderInfo<f32>>();
    let (mut frontend, buffer) = Frontend2D::<f32>::new();
    return_send.send(buffer).unwrap();
    let mut runtime = FrontendRuntime::new();

    let (id, load) = frontend.load_texture("./assets/grass.png");
    command_send.send(load).unwrap();
    let mut view = View { texture: id, frames_built: 0 };
    let model = Model { rectangles: 5 };

    let mut sent = 0usize;
    let mut returned = 0usize;
    for tick in 0..12 {
        // The simulation side: poll for the buffer, build if it is there.
        if let Some(command) = frontend.render(&mut view, &model, return_recv.try_recv().ok()) {
            command_send.send(command).unwrap();
            sent += 1;
        }
        assert!(sent == returned || sent == returned + 1);
        // A second poll in the same tick finds nothing: the buffer is away.
        assert!(frontend.render(&mut view, &model, return_recv.try_recv().ok()).is_none());

        // The render side is slower: it only runs on every third tick.
        if tick % 3 != 2 {
            continue;
        }
        while let Ok(command) = command_recv.try_recv() {
            match runtime.step(RuntimeEvent::Command(command)) {
                RuntimeAction::Decode { id, path } => {
                    assert_eq!(path, "./assets/grass.png");
                    let decoded = RuntimeEvent::<f32>::Decoded {
                        id,
                        pixels: vec![0u8; 64 * 64 * 4],
                        width: 64,
                        height: 64,
                    };
                    assert!(matches!(runtime.step(decoded), RuntimeAction::Wait));
                }
                RuntimeAction::Draw { draw, frame } => {
                    assert_eq!(draw.draws.len(), 1);
                    assert_eq!(draw.draws[0].vertices.len(), 30);
                    return_send.send(frame).unwrap();
                    returned += 1;
                }
                _ => panic!("the exchange went out of step"),
            }
            assert!(returned <= sent && sent <= returned + 1);
        }
    }
    assert_eq!(sent, 4);
    assert_eq!(returned, 4);
    assert_eq!(view.frames_built, 4);
}
