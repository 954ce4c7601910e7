//! The windowed front-end: what a key does, and what a status message means for
//! the display.
//!
//! The window itself, its events and its textures belong to the program that
//! shows them. It turns a key event into a [`Key`], asks here what to do, and
//! uploads the pixels that a [`DisplayUpdate`] hands it.

use vstd::prelude::*;
use crate::link::{EngineEndpoints, EngineLink};
use crate::protocol::{
    status_view, EngineCommand, EngineStatus, RenderType, StatusView, PREVIEW_HEIGHT, PREVIEW_WIDTH,
};

verus! {

/// A key of the keyboard, as far as the viewer tells keys apart.
#[derive(Clone, Copy, Debug, PartialEq, Eq, Structural)]
pub enum Key {
    Space,
    Equals,
    Minus,
    Left,
    Right,
    Up,
    Down,
    Escape,
    S,
    R,
    /// Any other key.
    Other,
}

/// What a key asks of the window itself.
#[derive(Clone, Copy, Debug, PartialEq, Eq, Structural)]
pub enum WindowEffect {
    /// Nothing.
    Nothing,
    /// Close the window.
    Close,
    /// Save the current image to disk.
    SaveImage,
    /// Redraw the window.
    Refresh,
}

/// The texture that a render is shown on.
#[derive(Clone, Copy, Debug, PartialEq, Eq, Structural)]
pub enum TextureSlot {
    /// The texture of the full renders.
    Primary,
    /// The texture of the previews.
    Secondary,
}

/// The commands that a key sends to the engine, in order: the space bar asks for
/// a full render, a key that moves the view sends the move and asks for a
/// preview, and escape shuts the engine down.
pub open spec fn key_commands(key: Key) -> Seq<EngineCommand> {
    let preview = EngineCommand::Render(RenderType::PreviewRender);
    match key {
        Key::Space => seq![EngineCommand::Render(RenderType::FullRender)],
        Key::Equals => seq![EngineCommand::ZoomIn, preview],
        Key::Minus => seq![EngineCommand::ZoomOut, preview],
        Key::Left => seq![EngineCommand::PanLeft, preview],
        Key::Right => seq![EngineCommand::PanRight, preview],
        Key::Up => seq![EngineCommand::PanUp, preview],
        Key::Down => seq![EngineCommand::PanDown, preview],
        Key::Escape => seq![EngineCommand::Shutdown],
        Key::S | Key::R | Key::Other => Seq::empty(),
    }
}

/// What a key asks of the window: escape closes it, `S` saves the image, `R`
/// redraws.
pub open spec fn key_effect(key: Key) -> WindowEffect {
    match key {
        Key::Escape => WindowEffect::Close,
        Key::S => WindowEffect::SaveImage,
        Key::R => WindowEffect::Refresh,
        _ => WindowEffect::Nothing,
    }
}

/// The two renders that a window asks for when it starts its engine: a preview,
/// then the full image.
pub open spec fn opening_commands() -> Seq<EngineCommand> {
    seq![
        EngineCommand::Render(RenderType::PreviewRender),
        EngineCommand::Render(RenderType::FullRender),
    ]
}

/// The texture on which a render of the given kind is shown.
pub open spec fn slot_of(kind: RenderType) -> TextureSlot {
    match kind {
        RenderType::FullRender => TextureSlot::Primary,
        RenderType::PreviewRender => TextureSlot::Secondary,
    }
}

/// What a key does: the commands for the engine, and the effect on the window.
pub struct KeyResponse {
    pub commands: Vec<EngineCommand>,
    pub effect: WindowEffect,
}

/// Pixels to put on a texture.
#[derive(Debug)]
pub struct TextureUpload {
    pub slot: TextureSlot,
    pub width: u32,
    pub height: u32,
    /// Three bytes for each pixel, row by row.
    pub pixels: Vec<u8>,
}

/// What a status message means for the display.
#[derive(Debug)]
pub enum DisplayUpdate {
    /// No message was waiting.
    Nothing,
    /// A render has begun.
    Began,
    /// The render has completed the row with this index.
    Progress(u32),
    /// A render has ended: its pixels go on a texture.
    Upload(TextureUpload),
    /// The engine reports a fault with this code; the display stays as it is.
    Fault(u32),
}

/// What a [`DisplayUpdate`] says, with the pixels as a sequence.
pub ghost enum DisplayUpdateView {
    Nothing,
    Began,
    Progress(u32),
    Upload { slot: TextureSlot, width: u32, height: u32, pixels: Seq<u8> },
    Fault(u32),
}

impl View for DisplayUpdate {
    type V = DisplayUpdateView;

    open spec fn view(&self) -> DisplayUpdateView {
        match *self {
            DisplayUpdate::Nothing => DisplayUpdateView::Nothing,
            DisplayUpdate::Began => DisplayUpdateView::Began,
            DisplayUpdate::Progress(row) => DisplayUpdateView::Progress(row),
            DisplayUpdate::Upload(upload) => DisplayUpdateView::Upload {
                slot: upload.slot,
                width: upload.width,
                height: upload.height,
                pixels: upload.pixels@,
            },
            DisplayUpdate::Fault(code) => DisplayUpdateView::Fault(code),
        }
    }
}

/// What a status message means for a display whose framebuffer measures
/// `full_width` by `full_height`: the pixels of a completed render go on the
/// texture of its kind, at the resolution of its kind.
pub open spec fn update_of(status: Option<StatusView>, full_width: u32, full_height: u32)
    -> DisplayUpdateView {
    match status {
        None => DisplayUpdateView::Nothing,
        Some(StatusView::Startup) => DisplayUpdateView::Began,
        Some(StatusView::Processing(row)) => DisplayUpdateView::Progress(row),
        Some(StatusView::RenderComplete(kind, pixels)) => DisplayUpdateView::Upload {
            slot: slot_of(kind),
            width: kind.resolution(full_width, full_height).0,
            height: kind.resolution(full_width, full_height).1,
            pixels,
        },
        Some(StatusView::Error(code)) => DisplayUpdateView::Fault(code),
    }
}

/// What the key does.
pub fn key_response(key: Key) -> (response: KeyResponse)
    ensures
        response.commands@ == key_commands(key),
        response.effect == key_effect(key),
{
    let mut commands: Vec<EngineCommand> = Vec::new();
    let mut effect = WindowEffect::Nothing;
    match key {
        Key::Space => {
            commands.push(EngineCommand::Render(RenderType::FullRender));
        },
        Key::Equals => {
            commands.push(EngineCommand::ZoomIn);
        },
        Key::Minus => {
            commands.push(EngineCommand::ZoomOut);
        },
        Key::Left => {
            commands.push(EngineCommand::PanLeft);
        },
        Key::Right => {
            commands.push(EngineCommand::PanRight);
        },
        Key::Up => {
            commands.push(EngineCommand::PanUp);
        },
        Key::Down => {
            commands.push(EngineCommand::PanDown);
        },
        Key::Escape => {
            commands.push(EngineCommand::Shutdown);
            effect = WindowEffect::Close;
        },
        Key::S => {
            effect = WindowEffect::SaveImage;
        },
        Key::R => {
            effect = WindowEffect::Refresh;
        },
        Key::Other => {},
    }
    match key {
        Key::Equals | Key::Minus | Key::Left | Key::Right | Key::Up | Key::Down => {
            commands.push(EngineCommand::Render(RenderType::PreviewRender));
        },
        _ => {},
    }
    assert(commands@ =~= key_commands(key));
    KeyResponse { commands, effect }
}

/// What the status message, or the lack of one, means for the display.
pub fn display_update(status: Option<EngineStatus>, full_width: u32, full_height: u32) -> (update:
    DisplayUpdate)
    ensures
        update@ == update_of(status_view(status), full_width, full_height),
{
    match status {
        None => DisplayUpdate::Nothing,
        Some(EngineStatus::Startup) => DisplayUpdate::Began,
        Some(EngineStatus::Processing(row)) => DisplayUpdate::Progress(row),
        Some(EngineStatus::RenderComplete(kind, pixels)) => {
            let (width, height) = kind.resolution(full_width, full_height);
            let slot = match kind {
                RenderType::FullRender => TextureSlot::Primary,
                RenderType::PreviewRender => TextureSlot::Secondary,
            };
            DisplayUpdate::Upload(TextureUpload { slot, width, height, pixels })
        },
        Some(EngineStatus::Error(code)) => DisplayUpdate::Fault(code),
    }
}

/// The part of a window that talks to the engine.
pub struct WindowController {
    buffer_width: u32,
    buffer_height: u32,
    link: EngineLink,
}

/// What a [`WindowController`] holds.
pub ghost struct WindowControllerView {
    /// Width of the window's framebuffer.
    pub buffer_width: u32,
    /// Height of the window's framebuffer.
    pub buffer_height: u32,
    /// Whether the engine's ends of the channels have been handed out.
    pub engine_started: bool,
    /// The commands handed to the command channel so far, in order.
    pub sent: Seq<EngineCommand>,
}

impl View for WindowController {
    type V = WindowControllerView;

    closed spec fn view(&self) -> WindowControllerView {
        WindowControllerView {
            buffer_width: self.buffer_width,
            buffer_height: self.buffer_height,
            engine_started: self.link.handed_out(),
            sent: self.link.sent(),
        }
    }
}

impl WindowController {
    /// A controller for a window whose framebuffer measures `w` by `h` pixels,
    /// with its channels made and the engine not yet started.
    pub fn new(w: u32, h: u32) -> (wc: WindowController)
        ensures
            wc@ == (WindowControllerView {
                buffer_width: w,
                buffer_height: h,
                engine_started: false,
                sent: Seq::empty(),
            }),
    {
        WindowController { buffer_width: w, buffer_height: h, link: EngineLink::new() }
    }

    /// Width of the window's framebuffer.
    pub fn buffer_width(&self) -> (w: u32)
        ensures
            w == self@.buffer_width,
    {
        self.buffer_width
    }

    /// Height of the window's framebuffer.
    pub fn buffer_height(&self) -> (h: u32)
        ensures
            h == self@.buffer_height,
    {
        self.buffer_height
    }

    /// Whether the engine has been started.
    pub fn engine_started(&self) -> (started: bool)
        ensures
            started == self@.engine_started,
    {
        self.link.is_handed_out()
    }

    /// Queues the requests for a preview and for a full render, and hands out
    /// the engine's ends of the channels, for the caller to run the engine on.
    /// The engine can be started once.
    pub fn start_engine(&mut self) -> (ends: EngineEndpoints)
        requires
            !old(self)@.engine_started,
        ensures
            final(self)@ == (WindowControllerView {
                engine_started: true,
                sent: old(self)@.sent + opening_commands(),
                ..old(self)@
            }),
    {
        let _ = self.link.send(EngineCommand::Render(RenderType::PreviewRender));
        let _ = self.link.send(EngineCommand::Render(RenderType::FullRender));
        let ends = self.link.take_engine_endpoints();
        assert(self.link.sent() =~= old(self).link.sent() + opening_commands());
        ends.unwrap()
    }

    /// Looks for a status message, without waiting, and says what it means for
    /// the display.
    pub fn maybe_update_display(&mut self) -> (update: DisplayUpdate)
        ensures
            final(self)@ == old(self)@,
            update@ matches DisplayUpdateView::Upload { slot, width, height, .. } ==> {
                ||| (slot == TextureSlot::Primary && width == old(self)@.buffer_width && height
                    == old(self)@.buffer_height)
                ||| (slot == TextureSlot::Secondary && width == PREVIEW_WIDTH && height
                    == PREVIEW_HEIGHT)
            },
    {
        let status = self.link.poll();
        display_update(status, self.buffer_width, self.buffer_height)
    }

    /// Sends the engine the commands of a key, in order, and returns what the
    /// key asks of the window.
    pub fn handle_window_event(&mut self, key: Key) -> (effect: WindowEffect)
        ensures
            final(self)@ == (WindowControllerView {
                sent: old(self)@.sent + key_commands(key),
                ..old(self)@
            }),
            effect == key_effect(key),
    {
        let response = key_response(key);
        let mut i: usize = 0;
        while i < response.commands.len()
            invariant
                i <= response.commands@.len(),
                self.buffer_width == old(self).buffer_width,
                self.buffer_height == old(self).buffer_height,
                self.link.handed_out() == old(self).link.handed_out(),
                self.link.sent() == old(self).link.sent() + response.commands@.take(i as int),
            decreases response.commands@.len() - i,
        {
            let _ = self.link.send(response.commands[i]);
            i += 1;
            assert(response.commands@.take(i as int) =~= response.commands@.take(i - 1).push(
                response.commands@[i - 1],
            ));
        }
        assert(response.commands@.take(i as int) =~= response.commands@);
        response.effect
    }
}

} // verus!
