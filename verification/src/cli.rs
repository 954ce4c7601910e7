//! The command-line front-end: it asks for one full render and keeps the image.

use vstd::prelude::*;
use crate::link::{EngineEndpoints, EngineLink};
use crate::ppm::{encode_ppm, ppm_bytes};
use crate::protocol::{status_view, EngineCommand, EngineStatus, RenderType, StatusView};

verus! {

/// A front-end without a window.
pub struct CommandLine {
    width: u32,
    height: u32,
    link: EngineLink,
    image: Option<Vec<u8>>,
}

/// What a [`CommandLine`] holds.
pub ghost struct CommandLineView {
    /// Width of the image to render.
    pub width: u32,
    /// Height of the image to render.
    pub height: u32,
    /// Whether the engine's ends of the channels have been handed out.
    pub engine_started: bool,
    /// The commands handed to the command channel so far, in order.
    pub sent: Seq<EngineCommand>,
    /// The pixels of the last render that was completed.
    pub image: Option<Seq<u8>>,
}

impl View for CommandLine {
    type V = CommandLineView;

    closed spec fn view(&self) -> CommandLineView {
        CommandLineView {
            width: self.width,
            height: self.height,
            engine_started: self.link.handed_out(),
            sent: self.link.sent(),
            image: match self.image {
                Some(pixels) => Some(pixels@),
                None => None,
            },
        }
    }
}

/// The image that a front-end holds once a status message has arrived: the
/// pixels of a completed render replace it, any other message leaves it.
pub open spec fn image_after(image: Option<Seq<u8>>, status: Option<StatusView>) -> Option<
    Seq<u8>,
> {
    match status {
        Some(StatusView::RenderComplete(_, pixels)) => Some(pixels),
        _ => image,
    }
}

/// Whether a status message says that a render has been completed.
pub open spec fn is_completion(status: Option<StatusView>) -> bool {
    status matches Some(StatusView::RenderComplete(_, _))
}

impl CommandLine {
    /// A front-end for an image of `w` by `h` pixels, with its channels made and
    /// the engine not yet started.
    pub fn new(w: u32, h: u32) -> (cli: CommandLine)
        ensures
            cli@ == (CommandLineView {
                width: w,
                height: h,
                engine_started: false,
                sent: Seq::empty(),
                image: None,
            }),
    {
        CommandLine { width: w, height: h, link: EngineLink::new(), image: None }
    }

    /// Width of the image to render.
    pub fn width(&self) -> (w: u32)
        ensures
            w == self@.width,
    {
        self.width
    }

    /// Height of the image to render.
    pub fn height(&self) -> (h: u32)
        ensures
            h == self@.height,
    {
        self.height
    }

    /// Whether the engine has been started.
    pub fn engine_started(&self) -> (started: bool)
        ensures
            started == self@.engine_started,
    {
        self.link.is_handed_out()
    }

    /// Queues the request for a full render and hands out the engine's ends of
    /// the channels, for the caller to run the engine on. The engine can be
    /// started once.
    pub fn start_engine(&mut self) -> (ends: EngineEndpoints)
        requires
            !old(self)@.engine_started,
        ensures
            final(self)@ == (CommandLineView {
                engine_started: true,
                sent: old(self)@.sent.push(EngineCommand::Render(RenderType::FullRender)),
                ..old(self)@
            }),
    {
        let _ = self.link.send(EngineCommand::Render(RenderType::FullRender));
        let ends = self.link.take_engine_endpoints();
        ends.unwrap()
    }

    /// Tells the engine to shut down: hands `Shutdown` to the command channel.
    /// Returns whether the channel took the command; it does not once the engine
    /// is gone.
    pub fn stop_engine(&mut self) -> (delivered: bool)
        ensures
            final(self)@ == (CommandLineView {
                sent: old(self)@.sent.push(EngineCommand::Shutdown),
                ..old(self)@
            }),
    {
        self.link.send(EngineCommand::Shutdown)
    }

    /// Takes in a status message, or the news that none is waiting. Returns
    /// whether it completes a render; the pixels of a completed render become
    /// the image.
    pub fn receive(&mut self, status: Option<EngineStatus>) -> (done: bool)
        ensures
            done == is_completion(status_view(status)),
            final(self)@ == (CommandLineView {
                image: image_after(old(self)@.image, status_view(status)),
                ..old(self)@
            }),
    {
        match status {
            Some(EngineStatus::RenderComplete(_, pixels)) => {
                self.image = Some(pixels);
                true
            },
            _ => false,
        }
    }

    /// Looks for a status message, without waiting, and takes it in. Returns
    /// whether a render has been completed; the image is then there.
    pub fn handle_update(&mut self) -> (done: bool)
        ensures
            final(self)@.width == old(self)@.width,
            final(self)@.height == old(self)@.height,
            final(self)@.engine_started == old(self)@.engine_started,
            final(self)@.sent == old(self)@.sent,
            done ==> final(self)@.image is Some,
            !done ==> final(self)@.image == old(self)@.image,
    {
        let status = self.link.poll();
        self.receive(status)
    }

    /// The image as a binary portable pixmap of the front-end's width and
    /// height, or `None` before the first render has been completed.
    pub fn save_as_ppm(&self) -> (file: Option<Vec<u8>>)
        ensures
            match self@.image {
                Some(pixels) => file matches Some(bytes) && bytes@ == ppm_bytes(
                    self@.width,
                    self@.height,
                    pixels,
                ),
                None => file is None,
            },
    {
        match &self.image {
            Some(pixels) => Some(encode_ppm(self.width, self.height, pixels)),
            None => None,
        }
    }
}

} // verus!
