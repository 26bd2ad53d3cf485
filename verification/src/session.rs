//! The picking session: the image held and the colour picked last, and how a
//! paste, a capture and a press change them.

use crate::buffer::{grid_of, Color, OutOfBounds, PixelBuffer, PixelGrid};
use crate::mapper::{map_pointer, mapped_index, maps, DisplayRect, PointerEvent};
use crate::screen::{
    capture_step,
    converted,
    frame_fits,
    CaptureFatal,
    CaptureStep,
    FramePoll,
    FRAME_INTERVAL_NANOS,
};
use vstd::prelude::*;

verus! {

/// An image as the clipboard hands it over: packed RGBA bytes with straight
/// alpha, no padding between rows.
#[derive(Clone, Debug, PartialEq, Eq)]
pub struct ClipboardImage {
    pub width: usize,
    pub height: usize,
    pub bytes: Vec<u8>,
}

/// Why a paste produced no image.
#[derive(Clone, Debug, PartialEq, Eq)]
pub enum ClipboardUnavailable {
    /// The clipboard could not be opened or read, or holds no image; the
    /// text is the clipboard's own message.
    Provider(String),
    /// The payload's byte count is not `width * height * 4`.
    MalformedImage,
}

/// The image that a clipboard read yields, with the payload's dimensions and
/// its bytes unchanged, or the reason why there is none.
pub fn from_clipboard(read: Result<ClipboardImage, String>) -> (r: Result<
    PixelBuffer,
    ClipboardUnavailable,
>)
    ensures
        match read {
            Ok(image) => if image.bytes@.len() == image.width * image.height * 4 {
                r is Ok && r->Ok_0@ == grid_of(
                    image.width as nat,
                    image.height as nat,
                    image.bytes@,
                ) && r->Ok_0.raw() == image.bytes@
            } else {
                r == Err::<PixelBuffer, ClipboardUnavailable>(ClipboardUnavailable::MalformedImage)
            },
            Err(message) => r == Err::<PixelBuffer, ClipboardUnavailable>(
                ClipboardUnavailable::Provider(message),
            ),
        },
{
    match read {
        Ok(image) => match PixelBuffer::from_rgba(image.width, image.height, image.bytes) {
            Ok(buffer) => Ok(buffer),
            Err(_) => Err(ClipboardUnavailable::MalformedImage),
        },
        Err(message) => Err(ClipboardUnavailable::Provider(message)),
    }
}

/// What the operator works on: the image held, if any, and the current
/// colour. A new image replaces the old one whole; only a successful sample
/// changes the colour.
#[derive(Clone, Debug, PartialEq, Eq)]
pub struct Session {
    pub image: Option<PixelBuffer>,
    pub color: Color,
}

/// What the caller of a screen capture does next.
#[derive(Clone, Copy, Debug, PartialEq, Eq, Structural)]
pub enum CaptureAction {
    /// The session holds the captured image; the capture is over.
    Finished,
    /// Wait this many nanoseconds, then ask the display again.
    RetryAfter(u64),
    /// The capture is given up; the session is as it was.
    Abort(CaptureFatal),
}

/// The colour that a press picks from the session's image, if it picks one.
pub open spec fn picked(session: Session, pointer: PointerEvent, rect: DisplayRect) -> Option<
    Color,
> {
    match session.image {
        Some(buffer) => if maps(pointer.position, rect, buffer@.width, buffer@.height) {
            Some(buffer@.pixels[mapped_index(pointer.position, rect, buffer@.width)])
        } else {
            None
        },
        None => None,
    }
}

impl Session {
    /// A session that holds no image yet; its colour is opaque black.
    pub fn new() -> (session: Session)
        ensures
            session.image is None,
            session.color == (Color { r: 0, g: 0, b: 0, a: 255 }),
    {
        Session { image: None, color: Color { r: 0, g: 0, b: 0, a: 255 } }
    }

    /// No image has been captured or pasted yet.
    pub fn is_idle(&self) -> (idle: bool)
        ensures
            idle == (self.image is None),
    {
        self.image.is_none()
    }

    /// Takes the display's answer to a request for a frame of a `width` by
    /// `height` display. A frame that is ready becomes the session's image;
    /// while none is ready, and after a failure, the session is exactly as
    /// before. The colour always stays.
    pub fn screen_capture(&mut self, width: usize, height: usize, poll: FramePoll) -> (action:
        CaptureAction)
        ensures
            final(self).color == old(self).color,
            old(self).image is Some ==> final(self).image is Some,
            match poll {
                FramePoll::Ready(frame) => if frame_fits(
                    width as nat,
                    height as nat,
                    frame@.len(),
                ) {
                    &&& action == CaptureAction::Finished
                    &&& final(self).image is Some
                    &&& final(self).image->Some_0@ == (PixelGrid {
                        width: width as nat,
                        height: height as nat,
                        pixels: converted(frame@, width as nat, height as nat),
                    })
                } else {
                    action == CaptureAction::Abort(CaptureFatal::MalformedFrame) && *final(self)
                        == *old(self)
                },
                FramePoll::NotReady => action == CaptureAction::RetryAfter(FRAME_INTERVAL_NANOS)
                    && *final(self) == *old(self),
                FramePoll::Failed => action == CaptureAction::Abort(CaptureFatal::DeviceFailed)
                    && *final(self) == *old(self),
            },
    {
        match capture_step(width, height, poll) {
            CaptureStep::Done(buffer) => {
                self.image = Some(buffer);
                CaptureAction::Finished
            },
            CaptureStep::RetryAfter(nanos) => CaptureAction::RetryAfter(nanos),
            CaptureStep::Abort(reason) => CaptureAction::Abort(reason),
        }
    }

    /// Takes a finished capture as the session's image. The colour stays.
    pub fn install(&mut self, buffer: PixelBuffer)
        ensures
            final(self).image == Some(buffer),
            final(self).color == old(self).color,
    {
        self.image = Some(buffer);
    }

    /// Takes the outcome of a clipboard read. A good payload becomes the
    /// session's image; after any failure the session is exactly as before.
    pub fn paste_image(&mut self, read: Result<ClipboardImage, String>) -> (r: Result<
        (),
        ClipboardUnavailable,
    >)
        ensures
            final(self).color == old(self).color,
            old(self).image is Some ==> final(self).image is Some,
            match read {
                Ok(image) => if image.bytes@.len() == image.width * image.height * 4 {
                    r is Ok && final(self).image is Some && final(self).image->Some_0@ == grid_of(
                        image.width as nat,
                        image.height as nat,
                        image.bytes@,
                    ) && final(self).image->Some_0.raw() == image.bytes@
                } else {
                    r == Err::<(), ClipboardUnavailable>(ClipboardUnavailable::MalformedImage)
                        && *final(self) == *old(self)
                },
                Err(message) => r == Err::<(), ClipboardUnavailable>(
                    ClipboardUnavailable::Provider(message),
                ) && *final(self) == *old(self),
            },
    {
        match from_clipboard(read) {
            Ok(buffer) => {
                self.image = Some(buffer);
                Ok(())
            },
            Err(reason) => Err(reason),
        }
    }

    /// Handles a press on the preview shown in `rect`. Where the press maps
    /// to a pixel of the image held, that pixel's colour becomes the current
    /// colour and is returned; otherwise nothing changes.
    pub fn press(&mut self, pointer: PointerEvent, rect: DisplayRect) -> (r: Result<
        Color,
        OutOfBounds,
    >)
        ensures
            final(self).image == old(self).image,
            match picked(*old(self), pointer, rect) {
                Some(color) => r == Ok::<Color, OutOfBounds>(color) && final(self).color == color,
                None => r is Err && *final(self) == *old(self),
            },
    {
        let found: Result<Color, OutOfBounds> = match &self.image {
            Some(buffer) => match map_pointer(pointer, rect, buffer.dims()) {
                Ok(index) => buffer.sample(index),
                Err(outside) => Err(outside),
            },
            None => Err(OutOfBounds),
        };
        if let Ok(color) = found {
            self.color = color;
        }
        found
    }
}

} // verus!
