//! Assembling a pixel buffer from per-pixel iteration counts.
//!
//! A render walks the image row by row, top row first, and each row from left to
//! right. A [`RenderJob`] keeps the place: it says which pixel is due, takes the
//! iteration count of that pixel from whoever evaluates the points, looks it up
//! in the colour table, appends the colour to its buffer, and says which status
//! messages the front-end is owed.

use vstd::prelude::*;
use crate::palette::{color_of, Palette, Rgb8};
use crate::protocol::{status_view, EngineStatus, Region, RenderType, StatusView};

verus! {

/// A progress message is owed after each row whose index is a multiple of this.
pub const PROGRESS_INTERVAL: u32 = 100;

/// Channel `k` of a colour: 0 is red, 1 is green, anything else is blue.
pub open spec fn channel(c: Rgb8, k: int) -> u8 {
    if k == 0 {
        c.0
    } else if k == 1 {
        c.1
    } else {
        c.2
    }
}

/// The bytes of a run of pixels with the given iteration counts: byte `i` is
/// channel `i % 3` of the colour that the table gives to the count of pixel
/// `i / 3`.
pub open spec fn pixel_bytes(table: Seq<Rgb8>, counts: Seq<u32>) -> Seq<u8> {
    Seq::new(3 * counts.len(), |i: int| channel(color_of(table, counts[i / 3]), i % 3))
}

/// The progress message owed once the row with index `row` is complete, if any.
pub open spec fn row_status(row: u32) -> Option<StatusView> {
    if row % PROGRESS_INTERVAL == 0 {
        Some(StatusView::Processing(row))
    } else {
        None
    }
}

/// The progress messages owed for the first `rows` rows of a render, in order.
pub open spec fn progress_statuses(rows: nat) -> Seq<StatusView>
    decreases rows,
{
    if rows == 0 {
        Seq::empty()
    } else {
        let before = progress_statuses((rows - 1) as nat);
        match row_status((rows - 1) as u32) {
            Some(status) => before.push(status),
            None => before,
        }
    }
}

/// The messages of one render carried out to its end, in order: the message
/// that announces it, the progress messages of all its rows, and the completion
/// message with the finished buffer.
pub open spec fn render_statuses(kind: RenderType, height: u32, pixels: Seq<u8>) -> Seq<
    StatusView,
> {
    seq![StatusView::Startup] + progress_statuses(height as nat) + seq![
        StatusView::RenderComplete(kind, pixels),
    ]
}

/// A message that may or may not have come, as a run of messages.
pub open spec fn given(status: Option<StatusView>) -> Seq<StatusView> {
    match status {
        Some(s) => seq![s],
        None => Seq::empty(),
    }
}

/// The largest number of bytes that a pixel buffer can hold.
pub open spec fn max_buffer_len() -> int {
    isize::MAX as int
}

/// Why a render, or a step of one, was refused.
#[derive(Clone, Copy, Debug, PartialEq, Eq, Structural)]
pub enum RenderError {
    /// The width or the height is zero.
    EmptyResolution,
    /// Three bytes for each pixel are more than a buffer can hold.
    TooLarge,
    /// Every pixel of the image has been plotted already.
    NoPixelLeft,
}

/// A render in progress: the request it serves, the pixels plotted so far, and
/// the place of the pixel that is due.
#[derive(Debug)]
pub struct RenderJob {
    kind: RenderType,
    region: Region,
    width: u32,
    height: u32,
    max_iterations: u32,
    column: u32,
    row: u32,
    pixels: Vec<u8>,
}

impl RenderJob {
    /// The job's invariant: the resolution is not empty, the whole image fits in
    /// a buffer, the pixel that is due lies in the image or right after its last
    /// row, and the buffer holds exactly the pixels before it.
    pub closed spec fn wf(&self) -> bool {
        &&& self.width > 0
        &&& self.height > 0
        &&& 3 * self.width * self.height <= max_buffer_len()
        &&& self.row <= self.height
        &&& self.column < self.width
        &&& self.row == self.height ==> self.column == 0
        &&& self.pixels@.len() == 3 * (self.row * self.width + self.column)
    }

    pub closed spec fn spec_kind(&self) -> RenderType {
        self.kind
    }

    pub closed spec fn spec_region(&self) -> Region {
        self.region
    }

    pub closed spec fn spec_width(&self) -> u32 {
        self.width
    }

    pub closed spec fn spec_height(&self) -> u32 {
        self.height
    }

    pub closed spec fn spec_max_iterations(&self) -> u32 {
        self.max_iterations
    }

    pub closed spec fn spec_column(&self) -> u32 {
        self.column
    }

    pub closed spec fn spec_row(&self) -> u32 {
        self.row
    }

    /// The bytes of the pixels plotted so far.
    pub closed spec fn pixels(&self) -> Seq<u8> {
        self.pixels@
    }

    /// Whether two jobs serve the same request.
    pub open spec fn same_request(&self, other: &RenderJob) -> bool {
        &&& self.kind() == other.kind()
        &&& self.region() == other.region()
        &&& self.width() == other.width()
        &&& self.height() == other.height()
        &&& self.max_iterations() == other.max_iterations()
    }

    /// The messages that the front-end is owed so far: the one that announced
    /// the render, and the progress messages of the rows completed.
    pub open spec fn issued(&self) -> Seq<StatusView> {
        seq![StatusView::Startup] + progress_statuses(self.row() as nat)
    }

    /// The place of the pixel after the one at `(column, row)`, walking each row
    /// from left to right and the rows from the top down.
    pub open spec fn place_after(&self, column: u32, row: u32) -> (u32, u32) {
        if column + 1 == self.width() {
            (0u32, (row + 1) as u32)
        } else {
            ((column + 1) as u32, row)
        }
    }

    /// The layout of the buffer: the pixel at column `x` of row `y` takes the
    /// three bytes from `3 * (y * width + x)` on, so that the buffer ends where
    /// the bytes of the pixel that is due will begin.
    pub proof fn lemma_layout(&self)
        requires
            self.wf(),
        ensures
            self.width() > 0,
            self.height() > 0,
            self.row() <= self.height(),
            self.column() < self.width(),
            self.row() == self.height() ==> self.column() == 0,
            3 * self.width() * self.height() <= max_buffer_len(),
            self.pixels().len() == 3 * (self.row() * self.width() + self.column()),
    {
    }

    /// Starts a render of `width` by `height` pixels. It is refused with
    /// `EmptyResolution` when either is zero, and with `TooLarge` when the image
    /// would not fit in a buffer.
    pub fn begin(
        kind: RenderType,
        region: Region,
        width: u32,
        height: u32,
        max_iterations: u32,
    ) -> (r: Result<RenderJob, RenderError>)
        ensures
            match r {
                Ok(job) => {
                    &&& width > 0 && height > 0
                    &&& 3 * width * height <= max_buffer_len()
                    &&& job.wf()
                    &&& job.kind() == kind
                    &&& job.region() == region
                    &&& job.width() == width
                    &&& job.height() == height
                    &&& job.max_iterations() == max_iterations
                    &&& job.column() == 0
                    &&& job.row() == 0
                    &&& job.pixels() == Seq::<u8>::empty()
                    &&& job.issued() == seq![StatusView::Startup]
                },
                Err(e) => {
                    &&& e == RenderError::EmptyResolution <==> (width == 0 || height == 0)
                    &&& e == RenderError::TooLarge <==> (width > 0 && height > 0 && 3 * width
                        * height > max_buffer_len())
                    &&& e == RenderError::EmptyResolution || e == RenderError::TooLarge
                },
            },
    {
        if width == 0 || height == 0 {
            return Err(RenderError::EmptyResolution);
        }
        assert(width * height <= 0xFFFF_FFFF * 0xFFFF_FFFF) by (nonlinear_arith)
            requires
                width <= 0xFFFF_FFFF,
                height <= 0xFFFF_FFFF,
        ;
        let cells: u128 = (width as u128) * (height as u128);
        let bytes: u128 = 3 * cells;
        assert(bytes == 3 * width * height) by (nonlinear_arith)
            requires
                bytes == 3 * cells,
                cells == width * height,
        ;
        if bytes > isize::MAX as u128 {
            return Err(RenderError::TooLarge);
        }
        assert(seq![StatusView::Startup] + progress_statuses(0) =~= seq![StatusView::Startup]);
        Ok(
            RenderJob {
                kind,
                region,
                width,
                height,
                max_iterations,
                column: 0,
                row: 0,
                pixels: Vec::new(),
            },
        )
    }

    /// The kind of render that the job serves.
    #[verifier::when_used_as_spec(spec_kind)]
    pub fn kind(&self) -> (k: RenderType)
        ensures
            k == self.kind(),
    {
        self.kind
    }

    /// The view being rendered, as it was when the render was requested.
    #[verifier::when_used_as_spec(spec_region)]
    pub fn region(&self) -> (r: Region)
        ensures
            r == self.region(),
    {
        self.region
    }

    /// Number of pixels in a row.
    #[verifier::when_used_as_spec(spec_width)]
    pub fn width(&self) -> (w: u32)
        ensures
            w == self.width(),
    {
        self.width
    }

    /// Number of rows.
    #[verifier::when_used_as_spec(spec_height)]
    pub fn height(&self) -> (h: u32)
        ensures
            h == self.height(),
    {
        self.height
    }

    /// The iteration budget of each point.
    #[verifier::when_used_as_spec(spec_max_iterations)]
    pub fn max_iterations(&self) -> (n: u32)
        ensures
            n == self.max_iterations(),
    {
        self.max_iterations
    }

    /// The column of the pixel that is due.
    #[verifier::when_used_as_spec(spec_column)]
    pub fn column(&self) -> (px: u32)
        ensures
            px == self.column(),
    {
        self.column
    }

    /// The row of the pixel that is due; also the number of rows completed.
    #[verifier::when_used_as_spec(spec_row)]
    pub fn row(&self) -> (py: u32)
        ensures
            py == self.row(),
    {
        self.row
    }

    /// Whether every pixel has been plotted.
    pub fn is_complete(&self) -> (done: bool)
        ensures
            done <==> self.row() == self.height(),
    {
        self.row == self.height
    }

    /// Plots the pixel that is due: appends the colour that the table gives to
    /// `iteration`, the number of steps that the point of this pixel took, and
    /// moves on to the next pixel of the row, or from the end of a row to the
    /// beginning of the next. Returns the progress message owed where the pixel
    /// completes a row, if there is one.
    ///
    /// Once the image is complete the pixel is refused with `NoPixelLeft`, and
    /// the job stays as it was.
    pub fn plot(&mut self, palette: &Palette, iteration: u32) -> (r: Result<
        Option<EngineStatus>,
        RenderError,
    >)
        requires
            old(self).wf(),
        ensures
            final(self).wf(),
            final(self).same_request(old(self)),
            match r {
                Ok(status) => {
                    &&& old(self).row() < old(self).height()
                    &&& final(self).pixels() == old(self).pixels() + pixel_bytes(
                        palette@,
                        seq![iteration],
                    )
                    &&& (final(self).column(), final(self).row()) == old(self).place_after(
                        old(self).column(),
                        old(self).row(),
                    )
                    &&& status_view(status) == if final(self).column() == 0 {
                        row_status(old(self).row())
                    } else {
                        None
                    }
                    &&& final(self).issued() == old(self).issued() + given(status_view(status))
                },
                Err(e) => {
                    &&& e == RenderError::NoPixelLeft
                    &&& old(self).row() == old(self).height()
                    &&& final(self).pixels() == old(self).pixels()
                    &&& final(self).column() == old(self).column()
                    &&& final(self).row() == old(self).row()
                },
            },
    {
        if self.row >= self.height {
            return Err(RenderError::NoPixelLeft);
        }
        let (r, g, b) = palette.color_at(iteration);
        let ghost before = self.pixels@;
        self.pixels.push(r);
        self.pixels.push(g);
        self.pixels.push(b);
        assert(self.pixels@ =~= before + pixel_bytes(palette@, seq![iteration]));
        let row: u32 = self.row;
        proof {
            let w = self.width as int;
            let h = self.height as int;
            let y = row as int;
            assert((y + 1) * w == y * w + w) by (nonlinear_arith);
        }
        let ghost owed = self.issued();
        if self.column + 1 == self.width {
            self.column = 0;
            self.row = row + 1;
            if row % PROGRESS_INTERVAL == 0 {
                assert(self.issued() =~= owed + seq![StatusView::Processing(row)]);
                Ok(Some(EngineStatus::Processing(row)))
            } else {
                assert(self.issued() =~= owed);
                Ok(None)
            }
        } else {
            self.column = self.column + 1;
            assert(self.issued() =~= owed);
            Ok(None)
        }
    }

    /// Ends the render. Once every pixel has been plotted this gives the
    /// completion message, which carries the buffer; before that it hands the
    /// job back unchanged.
    pub fn finish(self) -> (r: Result<EngineStatus, RenderJob>)
        requires
            self.wf(),
        ensures
            match r {
                Ok(status) => {
                    &&& self.row() == self.height()
                    &&& status@ == StatusView::RenderComplete(self.kind(), self.pixels())
                    &&& self.pixels().len() == 3 * self.width() * self.height()
                    &&& self.issued().push(status@) == render_statuses(
                        self.kind(),
                        self.height(),
                        self.pixels(),
                    )
                },
                Err(job) => {
                    &&& self.row() < self.height()
                    &&& job == self
                },
            },
    {
        if self.row == self.height {
            proof {
                let w = self.width as int;
                let h = self.height as int;
                assert(3 * (h * w + 0) == 3 * w * h) by (nonlinear_arith);
                assert(self.issued().push(
                    StatusView::RenderComplete(self.kind, self.pixels@),
                ) =~= render_statuses(self.kind, self.height, self.pixels@));
            }
            Ok(EngineStatus::RenderComplete(self.kind, self.pixels))
        } else {
            Err(self)
        }
    }
}

/// Pixels plotted one after the other make up the image: the bytes of two runs
/// of pixels joined are the bytes of the first followed by those of the second.
pub proof fn lemma_pixel_bytes_concat(table: Seq<Rgb8>, first: Seq<u32>, second: Seq<u32>)
    ensures
        pixel_bytes(table, first + second) == pixel_bytes(table, first) + pixel_bytes(
            table,
            second,
        ),
{
    let joined = pixel_bytes(table, first + second);
    let parts = pixel_bytes(table, first) + pixel_bytes(table, second);
    assert(joined.len() == parts.len());
    assert forall|i: int| 0 <= i < joined.len() implies joined[i] == parts[i] by {
        if i < 3 * first.len() {
            assert(i / 3 < first.len());
        } else {
            let j = i - 3 * first.len();
            assert(i / 3 == j / 3 + first.len());
            assert(i % 3 == j % 3);
        }
    }
    assert(joined =~= parts);
}

} // verus!
