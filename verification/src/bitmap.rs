//! A bitmap held on the CPU: a rectangle of packed RGBA pixels that its owner
//! edits freely and that a renderer reads through a shared handle.
//!
//! The owner holds a [`Bitmap`]; the renderer holds the [`SurfaceInner`] behind
//! it, for the length of a frame at most. A write through the owner's handle
//! never waits for the renderer: where the renderer still holds the surface,
//! the owner goes on with a copy.

use crate::pixels::{cast_slice, cast_slice_mut, copy_from_slice, memory_bytes, pixels_of};
use crate::pixels::lemma_bytes_round_trip;
use std::sync::atomic::{AtomicBool, Ordering};
use std::sync::Arc;
use vstd::prelude::*;

verus! {

/// Why a bitmap could not be made or changed.
#[derive(Debug, Clone, Copy, PartialEq, Eq)]
pub enum SurfaceError {
    /// A width or a height of zero was asked for.
    InvalidDimensions,
    /// The bytes handed in are not four for each pixel.
    SizeMismatch,
}

/// What a surface is to its readers: its size and its pixels, row after row.
pub struct Raster {
    pub width: nat,
    pub height: nat,
    pub pixels: Seq<u32>,
}

impl Raster {
    /// Both sides are positive and there is one pixel for each cell.
    pub open spec fn wf(self) -> bool {
        &&& self.width > 0
        &&& self.height > 0
        &&& self.pixels.len() == self.width * self.height
    }

    /// The raw form: the bytes of the pixels as they lie in memory.
    pub open spec fn bytes(self) -> Seq<u8> {
        memory_bytes(self.pixels)
    }

    /// A surface of the given size with every pixel zero.
    pub open spec fn blank(width: nat, height: nat) -> Raster {
        Raster { width, height, pixels: Seq::new(width * height, |i: int| 0u32) }
    }

    /// The same surface with other pixels.
    pub open spec fn with_pixels(self, pixels: Seq<u32>) -> Raster {
        Raster { pixels, ..self }
    }
}

/// What resizing a run of pixels to `len` leaves: the first `len` of them, or
/// all of them followed by zeros.
pub open spec fn resized(pixels: Seq<u32>, len: nat) -> Seq<u32> {
    if len <= pixels.len() {
        pixels.subrange(0, len as int)
    } else {
        pixels + Seq::new((len - pixels.len()) as nat, |i: int| 0u32)
    }
}

/// Whether an image of this size can be held at all: its bytes, four for each
/// pixel, must not be more than one allocation may hold on this machine.
pub open spec fn fits_in_memory(width: u32, height: u32) -> bool {
    width as int * height as int * 4 <= isize::MAX as int
}

/// A borrowed look at a surface: its pixels and its size.
#[derive(Clone, Copy)]
pub struct PixmapRef<'a> {
    pub buffer: &'a [u32],
    pub width: u32,
    pub height: u32,
}

/// A borrowed look at a surface whose pixels are open to writing.
pub struct PixmapMut<'a> {
    pub buffer: &'a mut [u32],
    pub width: u32,
    pub height: u32,
}

/// The pixels of an image together with a flag that says whether they were
/// written since a reader last took notice.
///
/// The flag is an atomic: a renderer that shares the surface tests and clears
/// it while the owner may be setting it. Nothing is stated here of the value
/// it holds at any moment.
#[derive(Debug)]
pub struct SurfaceInner {
    buffer: Vec<u32>,
    width: u32,
    height: u32,
    dirty: AtomicBool,
}

impl View for SurfaceInner {
    type V = Raster;

    closed spec fn view(&self) -> Raster {
        Raster { width: self.width as nat, height: self.height as nat, pixels: self.buffer@ }
    }
}

/// A flag that starts out holding `set`.
///
/// The flag is made by `AtomicBool::new` of std. What an atomic holds is no
/// part of its value here, as every holder of the surface may change it, so
/// nothing is stated of the result.
fn fresh_flag(set: bool) -> AtomicBool {
    AtomicBool::new(set)
}

/// Whether the pixels are due to be handed on: when the caller insists, or
/// when the test-and-clear of the flag found it set.
pub fn upload_due(force: bool, exchange: Result<bool, bool>) -> (due: bool)
    ensures
        due == (force || exchange == Ok::<bool, bool>(true)),
{
    match exchange {
        Ok(true) => true,
        _ => force,
    }
}

impl SurfaceInner {
    fn mark(&self) {
        self.dirty.store(true, Ordering::Relaxed);
    }

    /// Clears the flag if it is set, in one step, and says what was found.
    ///
    /// The answer is that of `AtomicBool::compare_exchange` of std and rests on
    /// what the flag held at that moment, which other holders of the surface
    /// decide as much as this one: nothing is stated of it. What follows from
    /// each answer is for [`upload_due`] to say.
    fn test_and_clear(&self) -> Result<bool, bool> {
        self.dirty.compare_exchange(true, false, Ordering::Relaxed, Ordering::Relaxed)
    }

    /// The width in pixels.
    pub fn width(&self) -> (w: u32)
        ensures
            w == self@.width,
    {
        self.width
    }

    /// The height in pixels.
    pub fn height(&self) -> (h: u32)
        ensures
            h == self@.height,
    {
        self.height
    }

    /// The pixels, row after row.
    pub fn buffer(&self) -> (pixels: &[u32])
        ensures
            pixels@ == self@.pixels,
    {
        self.buffer.as_slice()
    }

    /// The pixels, open to writing. The surface counts as modified from this
    /// call on, whether or not anything is written.
    pub fn buffer_mut(&mut self) -> (pixels: &mut [u32])
        ensures
            pixels@ == old(self)@.pixels,
            final(self)@ == old(self)@.with_pixels(final(pixels)@),
    {
        self.mark();
        self.buffer.as_mut_slice()
    }

    /// The pixels as bytes, four for each pixel, as they lie in memory.
    pub fn raw(&self) -> (bytes: &[u8])
        ensures
            bytes@ == self@.bytes(),
    {
        cast_slice(self.buffer())
    }

    /// The pixels as bytes, open to writing. The surface counts as modified
    /// from this call on, whether or not anything is written.
    pub fn raw_mut(&mut self) -> (bytes: &mut [u8])
        ensures
            bytes@ == old(self)@.bytes(),
            final(self)@ == old(self)@.with_pixels(pixels_of(final(bytes)@)),
    {
        cast_slice_mut(self.buffer_mut())
    }

    /// Hands the size and the bytes of the surface to `update` if the surface
    /// was modified since the last such call, and takes notice: a second call
    /// with no write in between does not run its `update`.
    ///
    /// Whether `update` runs rests on the flag alone, which other holders of
    /// the surface may set or clear at any time; when it runs, it is with the
    /// width, the height and the raw bytes of this surface.
    pub fn run_if_modified<F: FnOnce(u32, u32, &[u8])>(&self, update: F)
        requires
            forall|width: u32, height: u32, bytes: &[u8]|
                width == self@.width && height == self@.height && bytes@ == self@.bytes()
                    ==> #[trigger] call_requires(update, (width, height, bytes)),
    {
        let exchange = self.test_and_clear();
        if upload_due(false, exchange) {
            update(self.width, self.height, self.raw());
        }
    }

    /// Hands a look at the surface to `update` if the surface was modified
    /// since the last such call or if `other` is set. The call takes notice
    /// either way.
    pub fn run_if_modified_or<F: FnOnce(PixmapRef)>(&self, other: bool, update: F)
        requires
            forall|pixmap: PixmapRef|
                pixmap.buffer@ == self@.pixels && pixmap.width == self@.width && pixmap.height
                    == self@.height ==> #[trigger] call_requires(update, (pixmap,)),
    {
        let exchange = self.test_and_clear();
        if upload_due(other, exchange) {
            let pixmap = PixmapRef { buffer: self.buffer(), width: self.width, height: self.height };
            update(pixmap);
        }
    }
}

impl Clone for SurfaceInner {
    /// A copy with pixels of its own. The copy counts as modified exactly if
    /// this surface did at the moment it was read.
    fn clone(&self) -> (copy: Self)
        ensures
            copy@ == self@,
    {
        let dirty = self.dirty.load(Ordering::Relaxed);
        SurfaceInner {
            buffer: self.buffer.clone(),
            width: self.width,
            height: self.height,
            dirty: fresh_flag(dirty),
        }
    }
}

/// An image held on the CPU that a texture canvas can display. It can be
/// edited and resized freely; cloning one makes a copy with pixels of its own.
pub struct Bitmap(Arc<SurfaceInner>);

impl View for Bitmap {
    type V = Raster;

    closed spec fn view(&self) -> Raster {
        self.0@
    }
}

/// Exclusive access to the surface behind a handle.
///
/// Calls `Arc::make_mut` of std. Where the handle is the only one, the
/// reference is to the surface it holds; where it is not, the surface is
/// cloned into a new allocation first, which the handle holds from then on.
/// The clone is [`SurfaceInner::clone`], which keeps size and pixels. Either
/// way what is read through the reference is what the handle held, and what is
/// written through it is what the handle holds afterwards.
#[verifier::external_body]
fn make_mut(handle: &mut Arc<SurfaceInner>) -> (inner: &mut SurfaceInner)
    ensures
        inner@ == old(handle)@,
        final(handle)@ == final(inner)@,
{
    Arc::make_mut(handle)
}

/// An empty image of the given size.
pub fn bitmap(width: u32, height: u32) -> (made: Result<Bitmap, SurfaceError>)
    requires
        fits_in_memory(width, height),
    ensures
        match made {
            Ok(image) => width > 0 && height > 0 && image@ == Raster::blank(
                width as nat,
                height as nat,
            ),
            Err(refused) => refused == SurfaceError::InvalidDimensions && (width == 0 || height
                == 0),
        },
{
    Bitmap::new(width, height)
}

impl Bitmap {
    /// An image of the given size with every pixel zero. A width or a height
    /// of zero is refused.
    pub fn new(width: u32, height: u32) -> (made: Result<Bitmap, SurfaceError>)
        requires
            fits_in_memory(width, height),
        ensures
            match made {
                Ok(image) => width > 0 && height > 0 && image@ == Raster::blank(
                    width as nat,
                    height as nat,
                ),
                Err(refused) => refused == SurfaceError::InvalidDimensions && (width == 0 || height
                    == 0),
            },
            made is Ok ==> made->Ok_0@.wf() && made->Ok_0@.pixels.len() == width * height,
    {
        if width == 0 || height == 0 {
            return Err(SurfaceError::InvalidDimensions);
        }
        let len: usize = width as usize * height as usize;
        let buffer: Vec<u32> = vec![0u32; len];
        assert(buffer@ =~= Raster::blank(width as nat, height as nat).pixels);
        Ok(Bitmap(Arc::new(SurfaceInner { buffer, width, height, dirty: fresh_flag(false) })))
    }

    /// An image of the given size that holds `data`, four bytes for each pixel
    /// as they lie in memory. Bytes that are not four for each pixel are
    /// refused, and after that a width or a height of zero.
    pub fn new_init(width: u32, height: u32, data: &[u8]) -> (made: Result<Bitmap, SurfaceError>)
        requires
            fits_in_memory(width, height),
        ensures
            match made {
                Ok(image) => {
                    &&& data@.len() == width as int * height as int * 4
                    &&& width > 0 && height > 0
                    &&& image@ == Raster::blank(width as nat, height as nat).with_pixels(
                        pixels_of(data@),
                    )
                    &&& image@.bytes() == data@
                },
                Err(SurfaceError::SizeMismatch) => data@.len() != width as int * height as int * 4,
                Err(SurfaceError::InvalidDimensions) => data@.len() == 0 && (width == 0 || height
                    == 0),
            },
    {
        let len: usize = width as usize * height as usize;
        if data.len() % 4 != 0 || data.len() / 4 != len {
            return Err(SurfaceError::SizeMismatch);
        }
        match Bitmap::new(width, height) {
            Ok(mut this) => {
                let _ = this.update(data);
                Ok(this)
            },
            Err(refused) => Err(refused),
        }
    }

    /// Gives the image another size. Nothing happens where the size is the one
    /// it has; a width or a height of zero is refused and leaves the image as
    /// it was. Otherwise the run of pixels is cut or filled up with zeros to
    /// the new length: rows are not kept in place.
    pub fn resize(&mut self, width: u32, height: u32) -> (done: Result<(), SurfaceError>)
        requires
            old(self)@.wf(),
            fits_in_memory(width, height),
        ensures
            match done {
                Ok(()) => width > 0 && height > 0 && final(self)@ == (Raster {
                    width: width as nat,
                    height: height as nat,
                    pixels: resized(old(self)@.pixels, (width * height) as nat),
                }),
                Err(refused) => refused == SurfaceError::InvalidDimensions && (width == 0 || height
                    == 0) && final(self)@ == old(self)@,
            },
            final(self)@.wf(),
    {
        if width == self.width() && height == self.height() {
            assert(resized(self@.pixels, (width * height) as nat) =~= self@.pixels);
            return Ok(());
        }
        if width == 0 || height == 0 {
            return Err(SurfaceError::InvalidDimensions);
        }
        let len: usize = width as usize * height as usize;
        let this = make_mut(&mut self.0);
        let ghost before = this.buffer@;
        this.buffer.resize(len, 0u32);
        this.width = width;
        this.height = height;
        assert(this.buffer@ =~= resized(before, len as nat));
        Ok(())
    }

    /// The width in pixels.
    pub fn width(&self) -> (w: u32)
        ensures
            w == self@.width,
    {
        self.0.width()
    }

    /// The height in pixels.
    pub fn height(&self) -> (h: u32)
        ensures
            h == self@.height,
    {
        self.0.height()
    }

    /// The pixels as bytes, four for each pixel, as they lie in memory.
    pub fn raw(&self) -> (bytes: &[u8])
        ensures
            bytes@ == self@.bytes(),
    {
        self.0.raw()
    }

    /// The pixels as bytes, open to writing. The image counts as modified from
    /// this call on, whether or not anything is written.
    pub fn raw_mut(&mut self) -> (bytes: &mut [u8])
        ensures
            bytes@ == old(self)@.bytes(),
            final(self)@ == old(self)@.with_pixels(pixels_of(final(bytes)@)),
    {
        make_mut(&mut self.0).raw_mut()
    }

    /// The pixels, row after row.
    pub fn buffer(&self) -> (pixels: &[u32])
        ensures
            pixels@ == self@.pixels,
    {
        self.0.buffer()
    }

    /// The pixels, open to writing. The image counts as modified from this
    /// call on, whether or not anything is written.
    pub fn buffer_mut(&mut self) -> (pixels: &mut [u32])
        ensures
            pixels@ == old(self)@.pixels,
            final(self)@ == old(self)@.with_pixels(final(pixels)@),
    {
        make_mut(&mut self.0).buffer_mut()
    }

    /// Replaces every pixel by what `data` holds, four bytes for each pixel as
    /// they lie in memory, and counts the image as modified. Bytes that are
    /// not four for each pixel are refused and leave the image as it was.
    pub fn update(&mut self, data: &[u8]) -> (done: Result<(), SurfaceError>)
        requires
            old(self)@.wf(),
        ensures
            match done {
                Ok(()) => {
                    &&& data@.len() == old(self)@.width * old(self)@.height * 4
                    &&& final(self)@ == old(self)@.with_pixels(pixels_of(data@))
                    &&& final(self)@.bytes() == data@
                },
                Err(refused) => {
                    &&& refused == SurfaceError::SizeMismatch
                    &&& data@.len() != old(self)@.width * old(self)@.height * 4
                    &&& final(self)@ == old(self)@
                },
            },
            final(self)@.wf(),
    {
        if data.len() % 4 != 0 || data.len() / 4 != self.buffer().len() {
            return Err(SurfaceError::SizeMismatch);
        }
        proof {
            lemma_bytes_round_trip(data@);
        }
        copy_from_slice(self.raw_mut(), data);
        Ok(())
    }

    /// A look at the image: its pixels and its size.
    pub fn pixmap_ref(&self) -> (pixmap: PixmapRef<'_>)
        ensures
            pixmap.buffer@ == self@.pixels,
            pixmap.width == self@.width,
            pixmap.height == self@.height,
    {
        PixmapRef { buffer: self.buffer(), width: self.width(), height: self.height() }
    }

    /// A look at the image with its pixels open to writing. The image counts
    /// as modified from this call on, whether or not anything is written.
    pub fn pixmap_mut(&mut self) -> (pixmap: PixmapMut<'_>)
        ensures
            pixmap.buffer@ == old(self)@.pixels,
            pixmap.width == old(self)@.width,
            pixmap.height == old(self)@.height,
            final(self)@ == old(self)@.with_pixels(final(pixmap.buffer)@),
    {
        let width = self.width();
        let height = self.height();
        PixmapMut { width, height, buffer: self.buffer_mut() }
    }

    /// The shared surface behind this image, for a renderer to keep a weak
    /// reference to.
    pub fn surface(&self) -> (shared: &Arc<SurfaceInner>)
        ensures
            shared@ == self@,
    {
        &self.0
    }
}

impl Clone for Bitmap {
    /// A copy with pixels of its own, which shares nothing with this image.
    fn clone(&self) -> (copy: Self)
        ensures
            copy@ == self@,
    {
        let inner: &SurfaceInner = &self.0;
        Bitmap(Arc::new(inner.clone()))
    }
}

} // verus!
