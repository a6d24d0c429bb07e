//! The Blinkt strip of APA102 LEDs, driven by bit-banging a data pin and a
//! clock pin.
//!
//! `Blinkt` keeps the pixel buffer and encodes the frames that show it: a
//! frame is the level of the data pin at each clock pulse. Frames that are
//! due wait in the driver, oldest first, until the owner of the two pins takes
//! them with `take_frames`, and the owner of
//! the two pins clocks it out.

use vstd::prelude::*;
use crate::level::{round_scaled, scaled_round};
use crate::robot_traits::Led;

verus! {

/// The GPIO line of the data pin.
pub const DAT: u64 = 23;
/// The GPIO line of the clock pin.
pub const CLK: u64 = 24;
/// The number of pixels on the strip.
pub const NUM_PIXELS: usize = 8;
/// The brightness that every pixel starts with, on the 5-bit scale.
pub const BRIGHTNESS: u8 = 7;
/// Clock pulses, with the data pin low, that start a frame.
pub const SOF_CLOCKS: usize = 32;
/// Clock pulses, with the data pin low, that end a frame. Some chips of the
/// strip need 36 to latch, beyond the number of pixels / 2 that others need.
pub const EOF_CLOCKS: usize = 36;
/// The marker in the high three bits of a pixel record's first byte.
pub const RECORD_MARK: u8 = 0b1110_0000;

/// Red, green, blue and 5-bit brightness.
pub type Pixel = (u8, u8, u8, u8);

/// A brightness level (units of `FULL_SCALE`) on the 5-bit scale:
/// `round(31 * level) & 0b11111`.
pub open spec fn brightness_bits(level: int) -> u8 {
    (scaled_round(level, 31) % 32) as u8
}

/// The eight bits of `b`, most significant first.
pub open spec fn byte_bits(b: u8) -> Seq<bool> {
    Seq::new(8, |i: int| (b >> ((7 - i) as u8)) & 1u8 == 1u8)
}

/// The four bytes of a pixel record: mark and brightness, blue, green, red.
pub open spec fn pixel_bits(p: Pixel) -> Seq<bool> {
    byte_bits(RECORD_MARK | p.3) + byte_bits(p.2) + byte_bits(p.1) + byte_bits(p.0)
}

/// The records of `ps`, in index order.
pub open spec fn pixels_bits(ps: Seq<Pixel>) -> Seq<bool>
    decreases ps.len(),
{
    if ps.len() == 0 {
        Seq::empty()
    } else {
        pixels_bits(ps.drop_last()) + pixel_bits(ps.last())
    }
}

/// The whole frame for `ps`: the start pulses, the records, the end pulses.
pub open spec fn frame_bits(ps: Seq<Pixel>) -> Seq<bool> {
    Seq::new(SOF_CLOCKS as nat, |i: int| false) + pixels_bits(ps) + Seq::new(
        EOF_CLOCKS as nat,
        |i: int| false,
    )
}

/// `ps` with every colour set to `(r, g, b)` and every brightness kept.
pub open spec fn recoloured(ps: Seq<Pixel>, r: u8, g: u8, b: u8) -> Seq<Pixel> {
    Seq::new(ps.len(), |i: int| (r, g, b, ps[i].3))
}

/// Each pixel record takes 32 clock pulses.
pub proof fn lemma_pixels_bits_len(ps: Seq<Pixel>)
    ensures
        pixels_bits(ps).len() == 32 * ps.len(),
    decreases ps.len(),
{
    if ps.len() > 0 {
        lemma_pixels_bits_len(ps.drop_last());
    }
}

/// A frame for `n` pixels takes `32 + 32 * n + 36` clock pulses.
pub proof fn lemma_frame_len(ps: Seq<Pixel>)
    ensures
        frame_bits(ps).len() == SOF_CLOCKS + 32 * ps.len() + EOF_CLOCKS,
{
    lemma_pixels_bits_len(ps);
}

/// Appends the bits of `byte`, most significant first.
fn write_byte(out: &mut Vec<bool>, byte: u8)
    ensures
        final(out)@ == old(out)@ + byte_bits(byte),
{
    let ghost start = out@;
    let mut i: u8 = 0;
    while i < 8
        invariant
            i <= 8,
            out@ == start + byte_bits(byte).take(i as int),
        decreases 8 - i,
    {
        let bit = (byte >> (7 - i)) & 1u8 == 1u8;
        proof {
            assert(byte_bits(byte).take(i as int + 1) =~= byte_bits(byte).take(i as int).push(bit));
        }
        out.push(bit);
        i = i + 1;
    }
    proof {
        assert(byte_bits(byte).take(8) =~= byte_bits(byte));
    }
}

/// Appends `n` clock pulses with the data pin low.
fn clocks(out: &mut Vec<bool>, n: usize)
    ensures
        final(out)@ == old(out)@ + Seq::new(n as nat, |i: int| false),
{
    let ghost start = out@;
    let mut i: usize = 0;
    while i < n
        invariant
            i <= n,
            out@ == start + Seq::new(i as nat, |k: int| false),
        decreases n - i,
    {
        out.push(false);
        i = i + 1;
        proof {
            assert(Seq::new(i as nat, |k: int| false) =~= Seq::new((i - 1) as nat, |k: int| false).push(false));
        }
    }
}

/// The pixel buffer of one strip, and the frames that are due on it.
pub struct Blinkt {
    pixels: Vec<Pixel>,
    frames: Vec<Vec<bool>>,
}

impl View for Blinkt {
    type V = Seq<Pixel>;

    closed spec fn view(&self) -> Seq<Pixel> {
        self.pixels@
    }
}

impl Blinkt {
    /// The frames that are due, oldest first.
    pub closed spec fn frames(&self) -> Seq<Seq<bool>> {
        self.frames@.map_values(|f: Vec<bool>| f@)
    }

    /// Hands over the frames that are due, in order, and forgets them.
    pub fn take_frames(&mut self) -> (r: Vec<Vec<bool>>)
        ensures
            r@.map_values(|f: Vec<bool>| f@) == old(self).frames(),
            final(self).frames() == Seq::<Seq<bool>>::empty(),
            final(self)@ == old(self)@,
    {
        let mut taken = Vec::new();
        std::mem::swap(&mut taken, &mut self.frames);
        proof {
            assert(self.frames@.map_values(|f: Vec<bool>| f@) =~= Seq::<Seq<bool>>::empty());
        }
        taken
    }

    /// Queues the frame that shows the buffer.
    fn queue_show(&mut self)
        ensures
            final(self).frames() == old(self).frames().push(frame_bits(old(self)@)),
            final(self)@ == old(self)@,
    {
        let frame = self.show();
        let ghost bits = frame@;
        let ghost before = self.frames@;
        self.frames.push(frame);
        proof {
            assert(self.frames@.map_values(|f: Vec<bool>| f@) =~= before.map_values(
                |f: Vec<bool>| f@,
            ).push(bits));
        }
    }

    /// The buffer holds `NUM_PIXELS` pixels, each with a 5-bit brightness.
    pub open spec fn wf(&self) -> bool {
        &&& self@.len() == NUM_PIXELS
        &&& forall|i: int| 0 <= i < self@.len() ==> #[trigger] self@[i].3 < 32
    }

    /// A dark strip: every pixel `(0, 0, 0, BRIGHTNESS)`, no frame due.
    pub fn new() -> (r: Blinkt)
        ensures
            r.wf(),
            r.frames() == Seq::<Seq<bool>>::empty(),
            r@ == Seq::new(NUM_PIXELS as nat, |i: int| (0u8, 0u8, 0u8, BRIGHTNESS)),
    {
        let mut pixels: Vec<Pixel> = Vec::new();
        let mut i: usize = 0;
        while i < NUM_PIXELS
            invariant
                i <= NUM_PIXELS,
                pixels@ == Seq::new(i as nat, |k: int| (0u8, 0u8, 0u8, BRIGHTNESS)),
            decreases NUM_PIXELS - i,
        {
            pixels.push((0, 0, 0, BRIGHTNESS));
            i = i + 1;
            proof {
                assert(pixels@ =~= Seq::new(i as nat, |k: int| (0u8, 0u8, 0u8, BRIGHTNESS)));
            }
        }
        let frames: Vec<Vec<bool>> = Vec::new();
        proof {
            assert(frames@.map_values(|f: Vec<bool>| f@) =~= Seq::<Seq<bool>>::empty());
        }
        Blinkt { pixels, frames }
    }

    /// The frame that shows the buffer: `SOF_CLOCKS` low pulses, then a record
    /// per pixel in index order, then `EOF_CLOCKS` low pulses; for `n` pixels
    /// `32 + 32 * n + 36` clock pulses in all.
    pub fn show(&self) -> (frame: Vec<bool>)
        ensures
            frame@ == frame_bits(self@),
            frame@.len() == SOF_CLOCKS + 32 * self@.len() + EOF_CLOCKS,
    {
        let mut out: Vec<bool> = Vec::new();
        clocks(&mut out, SOF_CLOCKS);
        let ghost sof = Seq::new(SOF_CLOCKS as nat, |i: int| false);
        let mut i: usize = 0;
        while i < self.pixels.len()
            invariant
                i <= self@.len(),
                self@ == self.pixels@,
                out@ == sof + pixels_bits(self@.take(i as int)),
            decreases self@.len() - i,
        {
            let (r, g, b, brightness) = self.pixels[i];
            write_byte(&mut out, RECORD_MARK | brightness);
            write_byte(&mut out, b);
            write_byte(&mut out, g);
            write_byte(&mut out, r);
            proof {
                assert(self@.take(i as int + 1).drop_last() =~= self@.take(i as int));
            }
            i = i + 1;
        }
        proof {
            assert(self@.take(i as int) =~= self@);
        }
        clocks(&mut out, EOF_CLOCKS);
        proof {
            lemma_frame_len(self@);
        }
        out
    }

    /// Sets the colour of every pixel and keeps each one's brightness.
    pub fn set_all(&mut self, r: u8, g: u8, b: u8)
        ensures
            final(self)@ == recoloured(old(self)@, r, g, b),
            old(self).wf() ==> final(self).wf(),
            final(self).frames() == old(self).frames(),
    {
        let ghost start = self@;
        let ghost start_frames = self.frames@;
        let mut i: usize = 0;
        while i < self.pixels.len()
            invariant
                i <= self@.len(),
                self@.len() == start.len(),
                forall|k: int| 0 <= k < i ==> #[trigger] self@[k] == (r, g, b, start[k].3),
                forall|k: int| i <= k < self@.len() ==> #[trigger] self@[k] == start[k],
                self.frames@ == start_frames,
            decreases self@.len() - i,
        {
            let brightness = self.pixels[i].3;
            self.pixels.set(i, (r, g, b, brightness));
            i = i + 1;
        }
        proof {
            assert(self@ =~= recoloured(start, r, g, b));
        }
    }

    /// Sets every pixel to `(0, 0, 0)` and keeps each one's brightness.
    pub fn clear(&mut self)
        ensures
            final(self)@ == recoloured(old(self)@, 0, 0, 0),
            old(self).wf() ==> final(self).wf(),
            final(self).frames() == old(self).frames(),
    {
        self.set_all(0, 0, 0);
    }

    /// The colour and 5-bit brightness of pixel `x`.
    pub fn get_pixel(&self, x: usize) -> (r: Pixel)
        requires
            x < self@.len(),
        ensures
            r == self@[x as int],
    {
        self.pixels[x]
    }

    /// Sets the colour of pixel `x`. With no brightness the pixel keeps the
    /// one it has; with a level (units of `FULL_SCALE`) it takes
    /// `round(31 * level) & 0b11111`.
    pub fn set_pixel(&mut self, x: usize, r: u8, g: u8, b: u8, brightness: Option<u32>)
        requires
            x < old(self)@.len(),
        ensures
            final(self)@ == old(self)@.update(
                x as int,
                (
                    r,
                    g,
                    b,
                    match brightness {
                        Some(level) => brightness_bits(level as int),
                        None => old(self)@[x as int].3,
                    },
                ),
            ),
            old(self).wf() ==> final(self).wf(),
            final(self).frames() == old(self).frames(),
    {
        let kept = match brightness {
            Some(level) => (round_scaled(level, 31) % 32) as u8,
            None => self.pixels[x].3,
        };
        self.pixels.set(x, (r, g, b, kept));
    }

    /// The shutdown path: whatever frames were still due are dropped, the
    /// buffer is cleared, and exactly the frame that shows it is due.
    pub fn teardown(&mut self)
        ensures
            final(self)@ == recoloured(old(self)@, 0, 0, 0),
            final(self).frames() == seq![frame_bits(final(self)@)],
            old(self).wf() ==> final(self).wf(),
    {
        self.frames = Vec::new();
        proof {
            assert(self.frames@.map_values(|f: Vec<bool>| f@) =~= Seq::<Seq<bool>>::empty());
        }
        self.clear();
        self.queue_show();
        proof {
            assert(Seq::<Seq<bool>>::empty().push(frame_bits(self@)) =~= seq![frame_bits(self@)]);
        }
    }
}

impl Led for Blinkt {
    /// Every pixel white, and the frame that shows it due.
    fn led_on(&mut self)
        ensures
            final(self)@ == recoloured(old(self)@, 255, 255, 255),
            final(self).frames() == old(self).frames().push(frame_bits(final(self)@)),
            old(self).wf() ==> final(self).wf(),
    {
        self.set_all(255, 255, 255);
        self.queue_show();
    }

    /// Every pixel dark, and the frame that shows it due.
    fn led_off(&mut self)
        ensures
            final(self)@ == recoloured(old(self)@, 0, 0, 0),
            final(self).frames() == old(self).frames().push(frame_bits(final(self)@)),
            old(self).wf() ==> final(self).wf(),
    {
        self.clear();
        self.queue_show();
    }
}

} // verus!
