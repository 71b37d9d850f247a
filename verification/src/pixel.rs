use vstd::prelude::*;

verus! {

/// One decoded pixel: four independent 16-bit color channels, red,
/// green, blue, alpha, in that fixed order. Equality is structural.
#[derive(Clone, Copy, Debug, Hash, PartialEq, Eq, Structural)]
pub struct Pixel {
    red: u16,
    green: u16,
    blue: u16,
    alpha: u16,
}

/// Walks the four channel values of one pixel in wire order
/// (red, green, blue, alpha).
#[derive(Clone, Copy, Debug)]
pub struct PixelIter {
    pixel: Pixel,
    curr: u8,
}

/// The `i`-th channel of `p` in wire order: red, green, blue, alpha.
pub open spec fn channel(p: Pixel, i: int) -> u16
    recommends
        0 <= i < 4,
{
    if i == 0 {
        p.spec_red()
    } else if i == 1 {
        p.spec_green()
    } else if i == 2 {
        p.spec_blue()
    } else {
        p.spec_alpha()
    }
}

impl Pixel {
    /// The red channel, as specifications see it.
    pub closed spec fn spec_red(&self) -> u16 {
        self.red
    }

    /// The green channel, as specifications see it.
    pub closed spec fn spec_green(&self) -> u16 {
        self.green
    }

    /// The blue channel, as specifications see it.
    pub closed spec fn spec_blue(&self) -> u16 {
        self.blue
    }

    /// The alpha channel, as specifications see it.
    pub closed spec fn spec_alpha(&self) -> u16 {
        self.alpha
    }

    /// Builds a pixel from its four channel values.
    pub fn new(red: u16, green: u16, blue: u16, alpha: u16) -> (p: Pixel)
        ensures
            p.spec_red() == red,
            p.spec_green() == green,
            p.spec_blue() == blue,
            p.spec_alpha() == alpha,
    {
        Pixel { red, green, blue, alpha }
    }

    /// The red channel.
    pub fn red(&self) -> (r: &u16)
        ensures
            *r == self.spec_red(),
    {
        &self.red
    }

    /// The green channel.
    pub fn green(&self) -> (r: &u16)
        ensures
            *r == self.spec_green(),
    {
        &self.green
    }

    /// The blue channel.
    pub fn blue(&self) -> (r: &u16)
        ensures
            *r == self.spec_blue(),
    {
        &self.blue
    }

    /// The alpha channel.
    pub fn alpha(&self) -> (r: &u16)
        ensures
            *r == self.spec_alpha(),
    {
        &self.alpha
    }

    /// Write access to the red channel; the other channels keep their values.
    pub fn red_mut(&mut self) -> (r: &mut u16)
        ensures
            *r == old(self).spec_red(),
            final(self).spec_red() == *final(r),
            final(self).spec_green() == old(self).spec_green(),
            final(self).spec_blue() == old(self).spec_blue(),
            final(self).spec_alpha() == old(self).spec_alpha(),
    {
        &mut self.red
    }

    /// Write access to the green channel; the other channels keep their values.
    pub fn green_mut(&mut self) -> (r: &mut u16)
        ensures
            *r == old(self).spec_green(),
            final(self).spec_green() == *final(r),
            final(self).spec_red() == old(self).spec_red(),
            final(self).spec_blue() == old(self).spec_blue(),
            final(self).spec_alpha() == old(self).spec_alpha(),
    {
        &mut self.green
    }

    /// Write access to the blue channel; the other channels keep their values.
    pub fn blue_mut(&mut self) -> (r: &mut u16)
        ensures
            *r == old(self).spec_blue(),
            final(self).spec_blue() == *final(r),
            final(self).spec_red() == old(self).spec_red(),
            final(self).spec_green() == old(self).spec_green(),
            final(self).spec_alpha() == old(self).spec_alpha(),
    {
        &mut self.blue
    }

    /// Write access to the alpha channel; the other channels keep their values.
    pub fn alpha_mut(&mut self) -> (r: &mut u16)
        ensures
            *r == old(self).spec_alpha(),
            final(self).spec_alpha() == *final(r),
            final(self).spec_red() == old(self).spec_red(),
            final(self).spec_green() == old(self).spec_green(),
            final(self).spec_blue() == old(self).spec_blue(),
    {
        &mut self.alpha
    }

    /// An iterator over the four channel values, in wire order.
    pub fn into_iter(self) -> (it: PixelIter)
        ensures
            it.spec_pixel() == self,
            it.spec_pos() == 0,
    {
        PixelIter { pixel: self, curr: 0 }
    }
}

impl From<[u16; 4]> for Pixel {
    /// Builds a pixel from the channels `[red, green, blue, alpha]`.
    fn from(i: [u16; 4]) -> (p: Pixel)
        ensures
            p.spec_red() == i[0],
            p.spec_green() == i[1],
            p.spec_blue() == i[2],
            p.spec_alpha() == i[3],
    {
        Pixel { red: i[0], green: i[1], blue: i[2], alpha: i[3] }
    }
}

impl vstd::std_specs::convert::FromSpecImpl<[u16; 4]> for Pixel {
    open spec fn obeys_from_spec() -> bool {
        true
    }

    closed spec fn from_spec(i: [u16; 4]) -> Pixel {
        Pixel { red: i[0], green: i[1], blue: i[2], alpha: i[3] }
    }
}

/// Pixel equality is structural: two pixels with equal channels are the
/// same pixel.
pub proof fn lemma_pixel_ext(a: Pixel, b: Pixel)
    requires
        a.spec_red() == b.spec_red(),
        a.spec_green() == b.spec_green(),
        a.spec_blue() == b.spec_blue(),
        a.spec_alpha() == b.spec_alpha(),
    ensures
        a == b,
{
}

impl Default for Pixel {
    /// The all-zero pixel: fully transparent black.
    fn default() -> (p: Pixel)
        ensures
            p.spec_red() == 0,
            p.spec_green() == 0,
            p.spec_blue() == 0,
            p.spec_alpha() == 0,
    {
        Pixel { red: 0, green: 0, blue: 0, alpha: 0 }
    }
}

impl PixelIter {
    /// The pixel whose channels are handed out.
    pub closed spec fn spec_pixel(&self) -> Pixel {
        self.pixel
    }

    /// How many channels were already handed out.
    pub closed spec fn spec_pos(&self) -> u8 {
        self.curr
    }

    /// The next channel value in wire order, or `None` once all four
    /// channels were handed out.
    pub fn next(&mut self) -> (r: Option<u16>)
        ensures
            old(self).spec_pos() < 4 ==> {
                &&& r == Some(channel(old(self).spec_pixel(), old(self).spec_pos() as int))
                &&& final(self).spec_pos() == old(self).spec_pos() + 1
                &&& final(self).spec_pixel() == old(self).spec_pixel()
            },
            old(self).spec_pos() >= 4 ==> r is None && *final(self) == *old(self),
    {
        match self.curr {
            0 => {
                self.curr = 1;
                Some(*self.pixel.red())
            },
            1 => {
                self.curr = 2;
                Some(*self.pixel.green())
            },
            2 => {
                self.curr = 3;
                Some(*self.pixel.blue())
            },
            3 => {
                self.curr = 4;
                Some(*self.pixel.alpha())
            },
            _ => None,
        }
    }

    /// How many channel values are still to come.
    pub fn len(&self) -> (n: usize)
        ensures
            self.spec_pos() <= 4 ==> n == 4 - self.spec_pos(),
            self.spec_pos() > 4 ==> n == 0,
    {
        if self.curr < 4 {
            4 - self.curr as usize
        } else {
            0
        }
    }
}

} // verus!
