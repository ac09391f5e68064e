use vstd::prelude::*;

use crate::sample::{fits, trunc_half, Sample};

verus! {

/// The state of a filter, as mathematical integers.
pub struct BacklashView {
    /// The last reported output.
    pub value: int,
    /// Half the width of the dead zone.
    pub half_width: int,
    /// The lower edge of the dead zone.
    pub lower: int,
    /// The upper edge of the dead zone.
    pub upper: int,
}

impl BacklashView {
    /// The full width of the dead zone, as `deadband_width` reports it.
    pub open spec fn width(self) -> int {
        self.half_width + self.half_width
    }

    /// The dead zone spans exactly its width.
    pub open spec fn band_consistent(self) -> bool {
        self.upper - self.lower == self.width()
    }

    /// The output lies inside the dead zone.
    pub open spec fn contains_value(self) -> bool {
        self.lower <= self.value <= self.upper
    }

    /// A fresh filter: output zero, half width `width / 2`, zone centred on zero.
    pub open spec fn initial(width: int) -> BacklashView {
        let h = trunc_half(width);
        BacklashView { value: 0, half_width: h, lower: -h, upper: h }
    }

    /// The zone centred on `v`; the output and the half width are kept.
    pub open spec fn centered(self, v: int) -> BacklashView {
        BacklashView { lower: v - self.half_width, upper: v + self.half_width, ..self }
    }

    /// The output overwritten with `v`; the zone is kept.
    pub open spec fn with_value(self, v: int) -> BacklashView {
        BacklashView { value: v, ..self }
    }

    /// A new half width `width / 2`, with the zone centred on the current output.
    pub open spec fn with_width(self, width: int) -> BacklashView {
        BacklashView { half_width: trunc_half(width), ..self }.centered(self.value)
    }

    /// The state after the input `x`: above the zone, the zone moves up so that
    /// its upper edge is `x`; below it, down so that its lower edge is `x`; the
    /// output sits one half width inside. Within the zone nothing changes.
    pub open spec fn step(self, x: int) -> BacklashView {
        if x > self.upper {
            BacklashView {
                value: x - self.half_width,
                half_width: self.half_width,
                lower: x - self.width(),
                upper: x,
            }
        } else if x < self.lower {
            BacklashView {
                value: x + self.half_width,
                half_width: self.half_width,
                lower: x,
                upper: x + self.width(),
            }
        } else {
            self
        }
    }
}

/// The zone is always exactly as wide as the reported width: a fresh filter
/// starts so, and feeding an input, overwriting the output, changing the width
/// and re-centring all keep it so.
pub proof fn lemma_band_width_kept(s: BacklashView, x: int, v: int, w: int)
    requires
        s.band_consistent(),
    ensures
        BacklashView::initial(w).band_consistent(),
        s.step(x).band_consistent(),
        s.with_value(v).band_consistent(),
        s.with_width(w).band_consistent(),
        s.centered(v).band_consistent(),
{
}

/// With a non-negative width the output stays inside the zone: a fresh filter
/// starts so, and feeding an input, changing the width to a non-negative one
/// and re-centring on the output all keep it so.
pub proof fn lemma_containment_kept(s: BacklashView, x: int, w: int)
    requires
        s.half_width >= 0,
        s.contains_value(),
        w >= 0,
    ensures
        BacklashView::initial(w).half_width >= 0,
        BacklashView::initial(w).contains_value(),
        s.step(x).half_width >= 0,
        s.step(x).contains_value(),
        s.with_width(w).half_width >= 0,
        s.with_width(w).contains_value(),
        s.centered(s.value).contains_value(),
{
}

/// An input inside the zone changes nothing: the output and the zone stay.
pub proof fn lemma_update_within_band(s: BacklashView, x: int)
    requires
        s.lower <= x <= s.upper,
    ensures
        s.step(x) == s,
{
}

/// Centring twice on the same value is the same as centring once.
pub proof fn lemma_center_idempotent(s: BacklashView, v: int)
    ensures
        s.centered(v).centered(v) == s.centered(v),
{
}

/// After setting the width `w`, the reported width is `w` when `w` is even,
/// and one unit nearer zero when it is odd, as integer division truncates.
pub proof fn lemma_width_round_trip(s: BacklashView, w: int)
    ensures
        w % 2 == 0 ==> s.with_width(w).width() == w,
        w % 2 != 0 && w > 0 ==> s.with_width(w).width() == w - 1,
        w % 2 != 0 && w < 0 ==> s.with_width(w).width() == w + 1,
{
}

/// A backlash filter over samples of type `T`.
#[derive(Debug)]
pub struct Backlash<T: Sample> {
    output_value: T,
    deadband_half_width: T,
    lower_border: T,
    upper_border: T,
}

impl<T: Sample> View for Backlash<T> {
    type V = BacklashView;

    closed spec fn view(&self) -> BacklashView {
        BacklashView {
            value: self.output_value.val(),
            half_width: self.deadband_half_width.val(),
            lower: self.lower_border.val(),
            upper: self.upper_border.val(),
        }
    }
}

/// Half of a value of `T`, and that half doubled or negated, are values of `T`.
proof fn lemma_half_fits<T: Sample>(w: T)
    ensures
        fits::<T>(trunc_half(w.val())),
        fits::<T>(-trunc_half(w.val())),
        fits::<T>(2 * trunc_half(w.val())),
{
    T::lemma_range(w);
}

impl<T: Sample> Backlash<T> {
    /// The zone spans exactly the reported width, and that width is a value of `T`.
    pub open spec fn wf(&self) -> bool {
        &&& self@.band_consistent()
        &&& fits::<T>(self@.width())
    }

    /// A filter with output zero and a zone of half width `deadband_width / 2`
    /// centred on zero.
    pub fn new(deadband_width: T) -> (r: Self)
        ensures
            r.wf(),
            r@ == BacklashView::initial(deadband_width.val()),
    {
        let zero = T::zero();
        let mut instance = Backlash {
            output_value: zero,
            deadband_half_width: zero,
            lower_border: zero,
            upper_border: zero,
        };
        proof {
            lemma_half_fits(deadband_width);
        }
        instance.set_deadband_width(deadband_width);
        instance
    }

    /// Feeds the input `value` and returns the output: the zone follows an
    /// input that leaves it, and stays put otherwise.
    pub fn update(&mut self, value: T) -> (r: T)
        requires
            old(self).wf(),
            value.val() > old(self)@.upper ==> fits::<T>(value.val() - old(self)@.width()),
            value.val() < old(self)@.lower ==> fits::<T>(value.val() + old(self)@.width()),
        ensures
            final(self).wf(),
            final(self)@ == old(self)@.step(value.val()),
            r.val() == final(self)@.value,
    {
        proof {
            T::lemma_range(value);
        }
        if self.upper_border.less_than(value) {
            let width = self.deadband_half_width.plus(self.deadband_half_width);
            self.lower_border = value.minus(width);
            self.upper_border = value;
            self.output_value = value.minus(self.deadband_half_width);
        } else if value.less_than(self.lower_border) {
            let width = self.deadband_half_width.plus(self.deadband_half_width);
            self.lower_border = value;
            self.upper_border = value.plus(width);
            self.output_value = value.plus(self.deadband_half_width);
        }
        self.output_value
    }

    /// Overwrites the output with `value`; the zone is left as it is, so the
    /// output may then lie outside it.
    pub fn set_value(&mut self, value: T)
        requires
            old(self).wf(),
        ensures
            final(self).wf(),
            final(self)@ == old(self)@.with_value(value.val()),
    {
        self.output_value = value;
    }

    /// The last output.
    pub fn value(&self) -> (r: T)
        ensures
            r.val() == self@.value,
    {
        self.output_value
    }

    /// Sets the half width to `deadband_width / 2` and centres the zone on the
    /// current output.
    pub fn set_deadband_width(&mut self, deadband_width: T)
        requires
            fits::<T>(old(self)@.value - trunc_half(deadband_width.val())),
            fits::<T>(old(self)@.value + trunc_half(deadband_width.val())),
        ensures
            final(self).wf(),
            final(self)@ == old(self)@.with_width(deadband_width.val()),
    {
        proof {
            lemma_half_fits(deadband_width);
        }
        self.deadband_half_width = deadband_width.halve();
        let center = self.output_value;
        self.center_borders(center);
    }

    /// The width of the zone: twice the half width.
    pub fn deadband_width(&self) -> (r: T)
        requires
            self.wf(),
        ensures
            r.val() == self@.width(),
    {
        self.deadband_half_width.plus(self.deadband_half_width)
    }

    /// The edges of the zone, as `(lower, upper)`.
    pub fn borders(&self) -> (r: (T, T))
        ensures
            r.0.val() == self@.lower,
            r.1.val() == self@.upper,
    {
        (self.lower_border, self.upper_border)
    }

    /// Centres the zone on `value`, leaving the output as it is.
    pub fn center_borders(&mut self, value: T)
        requires
            fits::<T>(old(self)@.width()),
            fits::<T>(value.val() - old(self)@.half_width),
            fits::<T>(value.val() + old(self)@.half_width),
        ensures
            final(self).wf(),
            final(self)@ == old(self)@.centered(value.val()),
    {
        self.lower_border = value.minus(self.deadband_half_width);
        self.upper_border = value.plus(self.deadband_half_width);
    }
}

} // verus!
