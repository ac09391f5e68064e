use vstd::prelude::*;

verus! {

/// `v / 2` rounded toward zero, as Rust's integer division does it.
pub open spec fn trunc_half(v: int) -> int {
    if v >= 0 {
        v / 2
    } else {
        -((-v) / 2)
    }
}

/// Whether `v` is a value of the sample type `T`.
pub open spec fn fits<T: Sample>(v: int) -> bool {
    T::min_int() <= v <= T::max_int()
}

/// A signed integer type that the filter can run on.
///
/// Each value stands for the mathematical integer `val()`; the operations are
/// exact wherever the result is a value of the type.
pub trait Sample: Copy + Sized {
    /// The integer this value stands for.
    spec fn val(self) -> int;

    /// The least value of the type.
    spec fn min_int() -> int;

    /// The greatest value of the type.
    spec fn max_int() -> int;

    /// Every value lies in `[min_int(), max_int()]`, a two's-complement range.
    proof fn lemma_range(x: Self)
        ensures
            Self::min_int() <= x.val() <= Self::max_int(),
            Self::min_int() + Self::max_int() == -1,
            Self::max_int() >= 1,
    ;

    /// The value zero.
    fn zero() -> (r: Self)
        ensures
            r.val() == 0,
    ;

    /// The sum `self + o`.
    fn plus(self, o: Self) -> (r: Self)
        requires
            Self::min_int() <= self.val() + o.val() <= Self::max_int(),
        ensures
            r.val() == self.val() + o.val(),
    ;

    /// The difference `self - o`.
    fn minus(self, o: Self) -> (r: Self)
        requires
            Self::min_int() <= self.val() - o.val() <= Self::max_int(),
        ensures
            r.val() == self.val() - o.val(),
    ;

    /// `self / 2`, rounded toward zero.
    fn halve(self) -> (r: Self)
        ensures
            r.val() == trunc_half(self.val()),
    ;

    /// Whether `self < o`.
    fn less_than(self, o: Self) -> (r: bool)
        ensures
            r == (self.val() < o.val()),
    ;
}

impl Sample for i8 {
    open spec fn val(self) -> int {
        self as int
    }

    open spec fn min_int() -> int {
        i8::MIN as int
    }

    open spec fn max_int() -> int {
        i8::MAX as int
    }

    proof fn lemma_range(x: i8) {
    }

    fn zero() -> (r: i8) {
        0
    }

    fn plus(self, o: i8) -> (r: i8) {
        self + o
    }

    fn minus(self, o: i8) -> (r: i8) {
        self - o
    }

    fn halve(self) -> (r: i8) {
        self / 2
    }

    fn less_than(self, o: i8) -> (r: bool) {
        self < o
    }
}

impl Sample for i16 {
    open spec fn val(self) -> int {
        self as int
    }

    open spec fn min_int() -> int {
        i16::MIN as int
    }

    open spec fn max_int() -> int {
        i16::MAX as int
    }

    proof fn lemma_range(x: i16) {
    }

    fn zero() -> (r: i16) {
        0
    }

    fn plus(self, o: i16) -> (r: i16) {
        self + o
    }

    fn minus(self, o: i16) -> (r: i16) {
        self - o
    }

    fn halve(self) -> (r: i16) {
        self / 2
    }

    fn less_than(self, o: i16) -> (r: bool) {
        self < o
    }
}

impl Sample for i32 {
    open spec fn val(self) -> int {
        self as int
    }

    open spec fn min_int() -> int {
        i32::MIN as int
    }

    open spec fn max_int() -> int {
        i32::MAX as int
    }

    proof fn lemma_range(x: i32) {
    }

    fn zero() -> (r: i32) {
        0
    }

    fn plus(self, o: i32) -> (r: i32) {
        self + o
    }

    fn minus(self, o: i32) -> (r: i32) {
        self - o
    }

    fn halve(self) -> (r: i32) {
        self / 2
    }

    fn less_than(self, o: i32) -> (r: bool) {
        self < o
    }
}

impl Sample for i64 {
    open spec fn val(self) -> int {
        self as int
    }

    open spec fn min_int() -> int {
        i64::MIN as int
    }

    open spec fn max_int() -> int {
        i64::MAX as int
    }

    proof fn lemma_range(x: i64) {
    }

    fn zero() -> (r: i64) {
        0
    }

    fn plus(self, o: i64) -> (r: i64) {
        self + o
    }

    fn minus(self, o: i64) -> (r: i64) {
        self - o
    }

    fn halve(self) -> (r: i64) {
        self / 2
    }

    fn less_than(self, o: i64) -> (r: bool) {
        self < o
    }
}

impl Sample for i128 {
    open spec fn val(self) -> int {
        self as int
    }

    open spec fn min_int() -> int {
        i128::MIN as int
    }

    open spec fn max_int() -> int {
        i128::MAX as int
    }

    proof fn lemma_range(x: i128) {
    }

    fn zero() -> (r: i128) {
        0
    }

    fn plus(self, o: i128) -> (r: i128) {
        self + o
    }

    fn minus(self, o: i128) -> (r: i128) {
        self - o
    }

    fn halve(self) -> (r: i128) {
        self / 2
    }

    fn less_than(self, o: i128) -> (r: bool) {
        self < o
    }
}

} // verus!
