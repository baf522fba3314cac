//! Tiny fixed-point arithmetic for on-device inference.

use vstd::prelude::*;

verus! {

/// The value that is 2^32 less or more than `value` and fits in 32 bits,
/// two's complement.
pub open spec fn wrap_i32(value: int) -> int {
    let low = value % 0x1_0000_0000;
    if low >= 0x8000_0000 {
        low - 0x1_0000_0000
    } else {
        low
    }
}

/// Fixed-point number in Q15.16 format: the value is `raw / 65536`.
#[derive(Clone, Copy)]
pub struct FixedPoint(i32);

impl FixedPoint {
    /// The raw representation: the value times 65536.
    pub closed spec fn view(&self) -> int {
        self.0 as int
    }

    /// Raw sum of two raw values, wrapping.
    pub open spec fn sum_raw(a: int, b: int) -> int {
        wrap_i32(a + b)
    }

    /// Raw product of two raw values: the exact product, scaled back by
    /// 65536 rounding down, wrapping.
    pub open spec fn product_raw(a: int, b: int) -> int {
        wrap_i32((a * b) / 65536)
    }

    /// The fixed-point number with the raw representation `bits`.
    pub fn from_bits(bits: i32) -> (fixed: Self)
        ensures
            fixed@ == bits,
    {
        FixedPoint(bits)
    }

    /// The raw representation.
    pub fn to_bits(self) -> (bits: i32)
        ensures
            bits == self@,
    {
        self.0
    }

    /// The fixed-point number equal to the integer `val`.
    pub fn from_int(val: i16) -> (fixed: Self)
        ensures
            fixed@ == val * 65536,
    {
        let wide: i32 = val as i32;
        assert(wide << 16 == wide * 65536) by (bit_vector)
            requires
                -32768 <= wide <= 32767,
        ;
        FixedPoint(wide << 16)
    }

    /// Adds two fixed-point numbers, wrapping on overflow.
    pub fn add(self, other: Self) -> (sum: Self)
        ensures
            sum@ == Self::sum_raw(self@, other@),
    {
        FixedPoint(self.0.wrapping_add(other.0))
    }

    /// Multiplies two fixed-point numbers, rounding down and wrapping on
    /// overflow.
    pub fn mul(self, other: Self) -> (product: Self)
        ensures
            product@ == Self::product_raw(self@, other@),
    {
        let a: i64 = self.0 as i64;
        let b: i64 = other.0 as i64;
        assert(-0x4000_0000_0000_0000 <= a * b <= 0x4000_0000_0000_0000) by (nonlinear_arith)
            requires
                -0x8000_0000 <= a <= 0x7fff_ffff,
                -0x8000_0000 <= b <= 0x7fff_ffff,
        ;
        let exact: i64 = a * b;
        let scaled: i64 = exact >> 16;
        assert(scaled == exact / 65536) by (bit_vector)
            requires
                scaled == exact >> 16,
        ;
        let narrow: i32 = #[verifier::truncate] (scaled as i32);
        assert(narrow == wrap_i32(scaled as int)) by (bit_vector)
            requires
                narrow == scaled as i32,
        ;
        FixedPoint(narrow)
    }
}

/// Raw dot product of the `count` weights from `start` on with the first
/// `count` inputs, accumulated left to right in fixed-point arithmetic.
pub open spec fn row_sum(
    weights: Seq<FixedPoint>,
    input: Seq<FixedPoint>,
    start: int,
    count: nat,
) -> int
    decreases count,
{
    if count == 0 {
        0
    } else {
        FixedPoint::sum_raw(
            row_sum(weights, input, start, (count - 1) as nat),
            FixedPoint::product_raw(weights[start + count - 1]@, input[count - 1]@),
        )
    }
}

/// Multiplies the `rows` by `cols` matrix `weights`, stored row by row, with
/// the vector `input`, and stores the `rows` sums in `output`.
pub fn matvec_mult(
    weights: &[FixedPoint],
    input: &[FixedPoint],
    output: &mut [FixedPoint],
    rows: usize,
    cols: usize,
)
    requires
        rows <= old(output)@.len(),
        rows > 0 ==> cols <= input@.len(),
        rows > 0 && cols > 0 ==> rows * cols <= weights@.len(),
    ensures
        final(output)@.len() == old(output)@.len(),
        forall|i: int|
            0 <= i < rows ==> (#[trigger] final(output)@[i])@ == row_sum(
                weights@,
                input@,
                i * cols,
                cols as nat,
            ),
        forall|i: int| rows <= i < old(output)@.len() ==> final(output)@[i] == old(output)@[i],
{
    let mut i: usize = 0;
    while i < rows
        invariant
            i <= rows,
            rows <= output@.len(),
            output@.len() == old(output)@.len(),
            rows > 0 ==> cols <= input@.len(),
            rows > 0 && cols > 0 ==> rows * cols <= weights@.len(),
            forall|k: int|
                0 <= k < i ==> (#[trigger] output@[k])@ == row_sum(
                    weights@,
                    input@,
                    k * cols,
                    cols as nat,
                ),
            forall|k: int| rows <= k < output@.len() ==> output@[k] == old(output)@[k],
        decreases rows - i,
    {
        let mut sum = FixedPoint::from_int(0);
        let mut j: usize = 0;
        while j < cols
            invariant
                j <= cols,
                i < rows,
                cols <= input@.len(),
                rows * cols <= weights@.len(),
                sum@ == row_sum(weights@, input@, i * cols, j as nat),
            decreases cols - j,
        {
            assert(0 <= i * cols && i * cols + j < rows * cols) by (nonlinear_arith)
                requires
                    i < rows,
                    j < cols,
            ;
            assert(weights.len() <= usize::MAX);
            sum = sum.add(weights[i * cols + j].mul(input[j]));
            j += 1;
        }
        output[i] = sum;
        i += 1;
    }
}

/// Prepares the inference engine. There is no model state to set up yet.
pub fn init() {
}

/// Runs one inference pass. There is no model to run yet.
pub fn run_inference() {
}

} // verus!
