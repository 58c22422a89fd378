//! The sample data model and the coordinate normalizer.
//!
//! Every coordinate is held as the bit pattern of an IEEE-754
//! single-precision number (`f32::to_bits`). Verified code moves, pairs and
//! stores these bit patterns; the per-sample arithmetic itself is supplied
//! by the caller as a kernel, and the library states exactly how the kernel
//! is applied.

use vstd::prelude::*;

verus! {

/// Bit pattern of the single-precision number zero.
pub const F32_ZERO_BITS: u32 = 0;

/// Bit pattern of the single-precision number one.
pub const F32_ONE_BITS: u32 = 0x3F80_0000;

/// Largest number of path points the draw step accepts: the triangle-strip
/// draw call takes its vertex count `4 * (points - 1)` as an `i32`, which
/// this bound keeps in range.
pub const MAX_PATH_POINTS: usize = 0x2000_0000;

/// An input sample set: two axis-range sequences whose first and last
/// elements define the visible domain on each axis, and two equal-length
/// value sequences holding the polyline's vertices in domain space.
///
/// Well-formedness asks for at least two points per axis and equally many
/// x- and y-values. The axes are further expected to be strictly ordered
/// with a non-zero extent (the extent is used as a divisor); that is a
/// property of the underlying numbers, which the caller who does the
/// floating-point arithmetic must uphold.
#[derive(Clone, Debug)]
pub struct PlotData {
    pub axis_x: Vec<u32>,
    pub axis_y: Vec<u32>,
    pub values_x: Vec<u32>,
    pub values_y: Vec<u32>,
}

impl PlotData {
    /// Structural well-formedness of a sample set.
    pub open spec fn wf(&self) -> bool {
        &&& self.axis_x@.len() >= 2
        &&& self.axis_y@.len() >= 2
        &&& self.values_x@.len() == self.values_y@.len()
    }
}

/// The degenerate sample set that seeds the render state: two-point axes
/// spanning zero to one, and `n` zero-valued samples.
pub fn default_plot_data(n: usize) -> (d: PlotData)
    ensures
        d.wf(),
        d.axis_x@.len() == 2,
        d.axis_x@[0] == F32_ZERO_BITS,
        d.axis_x@[1] == F32_ONE_BITS,
        d.axis_y@.len() == 2,
        d.axis_y@[0] == F32_ZERO_BITS,
        d.axis_y@[1] == F32_ONE_BITS,
        d.values_x@.len() == n,
        d.values_y@.len() == n,
        forall|i: int| 0 <= i < n ==> #[trigger] d.values_x@[i] == F32_ZERO_BITS,
        forall|i: int| 0 <= i < n ==> #[trigger] d.values_y@[i] == F32_ZERO_BITS,
{
    let mut axis_x: Vec<u32> = Vec::new();
    axis_x.push(F32_ZERO_BITS);
    axis_x.push(F32_ONE_BITS);
    let mut axis_y: Vec<u32> = Vec::new();
    axis_y.push(F32_ZERO_BITS);
    axis_y.push(F32_ONE_BITS);
    let mut values_x: Vec<u32> = Vec::new();
    let mut values_y: Vec<u32> = Vec::new();
    let mut i: usize = 0;
    while i < n
        invariant
            i <= n,
            values_x@.len() == i,
            values_y@.len() == i,
            forall|j: int| 0 <= j < i ==> #[trigger] values_x@[j] == F32_ZERO_BITS,
            forall|j: int| 0 <= j < i ==> #[trigger] values_y@[j] == F32_ZERO_BITS,
        decreases n - i,
    {
        values_x.push(F32_ZERO_BITS);
        values_y.push(F32_ZERO_BITS);
        i += 1;
    }
    PlotData { axis_x, axis_y, values_x, values_y }
}

/// A freshly computed axis frame and normalized path, ready to be installed
/// in the render state: the per-axis origins and extents (as coordinate bit
/// patterns) and the normalized (u, v) pairs, one per sample.
pub struct PathUpdate {
    pub axis_ori_x: u32,
    pub axis_ori_y: u32,
    pub axis_len_x: u32,
    pub axis_len_y: u32,
    pub path: Vec<(u32, u32)>,
}

impl PathUpdate {
    /// The path must have at least two points (the stroked-line draw mode
    /// needs a segment) and few enough that the draw call's vertex count
    /// fits its `i32` argument.
    pub open spec fn wf(&self) -> bool {
        2 <= self.path@.len() <= MAX_PATH_POINTS
    }
}

/// The coordinate normalizer. Computes the axis frame and normalized path
/// for `data`: the origins are the first element of each axis, the extents
/// are taken as given (the caller computes `axis.last() - axis[0]` on the
/// underlying numbers), and the path pairs the i-th x-value with the i-th
/// y-value, each sent through its per-axis kernel.
///
/// The kernels carry the floating-point arithmetic the library itself never
/// performs; the intended kernel maps a value `v` to
/// `(v - origin) / extent` on the underlying numbers. The contract pins
/// down everything structural: which origin is chosen, how samples pair up,
/// and that each output coordinate is an output of the kernel on the
/// corresponding input sample.
pub fn normalize_update<FX: Fn(u32) -> u32, FY: Fn(u32) -> u32>(
    data: &PlotData,
    axis_len_x: u32,
    axis_len_y: u32,
    norm_x: FX,
    norm_y: FY,
) -> (upd: PathUpdate)
    requires
        data.wf(),
        2 <= data.values_x@.len() <= MAX_PATH_POINTS,
        forall|v: u32| #[trigger] call_requires(norm_x, (v,)),
        forall|v: u32| #[trigger] call_requires(norm_y, (v,)),
    ensures
        upd.wf(),
        upd.axis_ori_x == data.axis_x@[0],
        upd.axis_ori_y == data.axis_y@[0],
        upd.axis_len_x == axis_len_x,
        upd.axis_len_y == axis_len_y,
        upd.path@.len() == data.values_x@.len(),
        forall|i: int|
            0 <= i < upd.path@.len() ==> call_ensures(
                norm_x,
                (data.values_x@[i],),
                (#[trigger] upd.path@[i]).0,
            ) && call_ensures(norm_y, (data.values_y@[i],), upd.path@[i].1),
{
    let n = data.values_x.len();
    let mut path: Vec<(u32, u32)> = Vec::new();
    let mut i: usize = 0;
    while i < n
        invariant
            forall|v: u32| #[trigger] call_requires(norm_x, (v,)),
            forall|v: u32| #[trigger] call_requires(norm_y, (v,)),
            i <= n,
            n == data.values_x@.len(),
            n == data.values_y@.len(),
            path@.len() == i,
            forall|j: int|
                0 <= j < i ==> call_ensures(
                    norm_x,
                    (data.values_x@[j],),
                    (#[trigger] path@[j]).0,
                ) && call_ensures(norm_y, (data.values_y@[j],), path@[j].1),
        decreases n - i,
    {
        let u = norm_x(data.values_x[i]);
        let v = norm_y(data.values_y[i]);
        path.push((u, v));
        i += 1;
    }
    PathUpdate {
        axis_ori_x: data.axis_x[0],
        axis_ori_y: data.axis_y[0],
        axis_len_x,
        axis_len_y,
        path,
    }
}

} // verus!
