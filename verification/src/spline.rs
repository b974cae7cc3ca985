//! The keyframe sampler: an ordered sequence of time-tagged control points
//! with an interpolation mode per segment, sampled at a query time that is
//! clamped to the covered time range.
//!
//! Key times are measured in milliseconds. Within one segment the local
//! parameter is the exact fraction `(t - t_i) / (t_{i+1} - t_i)`, so a sample
//! is a pure function of the key sequence and the query time, written down
//! by [`spec_sample`].

use vstd::prelude::*;

verus! {

use crate::algebra::ValueAlgebra;

/// How a control point blends into the next one. The Bezier modes carry
/// their extra control values.
#[derive(Clone, Copy, PartialEq, Eq, Debug)]
pub enum Interpolation<V> {
    /// Hold this point's value over the whole segment.
    Step,
    /// Straight-line blend between the two segment ends.
    Linear,
    /// Bernstein blend over three control values.
    QuadraticBezier(V),
    /// Bernstein blend over four control values.
    CubicBezier(V, V),
}

impl<V> Default for Interpolation<V> {
    /// The default blend is a straight line.
    fn default() -> (r: Self)
        ensures
            r is Linear,
    {
        Interpolation::Linear
    }
}

/// A control point: a time tag, a value, and the mode that blends this
/// point into the next one.
#[derive(Clone, Copy, PartialEq, Eq, Debug)]
pub struct Key<V> {
    /// Time tag in milliseconds.
    pub t: u64,
    pub value: V,
    pub interpolation: Interpolation<V>,
}

impl<V> Key<V> {
    pub fn new(t: u64, value: V, interpolation: Interpolation<V>) -> (k: Key<V>)
        ensures
            k == (Key { t, value, interpolation }),
    {
        Key { t, value, interpolation }
    }
}

/// The key's own value and any control values it carries are well formed.
pub open spec fn key_wf<V: ValueAlgebra>(k: Key<V>) -> bool {
    &&& k.value.wf()
    &&& match k.interpolation {
        Interpolation::Step => true,
        Interpolation::Linear => true,
        Interpolation::QuadraticBezier(m) => m.wf(),
        Interpolation::CubicBezier(c1, c2) => c1.wf() && c2.wf(),
    }
}

/// A valid key sequence: at least two points, non-decreasing time tags, and
/// every key well formed.
pub open spec fn keys_wf<V: ValueAlgebra>(keys: Seq<Key<V>>) -> bool {
    &&& keys.len() >= 2
    &&& forall|i: int| 0 <= i < keys.len() - 1 ==> #[trigger] keys[i].t <= keys[i + 1].t
    &&& forall|i: int| 0 <= i < keys.len() ==> key_wf(#[trigger] keys[i])
}

/// The straight-line blend `a * (den - num) / den + b * num / den`.
pub open spec fn spec_lerp<V: ValueAlgebra>(a: V, b: V, num: int, den: int) -> V {
    a.spec_scale(den - num, den).spec_add(b.spec_scale(num, den))
}

/// The value a segment takes at local parameter `num / den`, for the mode
/// carried by its first key. The Bezier blends are evaluated by repeated
/// linear interpolation over their control values.
pub open spec fn spec_blend<V: ValueAlgebra>(a: Key<V>, b: V, num: int, den: int) -> V {
    match a.interpolation {
        Interpolation::Step => a.value,
        Interpolation::Linear => spec_lerp(a.value, b, num, den),
        Interpolation::QuadraticBezier(m) => spec_lerp(
            spec_lerp(a.value, m, num, den),
            spec_lerp(m, b, num, den),
            num,
            den,
        ),
        Interpolation::CubicBezier(c1, c2) => spec_lerp(
            spec_lerp(
                spec_lerp(a.value, c1, num, den),
                spec_lerp(c1, c2, num, den),
                num,
                den,
            ),
            spec_lerp(
                spec_lerp(c1, c2, num, den),
                spec_lerp(c2, b, num, den),
                num,
                den,
            ),
            num,
            den,
        ),
    }
}

/// The first index `j >= i` whose successor key lies strictly past `t`, or
/// the last segment when none does.
pub open spec fn seg_index_from<V>(keys: Seq<Key<V>>, t: int, i: int) -> int
    decreases keys.len() - i,
{
    if i + 2 >= keys.len() {
        i
    } else if t < keys[i + 1].t {
        i
    } else {
        seg_index_from(keys, t, i + 1)
    }
}

/// The index of the segment that contains query time `t`.
pub open spec fn seg_index<V>(keys: Seq<Key<V>>, t: int) -> int {
    seg_index_from(keys, t, 0)
}

/// The sampled value of a key sequence at query time `t`: the nearest
/// endpoint value outside the covered range, and the blend of the segment
/// containing `t` inside it.
pub open spec fn spec_sample<V: ValueAlgebra>(keys: Seq<Key<V>>, t: int) -> V
    recommends
        keys.len() >= 2,
{
    if t >= keys[keys.len() - 1].t {
        keys[keys.len() - 1].value
    } else if t <= keys[0].t {
        keys[0].value
    } else {
        let i = seg_index(keys, t);
        spec_blend(keys[i], keys[i + 1].value, t - keys[i].t, keys[i + 1].t - keys[i].t)
    }
}

/// Straight-line blend of two well-formed values at local parameter
/// `num / den`.
pub fn lerp<V: ValueAlgebra>(a: V, b: V, num: u64, den: u64) -> (r: V)
    requires
        a.wf(),
        b.wf(),
        0 < den,
        num <= den,
    ensures
        r == spec_lerp(a, b, num as int, den as int),
        r.wf(),
{
    proof {
        V::lemma_lerp_wf(a, b, num as int, den as int);
    }
    let s1 = a.outer_mul(den - num, den);
    let s2 = b.outer_mul(num, den);
    s1.add(s2)
}

/// The segment blend named by the first key's mode, at local parameter
/// `num / den`.
fn blend<V: ValueAlgebra>(a: Key<V>, b: V, num: u64, den: u64) -> (r: V)
    requires
        key_wf(a),
        b.wf(),
        0 < den,
        num <= den,
    ensures
        r == spec_blend(a, b, num as int, den as int),
        r.wf(),
{
    match a.interpolation {
        Interpolation::Step => a.value,
        Interpolation::Linear => lerp(a.value, b, num, den),
        Interpolation::QuadraticBezier(m) => {
            let p0 = lerp(a.value, m, num, den);
            let p1 = lerp(m, b, num, den);
            lerp(p0, p1, num, den)
        },
        Interpolation::CubicBezier(c1, c2) => {
            let p0 = lerp(a.value, c1, num, den);
            let p1 = lerp(c1, c2, num, den);
            let p2 = lerp(c2, b, num, den);
            let q0 = lerp(p0, p1, num, den);
            let q1 = lerp(p1, p2, num, den);
            lerp(q0, q1, num, den)
        },
    }
}

/// Runtime check of [`key_wf`].
fn check_key_wf<V: ValueAlgebra>(k: &Key<V>) -> (r: bool)
    ensures
        r <==> key_wf(*k),
{
    let vw = k.value.check_wf();
    let cw = match k.interpolation {
        Interpolation::Step => true,
        Interpolation::Linear => true,
        Interpolation::QuadraticBezier(m) => m.check_wf(),
        Interpolation::CubicBezier(c1, c2) => c1.check_wf() && c2.check_wf(),
    };
    vw && cw
}

/// An ordered sequence of control points covering a closed time range.
/// Sampling outside the range clamps to the nearest endpoint; there is no
/// extrapolation and no hidden state.
#[derive(Clone, Debug)]
pub struct Spline<V> {
    keys: Vec<Key<V>>,
}

impl<V> View for Spline<V> {
    type V = Seq<Key<V>>;

    closed spec fn view(&self) -> Seq<Key<V>> {
        self.keys@
    }
}

impl<V: ValueAlgebra> Spline<V> {
    /// The spline's key sequence is valid for sampling.
    pub open spec fn wf(&self) -> bool {
        keys_wf(self@)
    }

    /// Builds a spline from a key vector, accepting exactly the valid
    /// sequences: at least two keys, non-decreasing times, well-formed
    /// values.
    pub fn from_vec(keys: Vec<Key<V>>) -> (r: Option<Spline<V>>)
        ensures
            r is Some <==> keys_wf(keys@),
            r matches Some(s) ==> s@ == keys@,
    {
        if keys.len() < 2 {
            return None;
        }
        let n = keys.len();
        let mut i: usize = 0;
        while i < n - 1
            invariant
                n == keys.len(),
                2 <= n,
                i <= n - 1,
                forall|j: int| 0 <= j < i ==> #[trigger] keys@[j].t <= keys@[j + 1].t,
            decreases n - i,
        {
            if keys[i].t > keys[i + 1].t {
                return None;
            }
            i += 1;
        }
        let mut j: usize = 0;
        while j < n
            invariant
                n == keys.len(),
                j <= n,
                forall|k: int| 0 <= k < j ==> key_wf(#[trigger] keys@[k]),
            decreases n - j,
        {
            if !check_key_wf(&keys[j]) {
                return None;
            }
            j += 1;
        }
        Some(Spline { keys })
    }

    /// Samples the spline at query time `t`, clamped into the covered time
    /// range, as [`spec_sample`] describes.
    pub fn clamped_sample(&self, t: u64) -> (r: V)
        requires
            self.wf(),
        ensures
            r == spec_sample(self@, t as int),
            r.wf(),
    {
        let n = self.keys.len();
        if t >= self.keys[n - 1].t {
            return self.keys[n - 1].value;
        }
        if t <= self.keys[0].t {
            return self.keys[0].value;
        }
        let mut i: usize = 0;
        while i + 2 < n && self.keys[i + 1].t <= t
            invariant
                n == self.keys.len(),
                self.wf(),
                i + 2 <= n,
                self@[0].t < t < self@[n - 1].t,
                self@[i as int].t <= t,
                seg_index(self@, t as int) == seg_index_from(self@, t as int, i as int),
            decreases n - i,
        {
            i += 1;
        }
        let a = self.keys[i];
        let b = self.keys[i + 1];
        blend(a, b.value, t - a.t, b.t - a.t)
    }
}

} // verus!
