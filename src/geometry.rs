use vstd::prelude::*;

verus! {

/// Smallest and largest coordinate a position can hold.
pub open spec fn coord_min() -> int {
    i64::MIN as int
}

pub open spec fn coord_max() -> int {
    i64::MAX as int
}

/// `v` pinned into the range of a coordinate: a sum that would leave the range
/// stops at its edge.
pub open spec fn saturate(v: int) -> int {
    if v > coord_max() {
        coord_max()
    } else if v < coord_min() {
        coord_min()
    } else {
        v
    }
}

/// `a + b`, saturating at the bounds of `i64`.
pub fn saturating_add(a: i64, b: i64) -> (r: i64)
    ensures
        r == saturate(a + b),
{
    if b >= 0 {
        if a > i64::MAX - b {
            i64::MAX
        } else {
            a + b
        }
    } else {
        if a < i64::MIN - b {
            i64::MIN
        } else {
            a + b
        }
    }
}

/// `a - b`, saturating at the bounds of `i64`.
pub fn saturating_sub(a: i64, b: i64) -> (r: i64)
    ensures
        r == saturate(a - b),
{
    if b >= 0 {
        if a < i64::MIN + b {
            i64::MIN
        } else {
            a - b
        }
    } else {
        if a > i64::MAX + b {
            i64::MAX
        } else {
            a - b
        }
    }
}


/// A point in container-local pixel space, top-left origin.
#[derive(Clone, Copy, Debug, PartialEq, Eq)]
pub struct Point {
    pub x: i64,
    pub y: i64,
}

/// A width and a height in pixels.
#[derive(Clone, Copy, Debug, PartialEq, Eq)]
pub struct Size {
    pub width: u32,
    pub height: u32,
}

/// An exact fraction `num / den`; a well-formed one has a positive denominator.
#[derive(Clone, Copy, Debug, PartialEq, Eq)]
pub struct Ratio {
    pub num: i64,
    pub den: i64,
}

impl View for Ratio {
    type V = (int, int);

    open spec fn view(&self) -> (int, int) {
        (self.num as int, self.den as int)
    }
}

impl Ratio {
    pub open spec fn wf(self) -> bool {
        self.den > 0
    }
}

/// The view of an optional ratio.
pub open spec fn opt_view(o: Option<Ratio>) -> Option<(int, int)> {
    match o {
        Some(r) => Some(r@),
        None => None,
    }
}

/// `a <= b` for fractions with positive denominators.
pub open spec fn frac_le(a: (int, int), b: (int, int)) -> bool {
    a.0 * b.1 <= b.0 * a.1
}

/// `q == a / b` for fractions with non-zero denominators.
pub open spec fn frac_is_quotient(q: (int, int), a: (int, int), b: (int, int)) -> bool {
    q.0 * a.1 * b.0 == a.0 * b.1 * q.1
}

/// How far the handle's near edge may travel on one axis: the container's
/// extent less the handle's. Negative when the handle is the larger.
pub open spec fn travel(container: int, handle: int) -> int {
    container - handle
}

/// The handle's near edge pinned into `[0, travel]`: first raised to 0, then
/// lowered to the travel. When the travel is negative the result is the travel.
pub open spec fn pinned(pos: int, container: int, handle: int) -> int {
    let raised = if pos < 0 { 0 } else { pos };
    if raised > travel(container, handle) {
        travel(container, handle)
    } else {
        raised
    }
}

/// The largest percentage the handle may stand at on one axis,
/// `(1 - handle / container) * 100`; undefined for an empty container.
pub open spec fn max_percent_of(container: int, handle: int) -> Option<(int, int)> {
    if container == 0 {
        None
    } else {
        Some((travel(container, handle) * 100, container))
    }
}

/// The handle's position as a percentage of the container, clamped into
/// `[0, max_percent]`. An empty container gives 0.
pub open spec fn percent_of(pos: int, container: int, handle: int) -> (int, int) {
    if container == 0 {
        (0, 1)
    } else {
        (pinned(pos, container, handle) * 100, container)
    }
}

/// The percentage divided by the largest percentage, which lies in `[0, 1]`
/// whenever the handle is smaller than the container. Undefined when the
/// container is empty or the handle fills it exactly (no travel at all).
pub open spec fn normalized_of(pos: int, container: int, handle: int) -> Option<(int, int)> {
    let t = travel(container, handle);
    if container == 0 || t == 0 {
        None
    } else if t > 0 {
        Some((pinned(pos, container, handle), t))
    } else {
        Some((-pinned(pos, container, handle), -t))
    }
}

/// The handle's near edge pinned into `[0, container - handle]`.
pub fn pin_to_travel(pos: i64, container: u32, handle: u32) -> (r: i64)
    ensures
        r == pinned(pos as int, container as int, handle as int),
        -(u32::MAX as int) <= r <= u32::MAX,
{
    let t: i64 = container as i64 - handle as i64;
    let raised: i64 = if pos < 0 { 0 } else { pos };
    if raised > t {
        t
    } else {
        raised
    }
}

/// The largest percentage on one axis, or `None` for an empty container.
pub fn max_percent(container: u32, handle: u32) -> (r: Option<Ratio>)
    ensures
        opt_view(r) == max_percent_of(container as int, handle as int),
        r matches Some(m) ==> m.wf(),
{
    if container == 0 {
        None
    } else {
        let t: i64 = container as i64 - handle as i64;
        Some(Ratio { num: t * 100, den: container as i64 })
    }
}

/// The clamped percentage on one axis.
pub fn percent(pos: i64, container: u32, handle: u32) -> (r: Ratio)
    ensures
        r@ == percent_of(pos as int, container as int, handle as int),
        r.wf(),
{
    if container == 0 {
        Ratio { num: 0, den: 1 }
    } else {
        let k = pin_to_travel(pos, container, handle);
        Ratio { num: k * 100, den: container as i64 }
    }
}

/// The normalized value on one axis, or `None` where there is no travel.
pub fn normalized(pos: i64, container: u32, handle: u32) -> (r: Option<Ratio>)
    ensures
        opt_view(r) == normalized_of(pos as int, container as int, handle as int),
        r matches Some(n) ==> n.wf(),
{
    let t: i64 = container as i64 - handle as i64;
    if container == 0 || t == 0 {
        None
    } else {
        let k = pin_to_travel(pos, container, handle);
        if t > 0 {
            Some(Ratio { num: k, den: t })
        } else {
            Some(Ratio { num: -k, den: -t })
        }
    }
}

/// For a container that is not empty and a handle that fits in it, the clamped
/// percentage lies between 0 and the largest percentage.
pub proof fn lemma_percent_within_bounds(pos: int, container: nat, handle: nat)
    requires
        container > 0,
        handle <= container,
    ensures
        max_percent_of(container as int, handle as int) matches Some(m) && {
            let p = percent_of(pos, container as int, handle as int);
            &&& 0 <= p.0
            &&& frac_le(p, m)
        },
{
    let p = percent_of(pos, container as int, handle as int);
    let m = (travel(container as int, handle as int) * 100, container as int);
    assert(p.0 <= m.0);
    assert(p.0 * m.1 <= m.0 * p.1) by (nonlinear_arith)
        requires
            p.0 <= m.0,
            p.1 == m.1,
            m.1 > 0,
    ;
}

/// For a container that is not empty and a handle that fits in it, the
/// normalized value is defined exactly when the handle is smaller than the
/// container, and then lies in `[0, 1]`.
pub proof fn lemma_normalized_in_unit_range(pos: int, container: nat, handle: nat)
    requires
        container > 0,
        handle <= container,
    ensures
        normalized_of(pos, container as int, handle as int) is Some <==> handle < container,
        normalized_of(pos, container as int, handle as int) matches Some(n) ==> 0 <= n.0 <= n.1
            && n.1 > 0,
{
}

/// The normalized value is the clamped percentage divided by the largest
/// percentage, wherever it is defined.
pub proof fn lemma_normalized_is_percent_over_max(pos: int, container: nat, handle: nat)
    requires
        normalized_of(pos, container as int, handle as int) is Some,
    ensures
        max_percent_of(container as int, handle as int) matches Some(m) && frac_is_quotient(
            normalized_of(pos, container as int, handle as int)->0,
            percent_of(pos, container as int, handle as int),
            m,
        ),
{
    let c = container as int;
    let t = travel(c, handle as int);
    let k = pinned(pos, c, handle as int);
    let n = normalized_of(pos, c, handle as int)->0;
    assert(k * c * (t * 100) == k * 100 * c * t) by (nonlinear_arith);
    assert((-k) * c * (t * 100) == k * 100 * c * (-t)) by (nonlinear_arith);
}

} // verus!
