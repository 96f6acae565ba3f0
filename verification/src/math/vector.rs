use core::fmt::Display;
use core::ops::{Add, AddAssign, Div, DivAssign, Mul, MulAssign, Neg, Sub, SubAssign};
use crate::math::number_traits::Zero;
use vstd::prelude::*;
use vstd::std_specs::ops::{AddSpec, DivSpec, MulSpec, NegSpec, SubSpec};
use vstd::string::{StringExecFns, to_string_from_display_ensures};

verus! {

/// A vector of 2 components.
#[derive(Clone, Copy, PartialEq, Eq, Debug)]
pub struct Vector2<T> {
    pub x: T,
    pub y: T,
}

impl<T> Vector2<T> {
    pub fn new(x: T, y: T) -> (v: Self)
        ensures
            v.x == x,
            v.y == y,
    {
        Self { x, y }
    }
}

impl<T: Zero> Default for Vector2<T> {
    /// Every component is zero.
    fn default() -> (v: Self)
        ensures
            T::obeys_zero() ==> v.x == T::spec_zero() && v.y == T::spec_zero(),
    {
        Self { x: T::zero(), y: T::zero() }
    }
}

impl<T: Copy + Add<Output = T>> Add for Vector2<T> {
    type Output = Self;

    /// Componentwise.
    fn add(self, rhs: Self) -> (r: Self) {
        Self { x: self.x + rhs.x, y: self.y + rhs.y }
    }
}

impl<T: Copy + Add<Output = T>> vstd::std_specs::ops::AddSpecImpl for Vector2<T> {
    open spec fn obeys_add_spec() -> bool {
        T::obeys_add_spec()
    }

    open spec fn add_req(self, rhs: Self) -> bool {
        self.x.add_req(rhs.x) && self.y.add_req(rhs.y)
    }

    open spec fn add_spec(self, rhs: Self) -> Self {
        Self { x: self.x.add_spec(rhs.x), y: self.y.add_spec(rhs.y) }
    }
}

impl<T: Copy + Add<Output = T>> AddAssign for Vector2<T> {
    /// Componentwise, in place.
    fn add_assign(&mut self, rhs: Self)
        requires
            AddSpec::add_req(*old(self), rhs),
        ensures
            T::obeys_add_spec() ==> *final(self) == AddSpec::add_spec(*old(self), rhs),
    {
        *self = Self { x: self.x + rhs.x, y: self.y + rhs.y };
    }
}

impl<T: Copy + Sub<Output = T>> Sub for Vector2<T> {
    type Output = Self;

    /// Componentwise.
    fn sub(self, rhs: Self) -> (r: Self) {
        Self { x: self.x - rhs.x, y: self.y - rhs.y }
    }
}

impl<T: Copy + Sub<Output = T>> vstd::std_specs::ops::SubSpecImpl for Vector2<T> {
    open spec fn obeys_sub_spec() -> bool {
        T::obeys_sub_spec()
    }

    open spec fn sub_req(self, rhs: Self) -> bool {
        self.x.sub_req(rhs.x) && self.y.sub_req(rhs.y)
    }

    open spec fn sub_spec(self, rhs: Self) -> Self {
        Self { x: self.x.sub_spec(rhs.x), y: self.y.sub_spec(rhs.y) }
    }
}

impl<T: Copy + Sub<Output = T>> SubAssign for Vector2<T> {
    /// Componentwise, in place.
    fn sub_assign(&mut self, rhs: Self)
        requires
            SubSpec::sub_req(*old(self), rhs),
        ensures
            T::obeys_sub_spec() ==> *final(self) == SubSpec::sub_spec(*old(self), rhs),
    {
        *self = Self { x: self.x - rhs.x, y: self.y - rhs.y };
    }
}

impl<T: Copy + Mul<Output = T>> Mul<T> for Vector2<T> {
    type Output = Self;

    /// Every component by the scalar `rhs`.
    fn mul(self, rhs: T) -> (r: Self) {
        Self { x: self.x * rhs, y: self.y * rhs }
    }
}

impl<T: Copy + Mul<Output = T>> vstd::std_specs::ops::MulSpecImpl<T> for Vector2<T> {
    open spec fn obeys_mul_spec() -> bool {
        T::obeys_mul_spec()
    }

    open spec fn mul_req(self, rhs: T) -> bool {
        self.x.mul_req(rhs) && self.y.mul_req(rhs)
    }

    open spec fn mul_spec(self, rhs: T) -> Self {
        Self { x: self.x.mul_spec(rhs), y: self.y.mul_spec(rhs) }
    }
}

impl<T: Copy + Mul<Output = T>> MulAssign<T> for Vector2<T> {
    /// Every component by the scalar `rhs`, in place.
    fn mul_assign(&mut self, rhs: T)
        requires
            MulSpec::mul_req(*old(self), rhs),
        ensures
            T::obeys_mul_spec() ==> *final(self) == MulSpec::mul_spec(*old(self), rhs),
    {
        *self = Self { x: self.x * rhs, y: self.y * rhs };
    }
}

impl<T: Copy + Div<Output = T>> Div<T> for Vector2<T> {
    type Output = Self;

    /// Every component by the scalar `rhs`.
    fn div(self, rhs: T) -> (r: Self) {
        Self { x: self.x / rhs, y: self.y / rhs }
    }
}

impl<T: Copy + Div<Output = T>> vstd::std_specs::ops::DivSpecImpl<T> for Vector2<T> {
    open spec fn obeys_div_spec() -> bool {
        T::obeys_div_spec()
    }

    open spec fn div_req(self, rhs: T) -> bool {
        self.x.div_req(rhs) && self.y.div_req(rhs)
    }

    open spec fn div_spec(self, rhs: T) -> Self {
        Self { x: self.x.div_spec(rhs), y: self.y.div_spec(rhs) }
    }
}

impl<T: Copy + Div<Output = T>> DivAssign<T> for Vector2<T> {
    /// Every component by the scalar `rhs`, in place.
    fn div_assign(&mut self, rhs: T)
        requires
            DivSpec::div_req(*old(self), rhs),
        ensures
            T::obeys_div_spec() ==> *final(self) == DivSpec::div_spec(*old(self), rhs),
    {
        *self = Self { x: self.x / rhs, y: self.y / rhs };
    }
}

impl<T: Copy> From<(T, T)> for Vector2<T> {
    /// The components in tuple order.
    fn from(tuple: (T, T)) -> (v: Self) {
        Self { x: tuple.0, y: tuple.1 }
    }
}

impl<T: Copy> vstd::std_specs::convert::FromSpecImpl<(T, T)> for Vector2<T> {
    open spec fn obeys_from_spec() -> bool {
        true
    }

    open spec fn from_spec(tuple: (T, T)) -> Self {
        Self { x: tuple.0, y: tuple.1 }
    }
}

impl<T: Copy> From<Vector2<T>> for (T, T) {
    /// The components in order.
    fn from(vector: Vector2<T>) -> (t: Self) {
        (vector.x, vector.y)
    }
}

impl<T: Copy> vstd::std_specs::convert::FromSpecImpl<Vector2<T>> for (T, T) {
    open spec fn obeys_from_spec() -> bool {
        true
    }

    open spec fn from_spec(vector: Vector2<T>) -> Self {
        (vector.x, vector.y)
    }
}

impl<T: Display> Vector2<T> {
    /// The components written as `(a, b, ...)` with each component's `Display` form.
    pub fn display_string(&self) -> (s: String)
        ensures
            exists|sx: String, sy: String| to_string_from_display_ensures::<T>(&self.x, sx) && to_string_from_display_ensures::<T>(&self.y, sy) && s@ == "("@ + sx@ + ", "@ + sy@ + ")"@,
    {
        let sx = self.x.to_string();
        let sy = self.y.to_string();
        let mut s = String::from_str("(");
        s.append(sx.as_str());
        s.append(", ");
        s.append(sy.as_str());
        s.append(")");
        proof {
            assert(s@ == "("@ + sx@ + ", "@ + sy@ + ")"@);
        }
        s
    }
}

/// A vector of 3 components.
#[derive(Clone, Copy, PartialEq, Eq, Debug)]
pub struct Vector3<T> {
    pub x: T,
    pub y: T,
    pub z: T,
}

impl<T> Vector3<T> {
    pub fn new(x: T, y: T, z: T) -> (v: Self)
        ensures
            v.x == x,
            v.y == y,
            v.z == z,
    {
        Self { x, y, z }
    }
}

impl<T: Zero> Default for Vector3<T> {
    /// Every component is zero.
    fn default() -> (v: Self)
        ensures
            T::obeys_zero() ==> v.x == T::spec_zero() && v.y == T::spec_zero() && v.z == T::spec_zero(),
    {
        Self { x: T::zero(), y: T::zero(), z: T::zero() }
    }
}

impl<T: Copy + Add<Output = T>> Add for Vector3<T> {
    type Output = Self;

    /// Componentwise.
    fn add(self, rhs: Self) -> (r: Self) {
        Self { x: self.x + rhs.x, y: self.y + rhs.y, z: self.z + rhs.z }
    }
}

impl<T: Copy + Add<Output = T>> vstd::std_specs::ops::AddSpecImpl for Vector3<T> {
    open spec fn obeys_add_spec() -> bool {
        T::obeys_add_spec()
    }

    open spec fn add_req(self, rhs: Self) -> bool {
        self.x.add_req(rhs.x) && self.y.add_req(rhs.y) && self.z.add_req(rhs.z)
    }

    open spec fn add_spec(self, rhs: Self) -> Self {
        Self { x: self.x.add_spec(rhs.x), y: self.y.add_spec(rhs.y), z: self.z.add_spec(rhs.z) }
    }
}

impl<T: Copy + Add<Output = T>> AddAssign for Vector3<T> {
    /// Componentwise, in place.
    fn add_assign(&mut self, rhs: Self)
        requires
            AddSpec::add_req(*old(self), rhs),
        ensures
            T::obeys_add_spec() ==> *final(self) == AddSpec::add_spec(*old(self), rhs),
    {
        *self = Self { x: self.x + rhs.x, y: self.y + rhs.y, z: self.z + rhs.z };
    }
}

impl<T: Copy + Sub<Output = T>> Sub for Vector3<T> {
    type Output = Self;

    /// Componentwise.
    fn sub(self, rhs: Self) -> (r: Self) {
        Self { x: self.x - rhs.x, y: self.y - rhs.y, z: self.z - rhs.z }
    }
}

impl<T: Copy + Sub<Output = T>> vstd::std_specs::ops::SubSpecImpl for Vector3<T> {
    open spec fn obeys_sub_spec() -> bool {
        T::obeys_sub_spec()
    }

    open spec fn sub_req(self, rhs: Self) -> bool {
        self.x.sub_req(rhs.x) && self.y.sub_req(rhs.y) && self.z.sub_req(rhs.z)
    }

    open spec fn sub_spec(self, rhs: Self) -> Self {
        Self { x: self.x.sub_spec(rhs.x), y: self.y.sub_spec(rhs.y), z: self.z.sub_spec(rhs.z) }
    }
}

impl<T: Copy + Sub<Output = T>> SubAssign for Vector3<T> {
    /// Componentwise, in place.
    fn sub_assign(&mut self, rhs: Self)
        requires
            SubSpec::sub_req(*old(self), rhs),
        ensures
            T::obeys_sub_spec() ==> *final(self) == SubSpec::sub_spec(*old(self), rhs),
    {
        *self = Self { x: self.x - rhs.x, y: self.y - rhs.y, z: self.z - rhs.z };
    }
}

impl<T: Copy + Mul<Output = T>> Mul<T> for Vector3<T> {
    type Output = Self;

    /// Every component by the scalar `rhs`.
    fn mul(self, rhs: T) -> (r: Self) {
        Self { x: self.x * rhs, y: self.y * rhs, z: self.z * rhs }
    }
}

impl<T: Copy + Mul<Output = T>> vstd::std_specs::ops::MulSpecImpl<T> for Vector3<T> {
    open spec fn obeys_mul_spec() -> bool {
        T::obeys_mul_spec()
    }

    open spec fn mul_req(self, rhs: T) -> bool {
        self.x.mul_req(rhs) && self.y.mul_req(rhs) && self.z.mul_req(rhs)
    }

    open spec fn mul_spec(self, rhs: T) -> Self {
        Self { x: self.x.mul_spec(rhs), y: self.y.mul_spec(rhs), z: self.z.mul_spec(rhs) }
    }
}

impl<T: Copy + Mul<Output = T>> MulAssign<T> for Vector3<T> {
    /// Every component by the scalar `rhs`, in place.
    fn mul_assign(&mut self, rhs: T)
        requires
            MulSpec::mul_req(*old(self), rhs),
        ensures
            T::obeys_mul_spec() ==> *final(self) == MulSpec::mul_spec(*old(self), rhs),
    {
        *self = Self { x: self.x * rhs, y: self.y * rhs, z: self.z * rhs };
    }
}

impl<T: Copy + Div<Output = T>> Div<T> for Vector3<T> {
    type Output = Self;

    /// Every component by the scalar `rhs`.
    fn div(self, rhs: T) -> (r: Self) {
        Self { x: self.x / rhs, y: self.y / rhs, z: self.z / rhs }
    }
}

impl<T: Copy + Div<Output = T>> vstd::std_specs::ops::DivSpecImpl<T> for Vector3<T> {
    open spec fn obeys_div_spec() -> bool {
        T::obeys_div_spec()
    }

    open spec fn div_req(self, rhs: T) -> bool {
        self.x.div_req(rhs) && self.y.div_req(rhs) && self.z.div_req(rhs)
    }

    open spec fn div_spec(self, rhs: T) -> Self {
        Self { x: self.x.div_spec(rhs), y: self.y.div_spec(rhs), z: self.z.div_spec(rhs) }
    }
}

impl<T: Copy + Div<Output = T>> DivAssign<T> for Vector3<T> {
    /// Every component by the scalar `rhs`, in place.
    fn div_assign(&mut self, rhs: T)
        requires
            DivSpec::div_req(*old(self), rhs),
        ensures
            T::obeys_div_spec() ==> *final(self) == DivSpec::div_spec(*old(self), rhs),
    {
        *self = Self { x: self.x / rhs, y: self.y / rhs, z: self.z / rhs };
    }
}

impl<T: Copy> From<(T, T, T)> for Vector3<T> {
    /// The components in tuple order.
    fn from(tuple: (T, T, T)) -> (v: Self) {
        Self { x: tuple.0, y: tuple.1, z: tuple.2 }
    }
}

impl<T: Copy> vstd::std_specs::convert::FromSpecImpl<(T, T, T)> for Vector3<T> {
    open spec fn obeys_from_spec() -> bool {
        true
    }

    open spec fn from_spec(tuple: (T, T, T)) -> Self {
        Self { x: tuple.0, y: tuple.1, z: tuple.2 }
    }
}

impl<T: Copy> From<Vector3<T>> for (T, T, T) {
    /// The components in order.
    fn from(vector: Vector3<T>) -> (t: Self) {
        (vector.x, vector.y, vector.z)
    }
}

impl<T: Copy> vstd::std_specs::convert::FromSpecImpl<Vector3<T>> for (T, T, T) {
    open spec fn obeys_from_spec() -> bool {
        true
    }

    open spec fn from_spec(vector: Vector3<T>) -> Self {
        (vector.x, vector.y, vector.z)
    }
}

impl<T: Display> Vector3<T> {
    /// The components written as `(a, b, ...)` with each component's `Display` form.
    pub fn display_string(&self) -> (s: String)
        ensures
            exists|sx: String, sy: String, sz: String| to_string_from_display_ensures::<T>(&self.x, sx) && to_string_from_display_ensures::<T>(&self.y, sy) && to_string_from_display_ensures::<T>(&self.z, sz) && s@ == "("@ + sx@ + ", "@ + sy@ + ", "@ + sz@ + ")"@,
    {
        let sx = self.x.to_string();
        let sy = self.y.to_string();
        let sz = self.z.to_string();
        let mut s = String::from_str("(");
        s.append(sx.as_str());
        s.append(", ");
        s.append(sy.as_str());
        s.append(", ");
        s.append(sz.as_str());
        s.append(")");
        proof {
            assert(s@ == "("@ + sx@ + ", "@ + sy@ + ", "@ + sz@ + ")"@);
        }
        s
    }
}

/// A vector of 4 components.
#[derive(Clone, Copy, PartialEq, Eq, Debug)]
pub struct Vector4<T> {
    pub x: T,
    pub y: T,
    pub z: T,
    pub w: T,
}

impl<T> Vector4<T> {
    pub fn new(x: T, y: T, z: T, w: T) -> (v: Self)
        ensures
            v.x == x,
            v.y == y,
            v.z == z,
            v.w == w,
    {
        Self { x, y, z, w }
    }
}

impl<T: Zero> Default for Vector4<T> {
    /// Every component is zero.
    fn default() -> (v: Self)
        ensures
            T::obeys_zero() ==> v.x == T::spec_zero() && v.y == T::spec_zero() && v.z == T::spec_zero() && v.w == T::spec_zero(),
    {
        Self { x: T::zero(), y: T::zero(), z: T::zero(), w: T::zero() }
    }
}

impl<T: Copy + Add<Output = T>> Add for Vector4<T> {
    type Output = Self;

    /// Componentwise.
    fn add(self, rhs: Self) -> (r: Self) {
        Self { x: self.x + rhs.x, y: self.y + rhs.y, z: self.z + rhs.z, w: self.w + rhs.w }
    }
}

impl<T: Copy + Add<Output = T>> vstd::std_specs::ops::AddSpecImpl for Vector4<T> {
    open spec fn obeys_add_spec() -> bool {
        T::obeys_add_spec()
    }

    open spec fn add_req(self, rhs: Self) -> bool {
        self.x.add_req(rhs.x) && self.y.add_req(rhs.y) && self.z.add_req(rhs.z) && self.w.add_req(rhs.w)
    }

    open spec fn add_spec(self, rhs: Self) -> Self {
        Self { x: self.x.add_spec(rhs.x), y: self.y.add_spec(rhs.y), z: self.z.add_spec(rhs.z), w: self.w.add_spec(rhs.w) }
    }
}

impl<T: Copy + Add<Output = T>> AddAssign for Vector4<T> {
    /// Componentwise, in place.
    fn add_assign(&mut self, rhs: Self)
        requires
            AddSpec::add_req(*old(self), rhs),
        ensures
            T::obeys_add_spec() ==> *final(self) == AddSpec::add_spec(*old(self), rhs),
    {
        *self = Self { x: self.x + rhs.x, y: self.y + rhs.y, z: self.z + rhs.z, w: self.w + rhs.w };
    }
}

impl<T: Copy + Sub<Output = T>> Sub for Vector4<T> {
    type Output = Self;

    /// Componentwise.
    fn sub(self, rhs: Self) -> (r: Self) {
        Self { x: self.x - rhs.x, y: self.y - rhs.y, z: self.z - rhs.z, w: self.w - rhs.w }
    }
}

impl<T: Copy + Sub<Output = T>> vstd::std_specs::ops::SubSpecImpl for Vector4<T> {
    open spec fn obeys_sub_spec() -> bool {
        T::obeys_sub_spec()
    }

    open spec fn sub_req(self, rhs: Self) -> bool {
        self.x.sub_req(rhs.x) && self.y.sub_req(rhs.y) && self.z.sub_req(rhs.z) && self.w.sub_req(rhs.w)
    }

    open spec fn sub_spec(self, rhs: Self) -> Self {
        Self { x: self.x.sub_spec(rhs.x), y: self.y.sub_spec(rhs.y), z: self.z.sub_spec(rhs.z), w: self.w.sub_spec(rhs.w) }
    }
}

impl<T: Copy + Sub<Output = T>> SubAssign for Vector4<T> {
    /// Componentwise, in place.
    fn sub_assign(&mut self, rhs: Self)
        requires
            SubSpec::sub_req(*old(self), rhs),
        ensures
            T::obeys_sub_spec() ==> *final(self) == SubSpec::sub_spec(*old(self), rhs),
    {
        *self = Self { x: self.x - rhs.x, y: self.y - rhs.y, z: self.z - rhs.z, w: self.w - rhs.w };
    }
}

impl<T: Copy + Mul<Output = T>> Mul<T> for Vector4<T> {
    type Output = Self;

    /// Every component by the scalar `rhs`.
    fn mul(self, rhs: T) -> (r: Self) {
        Self { x: self.x * rhs, y: self.y * rhs, z: self.z * rhs, w: self.w * rhs }
    }
}

impl<T: Copy + Mul<Output = T>> vstd::std_specs::ops::MulSpecImpl<T> for Vector4<T> {
    open spec fn obeys_mul_spec() -> bool {
        T::obeys_mul_spec()
    }

    open spec fn mul_req(self, rhs: T) -> bool {
        self.x.mul_req(rhs) && self.y.mul_req(rhs) && self.z.mul_req(rhs) && self.w.mul_req(rhs)
    }

    open spec fn mul_spec(self, rhs: T) -> Self {
        Self { x: self.x.mul_spec(rhs), y: self.y.mul_spec(rhs), z: self.z.mul_spec(rhs), w: self.w.mul_spec(rhs) }
    }
}

impl<T: Copy + Mul<Output = T>> MulAssign<T> for Vector4<T> {
    /// Every component by the scalar `rhs`, in place.
    fn mul_assign(&mut self, rhs: T)
        requires
            MulSpec::mul_req(*old(self), rhs),
        ensures
            T::obeys_mul_spec() ==> *final(self) == MulSpec::mul_spec(*old(self), rhs),
    {
        *self = Self { x: self.x * rhs, y: self.y * rhs, z: self.z * rhs, w: self.w * rhs };
    }
}

impl<T: Copy + Div<Output = T>> Div<T> for Vector4<T> {
    type Output = Self;

    /// Every component by the scalar `rhs`.
    fn div(self, rhs: T) -> (r: Self) {
        Self { x: self.x / rhs, y: self.y / rhs, z: self.z / rhs, w: self.w / rhs }
    }
}

impl<T: Copy + Div<Output = T>> vstd::std_specs::ops::DivSpecImpl<T> for Vector4<T> {
    open spec fn obeys_div_spec() -> bool {
        T::obeys_div_spec()
    }

    open spec fn div_req(self, rhs: T) -> bool {
        self.x.div_req(rhs) && self.y.div_req(rhs) && self.z.div_req(rhs) && self.w.div_req(rhs)
    }

    open spec fn div_spec(self, rhs: T) -> Self {
        Self { x: self.x.div_spec(rhs), y: self.y.div_spec(rhs), z: self.z.div_spec(rhs), w: self.w.div_spec(rhs) }
    }
}

impl<T: Copy + Div<Output = T>> DivAssign<T> for Vector4<T> {
    /// Every component by the scalar `rhs`, in place.
    fn div_assign(&mut self, rhs: T)
        requires
            DivSpec::div_req(*old(self), rhs),
        ensures
            T::obeys_div_spec() ==> *final(self) == DivSpec::div_spec(*old(self), rhs),
    {
        *self = Self { x: self.x / rhs, y: self.y / rhs, z: self.z / rhs, w: self.w / rhs };
    }
}

impl<T: Copy> From<(T, T, T, T)> for Vector4<T> {
    /// The components in tuple order.
    fn from(tuple: (T, T, T, T)) -> (v: Self) {
        Self { x: tuple.0, y: tuple.1, z: tuple.2, w: tuple.3 }
    }
}

impl<T: Copy> vstd::std_specs::convert::FromSpecImpl<(T, T, T, T)> for Vector4<T> {
    open spec fn obeys_from_spec() -> bool {
        true
    }

    open spec fn from_spec(tuple: (T, T, T, T)) -> Self {
        Self { x: tuple.0, y: tuple.1, z: tuple.2, w: tuple.3 }
    }
}

impl<T: Copy> From<Vector4<T>> for (T, T, T, T) {
    /// The components in order.
    fn from(vector: Vector4<T>) -> (t: Self) {
        (vector.x, vector.y, vector.z, vector.w)
    }
}

impl<T: Copy> vstd::std_specs::convert::FromSpecImpl<Vector4<T>> for (T, T, T, T) {
    open spec fn obeys_from_spec() -> bool {
        true
    }

    open spec fn from_spec(vector: Vector4<T>) -> Self {
        (vector.x, vector.y, vector.z, vector.w)
    }
}

impl<T: Display> Vector4<T> {
    /// The components written as `(a, b, ...)` with each component's `Display` form.
    pub fn display_string(&self) -> (s: String)
        ensures
            exists|sx: String, sy: String, sz: String, sw: String| to_string_from_display_ensures::<T>(&self.x, sx) && to_string_from_display_ensures::<T>(&self.y, sy) && to_string_from_display_ensures::<T>(&self.z, sz) && to_string_from_display_ensures::<T>(&self.w, sw) && s@ == "("@ + sx@ + ", "@ + sy@ + ", "@ + sz@ + ", "@ + sw@ + ")"@,
    {
        let sx = self.x.to_string();
        let sy = self.y.to_string();
        let sz = self.z.to_string();
        let sw = self.w.to_string();
        let mut s = String::from_str("(");
        s.append(sx.as_str());
        s.append(", ");
        s.append(sy.as_str());
        s.append(", ");
        s.append(sz.as_str());
        s.append(", ");
        s.append(sw.as_str());
        s.append(")");
        proof {
            assert(s@ == "("@ + sx@ + ", "@ + sy@ + ", "@ + sz@ + ", "@ + sw@ + ")"@);
        }
        s
    }
}


impl<T: Copy + Neg<Output = T>> Neg for Vector2<T> {
    type Output = Self;

    /// Componentwise negation.
    fn neg(self) -> (r: Self) {
        Self { x: self.x.neg(), y: self.y.neg() }
    }
}

impl<T: Copy + Neg<Output = T>> vstd::std_specs::ops::NegSpecImpl for Vector2<T> {
    open spec fn obeys_neg_spec() -> bool {
        T::obeys_neg_spec()
    }

    open spec fn neg_req(self) -> bool {
        self.x.neg_req() && self.y.neg_req()
    }

    open spec fn neg_spec(self) -> Self {
        Self { x: self.x.neg_spec(), y: self.y.neg_spec() }
    }
}

impl<T: Copy + Neg<Output = T>> Neg for Vector3<T> {
    type Output = Self;

    /// Componentwise negation.
    fn neg(self) -> (r: Self) {
        Self { x: self.x.neg(), y: self.y.neg(), z: self.z.neg() }
    }
}

impl<T: Copy + Neg<Output = T>> vstd::std_specs::ops::NegSpecImpl for Vector3<T> {
    open spec fn obeys_neg_spec() -> bool {
        T::obeys_neg_spec()
    }

    open spec fn neg_req(self) -> bool {
        self.x.neg_req() && self.y.neg_req() && self.z.neg_req()
    }

    open spec fn neg_spec(self) -> Self {
        Self { x: self.x.neg_spec(), y: self.y.neg_spec(), z: self.z.neg_spec() }
    }
}

impl<T: Copy + Neg<Output = T>> Neg for Vector4<T> {
    type Output = Self;

    /// Componentwise negation.
    fn neg(self) -> (r: Self) {
        Self { x: self.x.neg(), y: self.y.neg(), z: self.z.neg(), w: self.w.neg() }
    }
}

impl<T: Copy + Neg<Output = T>> vstd::std_specs::ops::NegSpecImpl for Vector4<T> {
    open spec fn obeys_neg_spec() -> bool {
        T::obeys_neg_spec()
    }

    open spec fn neg_req(self) -> bool {
        self.x.neg_req() && self.y.neg_req() && self.z.neg_req() && self.w.neg_req()
    }

    open spec fn neg_spec(self) -> Self {
        Self { x: self.x.neg_spec(), y: self.y.neg_spec(), z: self.z.neg_spec(), w: self.w.neg_spec() }
    }
}

/// Law: subtracting what was added gives back the vector, and negating twice gives back the
/// vector (integer components, where no operation overflows).
pub proof fn lemma_add_sub_neg_inverse(a: Vector3<i64>, b: Vector3<i64>)
    requires
        AddSpec::add_req(a, b),
        NegSpec::neg_req(a),
    ensures
        SubSpec::sub_req(AddSpec::add_spec(a, b), b),
        SubSpec::sub_spec(AddSpec::add_spec(a, b), b) == a,
        NegSpec::neg_req(NegSpec::neg_spec(a)),
        NegSpec::neg_spec(NegSpec::neg_spec(a)) == a,
{
}


/// Law: adding, subtracting and negating `Vector2`s, and multiplying one by a number, act on each
/// component on its own: component `c` of the result is component `c` of `a` combined with
/// component `c` of `b` (or with `s`), for integer components where nothing overflows.
pub proof fn lemma_vector2_componentwise(a: Vector2<i64>, b: Vector2<i64>, s: i64)
    ensures
        AddSpec::add_req(a, b) ==> (AddSpec::add_spec(a, b).x == a.x + b.x && AddSpec::add_spec(a, b).y == a.y + b.y),
        SubSpec::sub_req(a, b) ==> (SubSpec::sub_spec(a, b).x == a.x - b.x && SubSpec::sub_spec(a, b).y == a.y - b.y),
        MulSpec::mul_req(a, s) ==> (MulSpec::mul_spec(a, s).x == a.x * s && MulSpec::mul_spec(a, s).y == a.y * s),
        NegSpec::neg_req(a) ==> (NegSpec::neg_spec(a).x == -a.x && NegSpec::neg_spec(a).y == -a.y),
{
}

/// Law: dividing a `Vector2` of components at least zero by a positive number divides each
/// component on its own.
pub proof fn lemma_vector2_div_componentwise(a: Vector2<i64>, s: i64)
    requires
        a.x >= 0 && a.y >= 0,
        s > 0,
    ensures
        DivSpec::div_req(a, s),
        DivSpec::div_spec(a, s).x == a.x / s,
        DivSpec::div_spec(a, s).y == a.y / s,
{
}

/// Law: adding, subtracting and negating `Vector3`s, and multiplying one by a number, act on each
/// component on its own: component `c` of the result is component `c` of `a` combined with
/// component `c` of `b` (or with `s`), for integer components where nothing overflows.
pub proof fn lemma_vector3_componentwise(a: Vector3<i64>, b: Vector3<i64>, s: i64)
    ensures
        AddSpec::add_req(a, b) ==> (AddSpec::add_spec(a, b).x == a.x + b.x && AddSpec::add_spec(a, b).y == a.y + b.y && AddSpec::add_spec(a, b).z == a.z + b.z),
        SubSpec::sub_req(a, b) ==> (SubSpec::sub_spec(a, b).x == a.x - b.x && SubSpec::sub_spec(a, b).y == a.y - b.y && SubSpec::sub_spec(a, b).z == a.z - b.z),
        MulSpec::mul_req(a, s) ==> (MulSpec::mul_spec(a, s).x == a.x * s && MulSpec::mul_spec(a, s).y == a.y * s && MulSpec::mul_spec(a, s).z == a.z * s),
        NegSpec::neg_req(a) ==> (NegSpec::neg_spec(a).x == -a.x && NegSpec::neg_spec(a).y == -a.y && NegSpec::neg_spec(a).z == -a.z),
{
}

/// Law: dividing a `Vector3` of components at least zero by a positive number divides each
/// component on its own.
pub proof fn lemma_vector3_div_componentwise(a: Vector3<i64>, s: i64)
    requires
        a.x >= 0 && a.y >= 0 && a.z >= 0,
        s > 0,
    ensures
        DivSpec::div_req(a, s),
        DivSpec::div_spec(a, s).x == a.x / s,
        DivSpec::div_spec(a, s).y == a.y / s,
        DivSpec::div_spec(a, s).z == a.z / s,
{
}

/// Law: adding, subtracting and negating `Vector4`s, and multiplying one by a number, act on each
/// component on its own: component `c` of the result is component `c` of `a` combined with
/// component `c` of `b` (or with `s`), for integer components where nothing overflows.
pub proof fn lemma_vector4_componentwise(a: Vector4<i64>, b: Vector4<i64>, s: i64)
    ensures
        AddSpec::add_req(a, b) ==> (AddSpec::add_spec(a, b).x == a.x + b.x && AddSpec::add_spec(a, b).y == a.y + b.y && AddSpec::add_spec(a, b).z == a.z + b.z && AddSpec::add_spec(a, b).w == a.w + b.w),
        SubSpec::sub_req(a, b) ==> (SubSpec::sub_spec(a, b).x == a.x - b.x && SubSpec::sub_spec(a, b).y == a.y - b.y && SubSpec::sub_spec(a, b).z == a.z - b.z && SubSpec::sub_spec(a, b).w == a.w - b.w),
        MulSpec::mul_req(a, s) ==> (MulSpec::mul_spec(a, s).x == a.x * s && MulSpec::mul_spec(a, s).y == a.y * s && MulSpec::mul_spec(a, s).z == a.z * s && MulSpec::mul_spec(a, s).w == a.w * s),
        NegSpec::neg_req(a) ==> (NegSpec::neg_spec(a).x == -a.x && NegSpec::neg_spec(a).y == -a.y && NegSpec::neg_spec(a).z == -a.z && NegSpec::neg_spec(a).w == -a.w),
{
}

/// Law: dividing a `Vector4` of components at least zero by a positive number divides each
/// component on its own.
pub proof fn lemma_vector4_div_componentwise(a: Vector4<i64>, s: i64)
    requires
        a.x >= 0 && a.y >= 0 && a.z >= 0 && a.w >= 0,
        s > 0,
    ensures
        DivSpec::div_req(a, s),
        DivSpec::div_spec(a, s).x == a.x / s,
        DivSpec::div_spec(a, s).y == a.y / s,
        DivSpec::div_spec(a, s).z == a.z / s,
        DivSpec::div_spec(a, s).w == a.w / s,
{
}

} // verus!
