use crate::math::number_traits::{IsZero, NumericOps, One, Zero};
use crate::math::vector::{Vector3, Vector4};
use core::ops::{Add, Index, IndexMut, Mul, MulAssign, Neg};
use vstd::prelude::*;
use vstd::std_specs::ops::{AddSpec, DivSpec, MulSpec, NegSpec, SubSpec};
use vstd::string::{StringExecFns, to_string_from_display_ensures};
use core::fmt::Display;

verus! {

/// `((a0 * b0 + a1 * b1) + a2 * b2) + a3 * b3` as `T`'s operators compute it.
pub open spec fn dot4<T: Add<Output = T> + Mul<Output = T>>(a: Seq<T>, b: Seq<T>) -> T {
    a[0].mul_spec(b[0]).add_spec(a[1].mul_spec(b[1])).add_spec(a[2].mul_spec(b[2])).add_spec(
        a[3].mul_spec(b[3]),
    )
}

/// Every operation of `dot4(a, b)` is defined.
pub open spec fn dot4_req<T: Add<Output = T> + Mul<Output = T>>(a: Seq<T>, b: Seq<T>) -> bool {
    &&& a[0].mul_req(b[0])
    &&& a[1].mul_req(b[1])
    &&& a[2].mul_req(b[2])
    &&& a[3].mul_req(b[3])
    &&& a[0].mul_spec(b[0]).add_req(a[1].mul_spec(b[1]))
    &&& a[0].mul_spec(b[0]).add_spec(a[1].mul_spec(b[1])).add_req(a[2].mul_spec(b[2]))
    &&& a[0].mul_spec(b[0]).add_spec(a[1].mul_spec(b[1])).add_spec(a[2].mul_spec(b[2])).add_req(
        a[3].mul_spec(b[3]),
    )
}

/// Row `r` of a row-major 4x4 matrix.
pub open spec fn row<T>(m: Seq<T>, r: int) -> Seq<T> {
    m.subrange(4 * r, 4 * r + 4)
}

/// Column `c` of a row-major 4x4 matrix.
pub open spec fn column<T>(m: Seq<T>, c: int) -> Seq<T> {
    seq![m[c], m[c + 4], m[c + 8], m[c + 12]]
}

/// The entries of the product of two row-major 4x4 matrices.
pub open spec fn product<T: Add<Output = T> + Mul<Output = T>>(a: Seq<T>, b: Seq<T>) -> Seq<T> {
    Seq::new(16, |k: int| dot4(row(a, k / 4), column(b, k % 4)))
}

/// Every operation of the product is defined.
pub open spec fn product_req<T: Add<Output = T> + Mul<Output = T>>(a: Seq<T>, b: Seq<T>) -> bool {
    forall|j: int, i: int| 0 <= j < 4 && 0 <= i < 4 ==> #[trigger] dot4_req(row(a, j), column(b, i))
}

/// A 4x4 matrix stored row by row.
#[derive(Clone, Copy)]
pub struct Matrix4<T> {
    values: [T; 16],
}

impl<T> Matrix4<T> {
    /// The entries, row by row.
    pub closed spec fn entries(&self) -> Seq<T> {
        self.values@
    }

    pub fn with_values(values: [T; 16]) -> (m: Self)
        ensures
            m.entries() == values@,
    {
        Self { values }
    }

    /// The entries, row by row.
    pub fn values(&self) -> (r: &[T; 16])
        ensures
            r@ == self.entries(),
    {
        &self.values
    }

    /// The matrix translating by `translation`.
    pub fn new_translation<U: Copy + Zero + One>(translation: &Vector3<U>) -> (m: Matrix4<U>)
        ensures
            U::obeys_zero() && U::obeys_one() ==> m.entries() == seq![
                U::spec_one(), U::spec_zero(), U::spec_zero(), translation.x,
                U::spec_zero(), U::spec_one(), U::spec_zero(), translation.y,
                U::spec_zero(), U::spec_zero(), U::spec_one(), translation.z,
                U::spec_zero(), U::spec_zero(), U::spec_zero(), U::spec_one()
            ],
    {
        let z = U::zero();
        let o = U::one();
        let m = Matrix4 {
            values: [
                o, z, z, translation.x,
                z, o, z, translation.y,
                z, z, o, translation.z,
                z, z, z, o,
            ],
        };
        proof {
            assert(m.values@ =~= seq![o, z, z, translation.x, z, o, z, translation.y, z, z, o, translation.z, z, z, z, o]);
        }
        m
    }

    /// The matrix scaling by `scale` along all three axes.
    pub fn new_scale_uniform<U: Copy + Zero + One>(scale: U) -> (m: Matrix4<U>)
        ensures
            U::obeys_zero() && U::obeys_one() ==> m.entries() == seq![
                scale, U::spec_zero(), U::spec_zero(), U::spec_zero(),
                U::spec_zero(), scale, U::spec_zero(), U::spec_zero(),
                U::spec_zero(), U::spec_zero(), scale, U::spec_zero(),
                U::spec_zero(), U::spec_zero(), U::spec_zero(), U::spec_one()
            ],
    {
        Self::new_scale(&Vector3::new(scale, scale, scale))
    }

    /// The matrix scaling by `scale` along each axis.
    pub fn new_scale<U: Copy + Zero + One>(scale: &Vector3<U>) -> (m: Matrix4<U>)
        ensures
            U::obeys_zero() && U::obeys_one() ==> m.entries() == seq![
                scale.x, U::spec_zero(), U::spec_zero(), U::spec_zero(),
                U::spec_zero(), scale.y, U::spec_zero(), U::spec_zero(),
                U::spec_zero(), U::spec_zero(), scale.z, U::spec_zero(),
                U::spec_zero(), U::spec_zero(), U::spec_zero(), U::spec_one()
            ],
    {
        let z = U::zero();
        let o = U::one();
        let m = Matrix4 {
            values: [
                scale.x, z, z, z,
                z, scale.y, z, z,
                z, z, scale.z, z,
                z, z, z, o,
            ],
        };
        proof {
            assert(m.values@ =~= seq![scale.x, z, z, z, z, scale.y, z, z, z, z, scale.z, z, z, z, z, o]);
        }
        m
    }
}

/// The entries of the identity matrix: ones on the diagonal, zeros elsewhere.
pub open spec fn identity_entries<T: One + Zero>() -> Seq<T> {
    Seq::new(16, |k: int| if k / 4 == k % 4 { T::spec_one() } else { T::spec_zero() })
}

#[verifier::spinoff_prover]
#[verifier::rlimit(40)]
proof fn lemma_identity_row_times_column(m: Seq<i64>, j: int, i: int)
    requires
        m.len() == 16,
        0 <= j < 4,
        0 <= i < 4,
    ensures
        dot4_req(row(identity_entries::<i64>(), j), column(m, i)),
        dot4(row(identity_entries::<i64>(), j), column(m, i)) == m[4 * j + i],
{
    let r = row(identity_entries::<i64>(), j);
    let c = column(m, i);
    assert(c[0] == m[i] && c[1] == m[i + 4] && c[2] == m[i + 8] && c[3] == m[i + 12]);
    if j == 0 {
        assert(r[0] == 1i64 && r[1] == 0i64 && r[2] == 0i64 && r[3] == 0i64);
    } else if j == 1 {
        assert(r[0] == 0i64 && r[1] == 1i64 && r[2] == 0i64 && r[3] == 0i64);
    } else if j == 2 {
        assert(r[0] == 0i64 && r[1] == 0i64 && r[2] == 1i64 && r[3] == 0i64);
    } else {
        assert(r[0] == 0i64 && r[1] == 0i64 && r[2] == 0i64 && r[3] == 1i64);
    }
}

#[verifier::spinoff_prover]
#[verifier::rlimit(40)]
proof fn lemma_row_times_identity_column(m: Seq<i64>, j: int, i: int)
    requires
        m.len() == 16,
        0 <= j < 4,
        0 <= i < 4,
    ensures
        dot4_req(row(m, j), column(identity_entries::<i64>(), i)),
        dot4(row(m, j), column(identity_entries::<i64>(), i)) == m[4 * j + i],
{
    let id = identity_entries::<i64>();
    let r = row(m, j);
    let c = column(id, i);
    assert(r[0] == m[4 * j] && r[1] == m[4 * j + 1] && r[2] == m[4 * j + 2] && r[3] == m[4 * j + 3]);
    if i == 0 {
        assert(c[0] == 1i64 && c[1] == 0i64 && c[2] == 0i64 && c[3] == 0i64);
    } else if i == 1 {
        assert(c[0] == 0i64 && c[1] == 1i64 && c[2] == 0i64 && c[3] == 0i64);
    } else if i == 2 {
        assert(c[0] == 0i64 && c[1] == 0i64 && c[2] == 1i64 && c[3] == 0i64);
    } else {
        assert(c[0] == 0i64 && c[1] == 0i64 && c[2] == 0i64 && c[3] == 1i64);
    }
}

/// Law: the identity matrix is neutral for the product, on either side (integer entries).
pub proof fn lemma_identity_is_neutral(m: Seq<i64>)
    requires
        m.len() == 16,
    ensures
        product_req(identity_entries::<i64>(), m),
        product(identity_entries::<i64>(), m) == m,
        product_req(m, identity_entries::<i64>()),
        product(m, identity_entries::<i64>()) == m,
{
    let id = identity_entries::<i64>();
    assert forall|j: int, i: int| 0 <= j < 4 && 0 <= i < 4 implies #[trigger] dot4_req(row(id, j), column(m, i)) by {
        lemma_identity_row_times_column(m, j, i);
    }
    assert forall|j: int, i: int| 0 <= j < 4 && 0 <= i < 4 implies #[trigger] dot4_req(row(m, j), column(id, i)) by {
        lemma_row_times_identity_column(m, j, i);
    }
    assert forall|k: int| 0 <= k < 16 implies #[trigger] product(id, m)[k] == m[k] by {
        lemma_identity_row_times_column(m, k / 4, k % 4);
    }
    assert forall|k: int| 0 <= k < 16 implies #[trigger] product(m, id)[k] == m[k] by {
        lemma_row_times_identity_column(m, k / 4, k % 4);
    }
    assert(product(id, m) =~= m);
    assert(product(m, id) =~= m);
}

/// Types with an identity element.
pub trait Identity: Sized {
    spec fn obeys_identity() -> bool;

    spec fn spec_identity() -> Self;

    fn identity() -> (r: Self)
        ensures
            Self::obeys_identity() ==> r == Self::spec_identity(),
    ;
}

impl<T: Copy + One + Zero> Identity for Matrix4<T> {
    open spec fn obeys_identity() -> bool {
        T::obeys_one() && T::obeys_zero()
    }

    /// Ones on the diagonal, zeros elsewhere.
    open spec fn spec_identity() -> Self {
        choose|m: Self| m.entries() == Seq::new(16, |k: int| if k / 4 == k % 4 { T::spec_one() } else { T::spec_zero() })
    }

    fn identity() -> (m: Self)
        ensures
            T::obeys_one() && T::obeys_zero() ==> m.entries() == identity_entries::<T>(),
    {
        let z = T::zero();
        let o = T::one();
        let m = Matrix4 {
            values: [
                o, z, z, z,
                z, o, z, z,
                z, z, o, z,
                z, z, z, o,
            ],
        };
        proof {
            if T::obeys_one() && T::obeys_zero() {
                let target = Seq::new(16, |k: int| if k / 4 == k % 4 { T::spec_one() } else { T::spec_zero() });
                assert(m.values@ =~= target);
                assert(m.entries() == target);
                let c = choose|c: Self| c.entries() == target;
                assert(c.values@ =~= m.values@);
                assert(c.values =~= m.values);
                assert(c == m);
            }
        }
        m
    }
}

/// Calls `IndexMut::index_mut` on the entries with the range `start..end`: the slice is those
/// entries, and what is written through it lands in them, the others staying as they were.
#[verifier::external_body]
fn range_mut<T>(values: &mut [T; 16], start: usize, end: usize) -> (s: &mut [T])
    requires
        start <= end <= 16,
    ensures
        s@ == old(values)@.subrange(start as int, end as int),
        final(values)@ == old(values)@.subrange(0, start as int) + final(s)@ + old(values)@.subrange(end as int, 16),
{
    &mut values[start..end]
}

impl<T> Index<usize> for Matrix4<T> {
    type Output = [T];

    /// Row `index`.
    fn index(&self, index: usize) -> (r: &[T])
        ensures
            r@ == row(self.entries(), index as int),
    {
        vstd::slice::slice_subrange(self.values.as_slice(), 4 * index, 4 * index + 4)
    }
}

impl<T> vstd::std_specs::core::IndexSpecImpl<usize> for Matrix4<T> {
    open spec fn index_req(&self, index: &usize) -> bool {
        *index < 4
    }
}

impl<T> IndexMut<usize> for Matrix4<T> {
    /// Row `index`, for writing.
    fn index_mut(&mut self, index: usize) -> (r: &mut [T])
        requires
            index < 4,
        ensures
            r@ == row(old(self).entries(), index as int),
            final(self).entries() == old(self).entries().subrange(0, 4 * index) + final(r)@
                + old(self).entries().subrange(4 * index + 4, 16),
    {
        range_mut(&mut self.values, 4 * index, 4 * index + 4)
    }
}

fn dot4_exec<T: Copy + Add<Output = T> + Mul<Output = T>>(a: &[T; 16], j: usize, b: &[T; 16], i: usize) -> (r: T)
    requires
        j < 4,
        i < 4,
        T::obeys_add_spec(),
        T::obeys_mul_spec(),
        dot4_req(row(a@, j as int), column(b@, i as int)),
    ensures
        r == dot4(row(a@, j as int), column(b@, i as int)),
{
    let ghost ra = row(a@, j as int);
    let ghost cb = column(b@, i as int);
    proof {
        assert(ra[0] == a@[4 * j as int] && ra[1] == a@[4 * j + 1] && ra[2] == a@[4 * j + 2] && ra[3] == a@[4 * j + 3]);
        assert(cb[0] == b@[i as int] && cb[1] == b@[i + 4] && cb[2] == b@[i + 8] && cb[3] == b@[i + 12]);
    }
    a[j * 4] * b[i] + a[j * 4 + 1] * b[i + 4] + a[j * 4 + 2] * b[i + 8] + a[j * 4 + 3] * b[i + 12]
}

fn multiply<T: Copy + Zero + Add<Output = T> + Mul<Output = T>>(a: &Matrix4<T>, b: &Matrix4<T>) -> (r: Matrix4<T>)
    requires
        T::obeys_add_spec(),
        T::obeys_mul_spec(),
        product_req(a.entries(), b.entries()),
    ensures
        r.entries() == product(a.entries(), b.entries()),
{
        let mut values = [T::zero(); 16];
        for j in 0..4usize
            invariant
                values@.len() == 16,
                T::obeys_add_spec(),
                T::obeys_mul_spec(),
                product_req(a.values@, b.values@),
                forall|k: int| 0 <= k < 4 * j ==> values@[k] == #[trigger] product(a.values@, b.values@)[k],
        {
            for i in 0..4usize
                invariant
                    j < 4,
                    values@.len() == 16,
                    T::obeys_add_spec(),
                    T::obeys_mul_spec(),
                    product_req(a.values@, b.values@),
                    forall|k: int| 0 <= k < 4 * j + i ==> values@[k] == #[trigger] product(a.values@, b.values@)[k],
            {
                proof {
                    assert(dot4_req(row(a.values@, j as int), column(b.values@, i as int)));
                }
                let v = dot4_exec(&a.values, j, &b.values, i);
                values[j * 4 + i] = v;
                proof {
                    let k = 4 * j + i;
                    assert(k / 4 == j && k % 4 == i);
                }
            }
        }
        let m = Matrix4 { values };
        proof {
            assert(m.values@ =~= product(a.values@, b.values@));
        }
        m
}

impl<T: Copy + Zero + Add<Output = T> + Mul<Output = T>> Mul for Matrix4<T> {
    type Output = Self;

    /// The matrix product.
    fn mul(self, rhs: Self) -> (r: Self) {
        let m = multiply(&self, &rhs);
        proof {
            let c = choose|c: Self| c.entries() == product(self.values@, rhs.values@);
            assert(c.values@ =~= m.values@);
            assert(c.values =~= m.values);
            assert(c == m);
        }
        m
    }
}

impl<T: Copy + Zero + Add<Output = T> + Mul<Output = T>> vstd::std_specs::ops::MulSpecImpl for Matrix4<T> {
    open spec fn obeys_mul_spec() -> bool {
        true
    }

    open spec fn mul_req(self, rhs: Self) -> bool {
        T::obeys_add_spec() && T::obeys_mul_spec() && product_req(self.entries(), rhs.entries())
    }

    open spec fn mul_spec(self, rhs: Self) -> Self {
        choose|m: Self| m.entries() == product(self.entries(), rhs.entries())
    }
}

/// The array whose first `k` entries are those of `s`, the others being `s[0]`.
spec fn array_from<T: Copy>(s: Seq<T>, k: nat) -> [T; 16]
    decreases k,
{
    if k == 0 {
        vstd::array::spec_array_fill_for_copy_type::<T, 16>(s[0])
    } else {
        vstd::array::spec_array_update(array_from(s, (k - 1) as nat), k - 1, s[k - 1])
    }
}

proof fn lemma_array_from<T: Copy>(s: Seq<T>, k: nat)
    requires
        s.len() == 16,
        k <= 16,
    ensures
        array_from(s, k)@.len() == 16,
        forall|i: int| 0 <= i < k ==> #[trigger] array_from(s, k)@[i] == s[i],
    decreases k,
{
    broadcast use vstd::array::axiom_spec_array_fill_for_copy_type, vstd::array::axiom_spec_array_update;

    if k == 0 {
        assert(array_from(s, 0)@.len() == 16);
    } else {
        lemma_array_from(s, (k - 1) as nat);
    }
}

/// Law: every sequence of sixteen entries is the entries of a matrix.
pub proof fn lemma_matrix_of_entries<T: Copy>(s: Seq<T>)
    requires
        s.len() == 16,
    ensures
        exists|m: Matrix4<T>| m.entries() == s,
{
    lemma_array_from(s, 16);
    let m = Matrix4 { values: array_from(s, 16) };
    assert(m.entries() =~= s);
}

/// Law: the entries of the product of two matrices are the rows of the first times the
/// columns of the second.
pub proof fn lemma_mul_spec_entries<T: Copy + Zero + Add<Output = T> + Mul<Output = T>>(a: Matrix4<T>, b: Matrix4<T>)
    ensures
        a.mul_spec(b).entries() == product(a.entries(), b.entries()),
{
    lemma_matrix_of_entries(product(a.entries(), b.entries()));
}

/// Law: the identity matrix has ones on its diagonal and zeros elsewhere.
pub proof fn lemma_identity_entries<T: Copy + One + Zero>()
    ensures
        <Matrix4<T> as Identity>::spec_identity().entries() == Seq::new(
            16,
            |k: int| if k / 4 == k % 4 { T::spec_one() } else { T::spec_zero() },
        ),
{
    lemma_matrix_of_entries(Seq::new(16, |k: int| if k / 4 == k % 4 { T::spec_one() } else { T::spec_zero() }));
}

impl<T: Copy + Zero + Add<Output = T> + Mul<Output = T>> MulAssign for Matrix4<T> {
    /// Replaces the matrix by its product with `rhs`.
    fn mul_assign(&mut self, rhs: Self)
        requires
            T::obeys_add_spec(),
            T::obeys_mul_spec(),
            product_req(old(self).entries(), rhs.entries()),
        ensures
            final(self).entries() == product(old(self).entries(), rhs.entries()),
    {
        let m = multiply(self, &rhs);
        self.values = m.values;
    }
}

} // verus!

verus! {

/// The components of `v` in order.
pub open spec fn components4<T>(v: Vector4<T>) -> Seq<T> {
    seq![v.x, v.y, v.z, v.w]
}

impl<T: Copy + Add<Output = T> + Mul<Output = T>> Matrix4<T> {
    /// The product of the matrix with the column vector `vec`.
    pub fn transform_vec(&self, vec: &Vector4<T>) -> (r: Vector4<T>)
        requires
            T::obeys_add_spec(),
            T::obeys_mul_spec(),
            forall|j: int| 0 <= j < 4 ==> #[trigger] dot4_req(row(self.entries(), j), components4(*vec)),
        ensures
            r.x == dot4(row(self.entries(), 0), components4(*vec)),
            r.y == dot4(row(self.entries(), 1), components4(*vec)),
            r.z == dot4(row(self.entries(), 2), components4(*vec)),
            r.w == dot4(row(self.entries(), 3), components4(*vec)),
    {
        let v = &self.values;
        proof {
            assert(dot4_req(row(self.entries(), 0), components4(*vec)));
            assert(dot4_req(row(self.entries(), 1), components4(*vec)));
            assert(dot4_req(row(self.entries(), 2), components4(*vec)));
            assert(dot4_req(row(self.entries(), 3), components4(*vec)));
        }
        let x = v[0] * vec.x + v[1] * vec.y + v[2] * vec.z + v[3] * vec.w;
        let y = v[4] * vec.x + v[5] * vec.y + v[6] * vec.z + v[7] * vec.w;
        let z = v[8] * vec.x + v[9] * vec.y + v[10] * vec.z + v[11] * vec.w;
        let w = v[12] * vec.x + v[13] * vec.y + v[14] * vec.z + v[15] * vec.w;
        Vector4::new(x, y, z, w)
    }
}

impl<T: Copy + One + Add<Output = T> + Mul<Output = T>> Matrix4<T> {
    /// The product of the matrix with `vec` extended by a fourth component of one, without
    /// that fourth component.
    pub fn transform_vec3(&self, vec: &Vector3<T>) -> (r: Vector3<T>)
        requires
            T::obeys_add_spec(),
            T::obeys_mul_spec(),
            T::obeys_one(),
            forall|j: int| 0 <= j < 4 ==> #[trigger] dot4_req(row(self.entries(), j), with_one(*vec)),
        ensures
            r.x == dot4(row(self.entries(), 0), with_one(*vec)),
            r.y == dot4(row(self.entries(), 1), with_one(*vec)),
            r.z == dot4(row(self.entries(), 2), with_one(*vec)),
    {
        let extended = Vector4::<T>::new(vec.x, vec.y, vec.z, T::one());
        proof {
            assert(components4(extended) =~= with_one(*vec));
        }
        let transformed = self.transform_vec(&extended);
        Vector3::new(transformed.x, transformed.y, transformed.z)
    }
}

impl<T: Copy + Zero + One + Add<Output = T> + Mul<Output = T>> Matrix4<T> {
    /// The product of the matrix with the translation by `translation`.
    pub fn add_translation(&self, translation: &Vector3<T>) -> (r: Self)
        requires
            T::obeys_add_spec(),
            T::obeys_mul_spec(),
            T::obeys_zero(),
            T::obeys_one(),
            product_req(self.entries(), translation_entries(*translation)),
        ensures
            r.entries() == product(self.entries(), translation_entries(*translation)),
    {
        let t = Self::new_translation(translation);
        multiply(self, &t)
    }

    /// Multiplies the matrix in place by the translation by `translation`.
    pub fn append_translation(&mut self, translation: &Vector3<T>)
        requires
            T::obeys_add_spec(),
            T::obeys_mul_spec(),
            T::obeys_zero(),
            T::obeys_one(),
            product_req(old(self).entries(), translation_entries(*translation)),
        ensures
            final(self).entries() == product(old(self).entries(), translation_entries(*translation)),
    {
        let t = Self::new_translation(translation);
        let m = multiply(self, &t);
        self.values = m.values;
    }
}

/// The components of `v` followed by one.
pub open spec fn with_one<T: One>(v: Vector3<T>) -> Seq<T> {
    seq![v.x, v.y, v.z, T::spec_one()]
}

/// The entries of the translation by `t`.
pub open spec fn translation_entries<U: Zero + One>(t: Vector3<U>) -> Seq<U> {
    seq![
        U::spec_one(), U::spec_zero(), U::spec_zero(), t.x,
        U::spec_zero(), U::spec_one(), U::spec_zero(), t.y,
        U::spec_zero(), U::spec_zero(), U::spec_one(), t.z,
        U::spec_zero(), U::spec_zero(), U::spec_zero(), U::spec_one()
    ]
}

impl<T: Copy> From<Matrix4<T>> for [[T; 4]; 4] {
    /// The columns of the matrix.
    fn from(matrix: Matrix4<T>) -> (r: Self) {
        let v = matrix.values;
        [[v[0], v[4], v[8], v[12]], [v[1], v[5], v[9], v[13]], [v[2], v[6], v[10], v[14]], [v[3], v[7], v[11], v[15]]]
    }
}

impl<T: Copy> vstd::std_specs::convert::FromSpecImpl<Matrix4<T>> for [[T; 4]; 4] {
    open spec fn obeys_from_spec() -> bool {
        true
    }

    /// Column `c` holds row entries `c` of each row.
    open spec fn from_spec(matrix: Matrix4<T>) -> Self {
        let v = matrix.entries();
        [[v[0], v[4], v[8], v[12]], [v[1], v[5], v[9], v[13]], [v[2], v[6], v[10], v[14]], [v[3], v[7], v[11], v[15]]]
    }
}

/// The text of row `r` of a matrix whose entries read `texts`: a tab, each entry followed
/// by `, `, and a newline.
pub open spec fn row_text(texts: Seq<String>, r: int) -> Seq<char> {
    "\t"@ + texts[4 * r]@ + ", "@ + texts[4 * r + 1]@ + ", "@ + texts[4 * r + 2]@ + ", "@ + texts[4 * r + 3]@ + ", "@
        + "\n"@
}

/// The text of a matrix whose entries read `texts`: `[` on a line, each row, and `]` on a
/// line.
pub open spec fn matrix_text(texts: Seq<String>) -> Seq<char> {
    "[\n"@ + row_text(texts, 0) + row_text(texts, 1) + row_text(texts, 2) + row_text(texts, 3) + "]\n"@
}

impl<T: Display> Matrix4<T> {
    /// The text of row `r`, with the texts of its entries.
    fn row_debug_text(&self, r: usize) -> (res: (String, Ghost<Seq<String>>))
        requires
            r < 4,
        ensures
            res.1@.len() == 4,
            forall|k: int| 0 <= k < 4 ==> #[trigger] to_string_from_display_ensures::<T>(&self.entries()[4 * r + k], res.1@[k]),
            res.0@ == "\t"@ + res.1@[0]@ + ", "@ + res.1@[1]@ + ", "@ + res.1@[2]@ + ", "@ + res.1@[3]@ + ", "@ + "\n"@,
    {
        let t0 = self.values[4 * r].to_string();
        let t1 = self.values[4 * r + 1].to_string();
        let t2 = self.values[4 * r + 2].to_string();
        let t3 = self.values[4 * r + 3].to_string();
        let mut s = String::from_str("\t");
        s.append(t0.as_str());
        s.append(", ");
        s.append(t1.as_str());
        s.append(", ");
        s.append(t2.as_str());
        s.append(", ");
        s.append(t3.as_str());
        s.append(", ");
        s.append("\n");
        let ghost texts = seq![t0, t1, t2, t3];
        proof {
            assert(texts[0] == t0 && texts[1] == t1 && texts[2] == t2 && texts[3] == t3);
        }
        (s, Ghost(texts))
    }

    /// The matrix as text: `[` on a line, then each row on a line of its own, indented by a
    /// tab, each entry in its `Display` form followed by `, `, then `]` on a line.
    pub fn debug_string(&self) -> (s: String)
        ensures
            exists|texts: Seq<String>|
                texts.len() == 16 && (forall|k: int|
                    0 <= k < 16 ==> #[trigger] to_string_from_display_ensures::<T>(&self.entries()[k], texts[k]))
                    && s@ == matrix_text(texts),
    {
        let (r0, Ghost(t0)) = self.row_debug_text(0);
        let (r1, Ghost(t1)) = self.row_debug_text(1);
        let (r2, Ghost(t2)) = self.row_debug_text(2);
        let (r3, Ghost(t3)) = self.row_debug_text(3);
        let mut s = String::from_str("[\n");
        s.append(r0.as_str());
        s.append(r1.as_str());
        s.append(r2.as_str());
        s.append(r3.as_str());
        s.append("]\n");
        proof {
            let texts = t0 + t1 + t2 + t3;
            assert forall|k: int| 0 <= k < 16 implies #[trigger] to_string_from_display_ensures::<T>(&self.entries()[k], texts[k]) by {
                if k < 4 {
                    assert(texts[k] == t0[k]);
                    assert(to_string_from_display_ensures::<T>(&self.entries()[4 * 0 + k], t0[k]));
                } else if k < 8 {
                    assert(texts[k] == t1[k - 4]);
                    assert(to_string_from_display_ensures::<T>(&self.entries()[4 * 1 + (k - 4)], t1[k - 4]));
                } else if k < 12 {
                    assert(texts[k] == t2[k - 8]);
                    assert(to_string_from_display_ensures::<T>(&self.entries()[4 * 2 + (k - 8)], t2[k - 8]));
                } else {
                    assert(texts[k] == t3[k - 12]);
                    assert(to_string_from_display_ensures::<T>(&self.entries()[4 * 3 + (k - 12)], t3[k - 12]));
                }
            }
            assert(row_text(texts, 0) == r0@);
            assert(row_text(texts, 1) == r1@);
            assert(row_text(texts, 2) == r2@);
            assert(row_text(texts, 3) == r3@);
            assert(s@ =~= matrix_text(texts));
        }
        s
    }
}

} // verus!

verus! {

/// `a * b - c * d` as `T`'s operators compute it.
pub open spec fn mul_sub<T: NumericOps>(a: T, b: T, c: T, d: T) -> T {
    a.mul_spec(b).sub_spec(c.mul_spec(d))
}

/// Every operation of `mul_sub(a, b, c, d)` is defined.
pub open spec fn mul_sub_req<T: NumericOps>(a: T, b: T, c: T, d: T) -> bool {
    &&& a.mul_req(b)
    &&& c.mul_req(d)
    &&& a.mul_spec(b).sub_req(c.mul_spec(d))
}

/// The 2x2 minor of rows `r1`, `r2` and columns `c1`, `c2` of the row-major matrix `m`.
pub open spec fn minor<T: NumericOps>(m: Seq<T>, r1: int, r2: int, c1: int, c2: int) -> T {
    mul_sub(m[4 * r1 + c1], m[4 * r2 + c2], m[4 * r1 + c2], m[4 * r2 + c1])
}

/// Every operation of `minor(m, r1, r2, c1, c2)` is defined.
pub open spec fn minor_req<T: NumericOps>(m: Seq<T>, r1: int, r2: int, c1: int, c2: int) -> bool {
    mul_sub_req(m[4 * r1 + c1], m[4 * r2 + c2], m[4 * r1 + c2], m[4 * r2 + c1])
}

/// `x * p - y * q + z * s` as `T`'s operators compute it.
pub open spec fn expand3<T: NumericOps>(x: T, p: T, y: T, q: T, z: T, s: T) -> T {
    x.mul_spec(p).sub_spec(y.mul_spec(q)).add_spec(z.mul_spec(s))
}

/// Every operation of `expand3(x, p, y, q, z, s)` is defined.
pub open spec fn expand3_req<T: NumericOps>(x: T, p: T, y: T, q: T, z: T, s: T) -> bool {
    &&& x.mul_req(p)
    &&& y.mul_req(q)
    &&& z.mul_req(s)
    &&& x.mul_spec(p).sub_req(y.mul_spec(q))
    &&& x.mul_spec(p).sub_spec(y.mul_spec(q)).add_req(z.mul_spec(s))
}

/// The 2x2 minors of rows one to three that the inverse is built from, each named by its two
/// columns then its two rows: `[a2323, a1323, a1223, a0323, a0223, a0123, a2313, a1313,
/// a1213, a2312, a1312, a1212, a0313, a0213, a0312, a0212, a0113, a0112]`.
pub open spec fn inverse_minors<T: NumericOps>(m: Seq<T>) -> Seq<T> {
    seq![
        minor(m, 2, 3, 2, 3), minor(m, 2, 3, 1, 3), minor(m, 2, 3, 1, 2), minor(m, 2, 3, 0, 3),
        minor(m, 2, 3, 0, 2), minor(m, 2, 3, 0, 1), minor(m, 1, 3, 2, 3), minor(m, 1, 3, 1, 3),
        minor(m, 1, 3, 1, 2), minor(m, 1, 2, 2, 3), minor(m, 1, 2, 1, 3), minor(m, 1, 2, 1, 2),
        minor(m, 1, 3, 0, 3), minor(m, 1, 3, 0, 2), minor(m, 1, 2, 0, 3), minor(m, 1, 2, 0, 2),
        minor(m, 1, 3, 0, 1), minor(m, 1, 2, 0, 1),
    ]
}

/// Every operation of `inverse_minors(m)` is defined.
pub open spec fn inverse_minors_req<T: NumericOps>(m: Seq<T>) -> bool {
    &&& minor_req(m, 2, 3, 2, 3) &&& minor_req(m, 2, 3, 1, 3) &&& minor_req(m, 2, 3, 1, 2)
    &&& minor_req(m, 2, 3, 0, 3) &&& minor_req(m, 2, 3, 0, 2) &&& minor_req(m, 2, 3, 0, 1)
    &&& minor_req(m, 1, 3, 2, 3) &&& minor_req(m, 1, 3, 1, 3) &&& minor_req(m, 1, 3, 1, 2)
    &&& minor_req(m, 1, 2, 2, 3) &&& minor_req(m, 1, 2, 1, 3) &&& minor_req(m, 1, 2, 1, 2)
    &&& minor_req(m, 1, 3, 0, 3) &&& minor_req(m, 1, 3, 0, 2) &&& minor_req(m, 1, 2, 0, 3)
    &&& minor_req(m, 1, 2, 0, 2) &&& minor_req(m, 1, 3, 0, 1) &&& minor_req(m, 1, 2, 0, 1)
}

/// Where entry `k` of the adjugate expands: its row of `m`, then three pairs of a column of
/// `m` and an index into `inverse_minors`.
pub open spec fn adjugate_plan(k: int) -> (int, int, int, int, int, int, int) {
    if k == 0 { (1, 1, 0, 2, 1, 3, 2) }
    else if k == 1 { (0, 1, 0, 2, 1, 3, 2) }
    else if k == 2 { (0, 1, 6, 2, 7, 3, 8) }
    else if k == 3 { (0, 1, 9, 2, 10, 3, 11) }
    else if k == 4 { (1, 0, 0, 2, 3, 3, 4) }
    else if k == 5 { (0, 0, 0, 2, 3, 3, 4) }
    else if k == 6 { (0, 0, 6, 2, 12, 3, 13) }
    else if k == 7 { (0, 0, 9, 2, 14, 3, 15) }
    else if k == 8 { (1, 0, 1, 1, 3, 3, 5) }
    else if k == 9 { (0, 0, 1, 1, 3, 3, 5) }
    else if k == 10 { (0, 0, 7, 1, 12, 3, 16) }
    else if k == 11 { (0, 0, 10, 1, 14, 3, 17) }
    else if k == 12 { (1, 0, 2, 1, 4, 2, 5) }
    else if k == 13 { (0, 0, 2, 1, 4, 2, 5) }
    else if k == 14 { (0, 0, 8, 1, 13, 2, 16) }
    else { (0, 0, 11, 1, 15, 2, 17) }
}

/// Entry `k` of the adjugate of `m`, before its sign: the expansion of row `r` along three
/// minors, as `adjugate_plan(k)` says.
pub open spec fn adjugate_term<T: NumericOps>(m: Seq<T>, k: int) -> T {
    let (r, ca, ma, cb, mb, cc, mc) = adjugate_plan(k);
    let a = inverse_minors(m);
    expand3(m[4 * r + ca], a[ma], m[4 * r + cb], a[mb], m[4 * r + cc], a[mc])
}

/// Every operation of `adjugate_term(m, k)` is defined.
pub open spec fn adjugate_term_req<T: NumericOps>(m: Seq<T>, k: int) -> bool {
    let (r, ca, ma, cb, mb, cc, mc) = adjugate_plan(k);
    let a = inverse_minors(m);
    expand3_req(m[4 * r + ca], a[ma], m[4 * r + cb], a[mb], m[4 * r + cc], a[mc])
}

/// Whether entry `k` of the inverse takes its adjugate term negated.
pub open spec fn negated_entry(k: int) -> bool {
    k == 1 || k == 3 || k == 4 || k == 6 || k == 9 || k == 11 || k == 12 || k == 14
}

/// The determinant of `m`, expanded along its first row as `T`'s operators compute it.
pub open spec fn determinant<T: NumericOps>(m: Seq<T>) -> T {
    m[0].mul_spec(adjugate_term(m, 0)).sub_spec(m[1].mul_spec(adjugate_term(m, 4))).add_spec(
        m[2].mul_spec(adjugate_term(m, 8)),
    ).sub_spec(m[3].mul_spec(adjugate_term(m, 12)))
}

/// Every operation of `determinant(m)` is defined.
pub open spec fn determinant_req<T: NumericOps>(m: Seq<T>) -> bool {
    let p0 = m[0].mul_spec(adjugate_term(m, 0));
    let p1 = m[1].mul_spec(adjugate_term(m, 4));
    let p2 = m[2].mul_spec(adjugate_term(m, 8));
    let p3 = m[3].mul_spec(adjugate_term(m, 12));
    &&& m[0].mul_req(adjugate_term(m, 0))
    &&& m[1].mul_req(adjugate_term(m, 4))
    &&& m[2].mul_req(adjugate_term(m, 8))
    &&& m[3].mul_req(adjugate_term(m, 12))
    &&& p0.sub_req(p1)
    &&& p0.sub_spec(p1).add_req(p2)
    &&& p0.sub_spec(p1).add_spec(p2).sub_req(p3)
}

/// Entry `k` of the inverse: the adjugate term, negated where `negated_entry` says, times
/// `inv_det`.
pub open spec fn inverse_entry<T: NumericOps>(m: Seq<T>, inv_det: T, k: int) -> T {
    if negated_entry(k) {
        inv_det.mul_spec(adjugate_term(m, k).neg_spec())
    } else {
        inv_det.mul_spec(adjugate_term(m, k))
    }
}

/// Every operation of `inverse_entry(m, inv_det, k)` is defined.
pub open spec fn inverse_entry_req<T: NumericOps>(m: Seq<T>, inv_det: T, k: int) -> bool {
    if negated_entry(k) {
        adjugate_term(m, k).neg_req() && inv_det.mul_req(adjugate_term(m, k).neg_spec())
    } else {
        inv_det.mul_req(adjugate_term(m, k))
    }
}

/// The entries of the inverse of `m`: each signed adjugate term times one over the
/// determinant.
pub open spec fn inverse_entries<T: NumericOps + One>(m: Seq<T>) -> Seq<T> {
    let inv_det = T::spec_one().div_spec(determinant(m));
    Seq::new(16, |k: int| inverse_entry(m, inv_det, k))
}

/// Every operation that `try_inverse` performs on `m` is defined: the minors, the adjugate
/// terms, the determinant, and, where the determinant is not zero, the division and the
/// entries of the inverse.
pub open spec fn inverse_req<T: NumericOps + One + IsZero>(m: Seq<T>) -> bool {
    &&& inverse_minors_req(m)
    &&& forall|k: int| 0 <= k < 16 ==> #[trigger] adjugate_term_req(m, k)
    &&& determinant_req(m)
    &&& !determinant(m).spec_is_zero() ==> {
        &&& T::spec_one().div_req(determinant(m))
        &&& forall|k: int| 0 <= k < 16 ==> #[trigger] inverse_entry_req(m, T::spec_one().div_spec(determinant(m)), k)
    }
}

/// Whether `T`'s operators and its one behave as their specifications say.
pub open spec fn obeys_field_specs<T: NumericOps + One>() -> bool {
    &&& T::obeys_add_spec()
    &&& T::obeys_sub_spec()
    &&& T::obeys_mul_spec()
    &&& T::obeys_div_spec()
    &&& T::obeys_neg_spec()
    &&& T::obeys_one()
}

fn minor_exec<T: Copy + NumericOps>(v: &[T; 16], r1: usize, r2: usize, c1: usize, c2: usize) -> (r: T)
    requires
        r1 < 4 && r2 < 4 && c1 < 4 && c2 < 4,
        T::obeys_mul_spec(),
        T::obeys_sub_spec(),
        minor_req(v@, r1 as int, r2 as int, c1 as int, c2 as int),
    ensures
        r == minor(v@, r1 as int, r2 as int, c1 as int, c2 as int),
{
    v[4 * r1 + c1] * v[4 * r2 + c2] - v[4 * r1 + c2] * v[4 * r2 + c1]
}

fn expand3_exec<T: Copy + NumericOps>(x: T, p: T, y: T, q: T, z: T, s: T) -> (r: T)
    requires
        T::obeys_mul_spec(),
        T::obeys_sub_spec(),
        T::obeys_add_spec(),
        expand3_req(x, p, y, q, z, s),
    ensures
        r == expand3(x, p, y, q, z, s),
{
    x * p - y * q + z * s
}

/// The adjugate term `k` of the entries `v`, given their minors `a`.
fn adjugate_term_exec<T: Copy + NumericOps>(v: &[T; 16], a: &[T; 18], k: usize) -> (r: T)
    requires
        k < 16,
        T::obeys_mul_spec(),
        T::obeys_sub_spec(),
        T::obeys_add_spec(),
        a@ == inverse_minors(v@),
        adjugate_term_req(v@, k as int),
    ensures
        r == adjugate_term(v@, k as int),
{
    let (r, ca, ma, cb, mb, cc, mc): (usize, usize, usize, usize, usize, usize, usize) =
        if k == 0 { (1, 1, 0, 2, 1, 3, 2) }
        else if k == 1 { (0, 1, 0, 2, 1, 3, 2) }
        else if k == 2 { (0, 1, 6, 2, 7, 3, 8) }
        else if k == 3 { (0, 1, 9, 2, 10, 3, 11) }
        else if k == 4 { (1, 0, 0, 2, 3, 3, 4) }
        else if k == 5 { (0, 0, 0, 2, 3, 3, 4) }
        else if k == 6 { (0, 0, 6, 2, 12, 3, 13) }
        else if k == 7 { (0, 0, 9, 2, 14, 3, 15) }
        else if k == 8 { (1, 0, 1, 1, 3, 3, 5) }
        else if k == 9 { (0, 0, 1, 1, 3, 3, 5) }
        else if k == 10 { (0, 0, 7, 1, 12, 3, 16) }
        else if k == 11 { (0, 0, 10, 1, 14, 3, 17) }
        else if k == 12 { (1, 0, 2, 1, 4, 2, 5) }
        else if k == 13 { (0, 0, 2, 1, 4, 2, 5) }
        else if k == 14 { (0, 0, 8, 1, 13, 2, 16) }
        else { (0, 0, 11, 1, 15, 2, 17) };
    expand3_exec(v[4 * r + ca], a[ma], v[4 * r + cb], a[mb], v[4 * r + cc], a[mc])
}

impl<T: Copy + NumericOps + Zero + One + IsZero> Matrix4<T> {
    /// The inverse of the matrix by cofactor expansion, `None` where the determinant counts as
    /// zero.
    pub fn try_inverse(&self) -> (r: Option<Matrix4<T>>)
        requires
            obeys_field_specs::<T>(),
            inverse_req(self.entries()),
        ensures
            r is None <==> determinant(self.entries()).spec_is_zero(),
            r matches Some(m) ==> m.entries() == inverse_entries(self.entries()),
    {
        let v = &self.values;
        let a: [T; 18] = [
            minor_exec(v, 2, 3, 2, 3), minor_exec(v, 2, 3, 1, 3), minor_exec(v, 2, 3, 1, 2),
            minor_exec(v, 2, 3, 0, 3), minor_exec(v, 2, 3, 0, 2), minor_exec(v, 2, 3, 0, 1),
            minor_exec(v, 1, 3, 2, 3), minor_exec(v, 1, 3, 1, 3), minor_exec(v, 1, 3, 1, 2),
            minor_exec(v, 1, 2, 2, 3), minor_exec(v, 1, 2, 1, 3), minor_exec(v, 1, 2, 1, 2),
            minor_exec(v, 1, 3, 0, 3), minor_exec(v, 1, 3, 0, 2), minor_exec(v, 1, 2, 0, 3),
            minor_exec(v, 1, 2, 0, 2), minor_exec(v, 1, 3, 0, 1), minor_exec(v, 1, 2, 0, 1),
        ];
        proof {
            assert(a@ =~= inverse_minors(v@));
            assert(adjugate_term_req(v@, 0) && adjugate_term_req(v@, 4));
            assert(adjugate_term_req(v@, 8) && adjugate_term_req(v@, 12));
        }
        let d0 = adjugate_term_exec(v, &a, 0);
        let d1 = adjugate_term_exec(v, &a, 4);
        let d2 = adjugate_term_exec(v, &a, 8);
        let d3 = adjugate_term_exec(v, &a, 12);
        let det = v[0] * d0 - v[1] * d1 + v[2] * d2 - v[3] * d3;
        if det.is_zero() {
            return None;
        }
        let inv_det = T::one() / det;
        let mut values: [T; 16] = *v;
        for k in 0..16usize
            invariant
                obeys_field_specs::<T>(),
                inverse_req(v@),
                !determinant(v@).spec_is_zero(),
                inv_det == T::spec_one().div_spec(determinant(v@)),
                a@ == inverse_minors(v@),
                values@.len() == 16,
                forall|j: int| 0 <= j < k ==> values@[j] == #[trigger] inverse_entry(v@, inv_det, j),
        {
            assert(adjugate_term_req(v@, k as int));
            assert(inverse_entry_req(v@, inv_det, k as int));
            let term = adjugate_term_exec(v, &a, k);
            let entry = if k == 1 || k == 3 || k == 4 || k == 6 || k == 9 || k == 11 || k == 12 || k == 14 {
                inv_det * term.neg()
            } else {
                inv_det * term
            };
            values[k] = entry;
        }
        let m = Matrix4 { values };
        proof {
            assert(m.values@ =~= inverse_entries(v@));
        }
        Some(m)
    }
}

} // verus!
