//! The persisted layout of vectors and matrices: an eight-byte element size,
//! the dimensions as eight-byte counts (a vector's length; a matrix's rows,
//! then columns), then the elements in order. Records may follow one another
//! in one byte sequence. Every field is little-endian, whatever the byte
//! order of the host: on a big-endian host this differs from its native
//! order.
use vstd::prelude::*;

use crate::matrix::Matrix;
use crate::vector::Vector;

verus! {

/// The size in bytes of one stored element.
pub const ELEMENT_SIZE: u64 = 4;

/// Why a byte sequence is not a stored vector or matrix.
#[derive(Clone, Copy, Debug, PartialEq, Eq, Structural)]
pub enum FormatError {
    /// The bytes end before the header or the elements do.
    Truncated,
    /// The element size field holds another size: the bytes were written
    /// for other elements, or in another byte order.
    ElementSizeMismatch { found: u64 },
}

pub open spec fn u32_bytes(x: u32) -> Seq<u8> {
    seq![x as u8, (x >> 8u32) as u8, (x >> 16u32) as u8, (x >> 24u32) as u8]
}

pub open spec fn u32_from(b0: u8, b1: u8, b2: u8, b3: u8) -> u32 {
    (b0 as u32) | ((b1 as u32) << 8u32) | ((b2 as u32) << 16u32) | ((b3 as u32) << 24u32)
}

pub open spec fn u64_bytes(x: u64) -> Seq<u8> {
    seq![
        x as u8,
        (x >> 8u64) as u8,
        (x >> 16u64) as u8,
        (x >> 24u64) as u8,
        (x >> 32u64) as u8,
        (x >> 40u64) as u8,
        (x >> 48u64) as u8,
        (x >> 56u64) as u8,
    ]
}

pub open spec fn u64_from(b: Seq<u8>) -> u64 {
    (b[0] as u64) | ((b[1] as u64) << 8u64) | ((b[2] as u64) << 16u64) | ((b[3] as u64) << 24u64) | ((
    b[4] as u64) << 32u64) | ((b[5] as u64) << 40u64) | ((b[6] as u64) << 48u64) | ((b[7] as u64)
        << 56u64)
}

/// The elements of `s`, four bytes each.
pub open spec fn payload(s: Seq<u32>) -> Seq<u8>
    decreases s.len(),
{
    if s.len() == 0 {
        Seq::empty()
    } else {
        payload(s.drop_last()) + u32_bytes(s.last())
    }
}

/// The stored form of a vector with elements `s`.
pub open spec fn vector_bytes(s: Seq<u32>) -> Seq<u8> {
    u64_bytes(ELEMENT_SIZE) + u64_bytes(s.len() as u64) + payload(s)
}

/// The stored form of a `rows` by `cols` matrix with elements `s`.
pub open spec fn matrix_bytes(rows: nat, cols: nat, s: Seq<u32>) -> Seq<u8> {
    u64_bytes(ELEMENT_SIZE) + u64_bytes(rows as u64) + u64_bytes(cols as u64) + payload(s)
}

/// No matrix of machine-sized shape has the stored form `b`.
pub open spec fn not_a_stored_matrix(b: Seq<u8>) -> bool {
    forall|rows: nat, cols: nat, s: Seq<u32>|
        rows <= usize::MAX && cols <= usize::MAX && s.len() == rows * cols ==> b != #[trigger] matrix_bytes(
            rows,
            cols,
            s,
        )
}

proof fn lemma_u32_round_trip(x: u32)
    ensures
        u32_from(x as u8, (x >> 8u32) as u8, (x >> 16u32) as u8, (x >> 24u32) as u8) == x,
{
    assert((((x as u8) as u32) | ((((x >> 8u32) as u8) as u32) << 8u32) | ((((x >> 16u32) as u8) as u32)
        << 16u32) | ((((x >> 24u32) as u8) as u32) << 24u32)) == x) by (bit_vector);
}

proof fn lemma_u32_bytes_of_from(b0: u8, b1: u8, b2: u8, b3: u8)
    ensures
        u32_bytes(u32_from(b0, b1, b2, b3)) == seq![b0, b1, b2, b3],
{
    let x = u32_from(b0, b1, b2, b3);
    assert(x as u8 == b0 && (x >> 8u32) as u8 == b1 && (x >> 16u32) as u8 == b2 && (x >> 24u32) as u8
        == b3) by (bit_vector)
        requires
            x == (b0 as u32) | ((b1 as u32) << 8u32) | ((b2 as u32) << 16u32) | ((b3 as u32) << 24u32),
    ;
    assert(u32_bytes(x) =~= seq![b0, b1, b2, b3]);
}

pub proof fn lemma_u64_round_trip(x: u64)
    ensures
        u64_from(u64_bytes(x)) == x,
{
    assert((((x as u8) as u64) | ((((x >> 8u64) as u8) as u64) << 8u64) | ((((x >> 16u64) as u8) as u64)
        << 16u64) | ((((x >> 24u64) as u8) as u64) << 24u64) | ((((x >> 32u64) as u8) as u64) << 32u64)
        | ((((x >> 40u64) as u8) as u64) << 40u64) | ((((x >> 48u64) as u8) as u64) << 48u64) | ((((x
        >> 56u64) as u8) as u64) << 56u64)) == x) by (bit_vector);
}

proof fn lemma_u64_bytes_of_from(b: Seq<u8>)
    requires
        b.len() == 8,
    ensures
        u64_bytes(u64_from(b)) == b,
{
    let (b0, b1, b2, b3, b4, b5, b6, b7) = (b[0], b[1], b[2], b[3], b[4], b[5], b[6], b[7]);
    let x = u64_from(b);
    assert(x as u8 == b0 && (x >> 8u64) as u8 == b1 && (x >> 16u64) as u8 == b2 && (x >> 24u64) as u8
        == b3 && (x >> 32u64) as u8 == b4 && (x >> 40u64) as u8 == b5 && (x >> 48u64) as u8 == b6 && (x
        >> 56u64) as u8 == b7) by (bit_vector)
        requires
            x == (b0 as u64) | ((b1 as u64) << 8u64) | ((b2 as u64) << 16u64) | ((b3 as u64) << 24u64)
                | ((b4 as u64) << 32u64) | ((b5 as u64) << 40u64) | ((b6 as u64) << 48u64) | ((b7 as u64)
                << 56u64),
    ;
    assert(u64_bytes(x) =~= b);
}

pub proof fn lemma_payload_len(s: Seq<u32>)
    ensures
        payload(s).len() == 4 * s.len(),
    decreases s.len(),
{
    if s.len() > 0 {
        lemma_payload_len(s.drop_last());
    }
}

/// Element `i` of `s` stands in bytes `4 * i .. 4 * i + 4` of its payload.
proof fn lemma_payload_at(s: Seq<u32>, i: int)
    requires
        0 <= i < s.len(),
    ensures
        payload(s).subrange(4 * i, 4 * i + 4) == u32_bytes(s[i]),
    decreases s.len(),
{
    lemma_payload_len(s.drop_last());
    if i < s.len() - 1 {
        lemma_payload_at(s.drop_last(), i);
        assert(payload(s).subrange(4 * i, 4 * i + 4) =~= payload(s.drop_last()).subrange(4 * i, 4 * i + 4));
    } else {
        assert(payload(s).subrange(4 * i, 4 * i + 4) =~= u32_bytes(s.last()));
    }
}

/// Two sequences with the same payload are equal.
pub proof fn lemma_payload_injective(s: Seq<u32>, t: Seq<u32>)
    requires
        payload(s) == payload(t),
    ensures
        s == t,
{
    lemma_payload_len(s);
    lemma_payload_len(t);
    assert forall|i: int| 0 <= i < s.len() implies s[i] == t[i] by {
        lemma_payload_at(s, i);
        lemma_payload_at(t, i);
        lemma_u32_round_trip(s[i]);
        lemma_u32_round_trip(t[i]);
    }
    assert(s =~= t);
}

/// Appends `x`, little-endian.
pub fn write_u64(out: &mut Vec<u8>, x: u64)
    ensures
        final(out)@ == old(out)@ + u64_bytes(x),
{
    out.push(x as u8);
    out.push((x >> 8) as u8);
    out.push((x >> 16) as u8);
    out.push((x >> 24) as u8);
    out.push((x >> 32) as u8);
    out.push((x >> 40) as u8);
    out.push((x >> 48) as u8);
    out.push((x >> 56) as u8);
    assert(out@ =~= old(out)@ + u64_bytes(x));
}

fn push_payload(out: &mut Vec<u8>, s: &Vec<u32>)
    ensures
        final(out)@ == old(out)@ + payload(s@),
{
    let ghost start = out@;
    let mut i: usize = 0;
    while i < s.len()
        invariant
            i <= s.len(),
            out@ == start + payload(s@.take(i as int)),
        decreases s.len() - i,
    {
        let x = s[i];
        out.push(x as u8);
        out.push((x >> 8) as u8);
        out.push((x >> 16) as u8);
        out.push((x >> 24) as u8);
        proof {
            assert(s@.take(i + 1).drop_last() =~= s@.take(i as int));
            assert(out@ =~= start + payload(s@.take(i + 1)));
        }
        i = i + 1;
    }
    assert(s@.take(s.len() as int) =~= s@);
}

/// The little-endian `u64` at `at`, or `Truncated` where fewer than eight
/// bytes remain there.
pub fn read_u64(b: &Vec<u8>, at: usize) -> (r: Result<u64, FormatError>)
    ensures
        match r {
            Ok(x) => at + 8 <= b.len() && x == u64_from(b@.subrange(at as int, at + 8)),
            Err(e) => at + 8 > b.len() && e == FormatError::Truncated,
        },
{
    if b.len() < 8 || at > b.len() - 8 {
        return Err(FormatError::Truncated);
    }
    Ok((b[at] as u64) | ((b[at + 1] as u64) << 8) | ((b[at + 2] as u64) << 16) | ((b[at + 3] as u64)
        << 24) | ((b[at + 4] as u64) << 32) | ((b[at + 5] as u64) << 40) | ((b[at + 6] as u64) << 48)
        | ((b[at + 7] as u64) << 56))
}

/// Reads `n` elements from `b` at `at`.
fn read_payload(b: &Vec<u8>, at: usize, n: usize) -> (r: Vec<u32>)
    requires
        at + 4 * n <= b.len(),
    ensures
        r.len() == n,
        payload(r@) == b@.subrange(at as int, at + 4 * n),
{
    let mut r: Vec<u32> = Vec::with_capacity(n);
    let mut i: usize = 0;
    while i < n
        invariant
            at + 4 * n <= b.len(),
            i <= n,
            r.len() == i,
            payload(r@) == b@.subrange(at as int, at + 4 * i),
        decreases n - i,
    {
        let p = at + 4 * i;
        let x = (b[p] as u32) | ((b[p + 1] as u32) << 8) | ((b[p + 2] as u32) << 16) | ((b[p + 3] as u32)
            << 24);
        proof {
            lemma_u32_bytes_of_from(b[p as int], b[p + 1], b[p + 2], b[p + 3]);
        }
        let ghost before = r@;
        r.push(x);
        proof {
            assert(r@.drop_last() =~= before);
            assert(b@.subrange(at as int, at + 4 * (i + 1)) =~= b@.subrange(at as int, at + 4 * i)
                + seq![b[p as int], b[p + 1], b[p + 2], b[p + 3]]);
        }
        i = i + 1;
    }
    r
}

/// Bytes `b` hold the stored form `rec` from `at` on.
pub open spec fn holds_at(b: Seq<u8>, at: int, rec: Seq<u8>) -> bool {
    0 <= at && at + rec.len() <= b.len() && b.subrange(at, at + rec.len()) == rec
}

/// No vector is stored in `b` at `at`.
pub open spec fn no_vector_at(b: Seq<u8>, at: int) -> bool {
    forall|s: Seq<u32>| !holds_at(b, at, #[trigger] vector_bytes(s))
}

/// No matrix of machine-sized shape is stored in `b` at `at`.
pub open spec fn no_matrix_at(b: Seq<u8>, at: int) -> bool {
    forall|rows: nat, cols: nat, s: Seq<u32>|
        rows <= usize::MAX && cols <= usize::MAX && s.len() == rows * cols ==> !holds_at(
            b,
            at,
            #[trigger] matrix_bytes(rows, cols, s),
        )
}

/// The element size field at `at`, which must fit.
fn check_element_size(b: &Vec<u8>, at: usize) -> (r: Result<(), FormatError>)
    ensures
        match r {
            Ok(()) => at + 8 <= b.len() && u64_from(b@.subrange(at as int, at + 8)) == ELEMENT_SIZE,
            Err(FormatError::ElementSizeMismatch { found }) => at + 8 <= b.len() && found == u64_from(
                b@.subrange(at as int, at + 8),
            ) && found != ELEMENT_SIZE,
            Err(FormatError::Truncated) => at + 8 > b.len(),
        },
{
    let size = read_u64(b, at)?;
    if size != ELEMENT_SIZE {
        return Err(FormatError::ElementSizeMismatch { found: size });
    }
    Ok(())
}

impl Vector<u32> {
    /// The stored form of the vector.
    pub fn to_bytes(&self) -> (r: Vec<u8>)
        ensures
            r@ == vector_bytes(self@),
    {
        let mut out: Vec<u8> = Vec::new();
        write_u64(&mut out, ELEMENT_SIZE);
        write_u64(&mut out, self.len() as u64);
        push_payload(&mut out, self.buffer());
        out
    }

    /// The vector stored in `b` at `at`, with the number of bytes its record
    /// takes; bytes after the record are left alone.
    pub fn from_bytes(b: &Vec<u8>, at: usize) -> (r: Result<(Vector<u32>, usize), FormatError>)
        ensures
            match r {
                Ok((v, used)) => used == vector_bytes(v@).len() && holds_at(b@, at as int, vector_bytes(v@)),
                Err(FormatError::ElementSizeMismatch { found }) => at + 8 <= b.len() && found == u64_from(
                    b@.subrange(at as int, at + 8),
                ) && found != ELEMENT_SIZE,
                Err(FormatError::Truncated) => (at + 8 > b.len() || u64_from(b@.subrange(at as int, at + 8))
                    == ELEMENT_SIZE) && (at + 16 > b.len() || 4 * u64_from(b@.subrange(at + 8, at + 16)) > b.len()
                    - at - 16) && no_vector_at(b@, at as int),
            },
    {
        let r = check_element_size(b, at);
        if let Err(e) = r {
            proof {
                if e == FormatError::Truncated {
                    assert forall|s: Seq<u32>| !holds_at(b@, at as int, #[trigger] vector_bytes(s)) by {
                        lemma_payload_len(s);
                    }
                }
            }
            return Err(e);
        }
        let n = match read_u64(b, at + 8) {
            Ok(n) => n,
            Err(e) => {
                proof {
                    assert forall|s: Seq<u32>| !holds_at(b@, at as int, #[trigger] vector_bytes(s)) by {
                        lemma_payload_len(s);
                    }
                }
                return Err(e);
            },
        };
        let room = (b.len() - at - 16) as u64;
        if n > room / 4 {
            proof {
                assert forall|s: Seq<u32>| !holds_at(b@, at as int, #[trigger] vector_bytes(s)) by {
                    lemma_payload_len(s);
                    if holds_at(b@, at as int, vector_bytes(s)) {
                        let m = vector_bytes(s);
                        assert(b@.subrange(at + 8, at + 16) =~= m.subrange(8, 16));
                        assert(m.subrange(8, 16) =~= u64_bytes(s.len() as u64));
                        lemma_u64_round_trip(s.len() as u64);
                    }
                }
            }
            return Err(FormatError::Truncated);
        }
        let n = n as usize;
        let elems = read_payload(b, at + 16, n);
        proof {
            lemma_payload_len(elems@);
            lemma_u64_bytes_of_from(b@.subrange(at as int, at + 8));
            lemma_u64_bytes_of_from(b@.subrange(at + 8, at + 16));
            assert(b@.subrange(at as int, at + 16 + 4 * n) =~= b@.subrange(at as int, at + 8) + b@.subrange(
                at + 8,
                at + 16,
            ) + b@.subrange(at + 16, at + 16 + 4 * n));
        }
        Ok((Vector::from_vec(elems), 16 + 4 * n))
    }
}

impl Matrix<u32> {
    /// The stored form of the matrix.
    pub fn to_bytes(&self) -> (r: Vec<u8>)
        ensures
            r@ == matrix_bytes(self.rows(), self.cols(), self@),
            self@.len() == self.rows() * self.cols(),
    {
        let mut out: Vec<u8> = Vec::new();
        write_u64(&mut out, ELEMENT_SIZE);
        write_u64(&mut out, self.get_row_count() as u64);
        write_u64(&mut out, self.get_col_count() as u64);
        push_payload(&mut out, self.buffer());
        out
    }

    /// The matrix stored in `b` at `at`, with the number of bytes its record
    /// takes; bytes after the record are left alone.
    pub fn from_bytes(b: &Vec<u8>, at: usize) -> (r: Result<(Matrix<u32>, usize), FormatError>)
        ensures
            match r {
                Ok((m, used)) => used == matrix_bytes(m.rows(), m.cols(), m@).len() && holds_at(
                    b@,
                    at as int,
                    matrix_bytes(m.rows(), m.cols(), m@),
                ),
                Err(FormatError::ElementSizeMismatch { found }) => at + 8 <= b.len() && found == u64_from(
                    b@.subrange(at as int, at + 8),
                ) && found != ELEMENT_SIZE,
                Err(FormatError::Truncated) => (at + 8 > b.len() || u64_from(b@.subrange(at as int, at + 8))
                    == ELEMENT_SIZE) && (at + 24 > b.len() || 4 * (u64_from(b@.subrange(at + 8, at + 16))
                    * u64_from(b@.subrange(at + 16, at + 24))) > b.len() - at - 24 || u64_from(
                    b@.subrange(at + 8, at + 16),
                ) > usize::MAX || u64_from(b@.subrange(at + 16, at + 24)) > usize::MAX) && no_matrix_at(
                    b@,
                    at as int,
                ),
            },
    {
        let r = check_element_size(b, at);
        if let Err(e) = r {
            proof {
                if e == FormatError::Truncated {
                    assert forall|rows: nat, cols: nat, s: Seq<u32>|
                        rows <= usize::MAX && cols <= usize::MAX && s.len() == rows * cols implies !holds_at(
                            b@,
                            at as int,
                            #[trigger] matrix_bytes(rows, cols, s),
                        ) by {
                        lemma_payload_len(s);
                    }
                }
            }
            return Err(e);
        }
        if b.len() - at < 24 {
            proof {
                assert forall|rows: nat, cols: nat, s: Seq<u32>|
                    rows <= usize::MAX && cols <= usize::MAX && s.len() == rows * cols implies !holds_at(
                        b@,
                        at as int,
                        #[trigger] matrix_bytes(rows, cols, s),
                    ) by {
                    lemma_payload_len(s);
                }
            }
            return Err(FormatError::Truncated);
        }
        let rows = match read_u64(b, at + 8) {
            Ok(x) => x,
            Err(e) => {
                return Err(e);
            },
        };
        let cols = match read_u64(b, at + 16) {
            Ok(x) => x,
            Err(e) => {
                return Err(e);
            },
        };
        let room = (b.len() - at - 24) as u64;
        let count = rows.checked_mul(cols);
        let fits = match count {
            Some(n) => n <= room / 4,
            None => false,
        };
        if !fits || rows as usize as u64 != rows || cols as usize as u64 != cols {
            proof {
                assert forall|r: nat, c: nat, s: Seq<u32>|
                    r <= usize::MAX && c <= usize::MAX && s.len() == r * c implies !holds_at(
                        b@,
                        at as int,
                        #[trigger] matrix_bytes(r, c, s),
                    ) by {
                    lemma_payload_len(s);
                    if holds_at(b@, at as int, matrix_bytes(r, c, s)) {
                        let m = matrix_bytes(r, c, s);
                        assert(b@.subrange(at + 8, at + 16) =~= m.subrange(8, 16));
                        assert(b@.subrange(at + 16, at + 24) =~= m.subrange(16, 24));
                        assert(m.subrange(8, 16) =~= u64_bytes(r as u64));
                        assert(m.subrange(16, 24) =~= u64_bytes(c as u64));
                        lemma_u64_round_trip(r as u64);
                        lemma_u64_round_trip(c as u64);
                    }
                }
            }
            return Err(FormatError::Truncated);
        }
        let n = (rows * cols) as usize;
        let elems = read_payload(b, at + 24, n);
        proof {
            lemma_payload_len(elems@);
            lemma_u64_bytes_of_from(b@.subrange(at as int, at + 8));
            lemma_u64_bytes_of_from(b@.subrange(at + 8, at + 16));
            lemma_u64_bytes_of_from(b@.subrange(at + 16, at + 24));
            assert(b@.subrange(at as int, at + 24 + 4 * n) =~= b@.subrange(at as int, at + 8) + b@.subrange(
                at + 8,
                at + 16,
            ) + b@.subrange(at + 16, at + 24) + b@.subrange(at + 24, at + 24 + 4 * n));
        }
        Ok((Matrix::from_vec(elems, rows as usize, cols as usize), 24 + 4 * n))
    }
}

} // verus!
