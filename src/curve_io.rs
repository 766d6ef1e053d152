//! Reading and writing group elements: fixed-size uncompressed encodings,
//! and vectors of them behind a big-endian `u64` length.
use crate::curve::{identity_encoding, CompressedEncoding, UncompressedEncoding};
use vstd::prelude::*;

verus! {

/// Failures while reading encoded group elements.
#[derive(Clone, Copy, Debug, PartialEq, Eq, Structural)]
pub enum IoError {
    /// The input ended before the value did.
    UnexpectedEof,
    /// The bytes do not encode a valid group element.
    InvalidGroup,
    /// The point at infinity where it is not allowed.
    PointAtInfinity,
    /// A byte that encodes no value of its kind.
    InvalidTag,
}

/// The big-endian encoding of a `u64`.
pub open spec fn be_u64(n: u64) -> Seq<u8> {
    seq![
        (n >> 56u64) as u8, (n >> 48u64) as u8, (n >> 40u64) as u8, (n >> 32u64) as u8,
        (n >> 24u64) as u8, (n >> 16u64) as u8, (n >> 8u64) as u8, n as u8,
    ]
}

/// The `u64` whose big-endian encoding is `b`.
pub open spec fn from_be_u64(b: Seq<u8>) -> u64 {
    ((b[0] as u64) << 56u64) | ((b[1] as u64) << 48u64) | ((b[2] as u64) << 40u64)
        | ((b[3] as u64) << 32u64) | ((b[4] as u64) << 24u64) | ((b[5] as u64) << 16u64)
        | ((b[6] as u64) << 8u64) | (b[7] as u64)
}

/// Reading back a written `u64` gives it again.
pub proof fn lemma_be_u64_round_trip(n: u64)
    ensures
        from_be_u64(be_u64(n)) == n,
{
    let b = be_u64(n);
    let (b0, b1, b2, b3, b4, b5, b6, b7) = (b[0], b[1], b[2], b[3], b[4], b[5], b[6], b[7]);
    assert(b0 == (n >> 56u64) as u8 && b1 == (n >> 48u64) as u8 && b2 == (n >> 40u64) as u8
        && b3 == (n >> 32u64) as u8 && b4 == (n >> 24u64) as u8 && b5 == (n >> 16u64) as u8
        && b6 == (n >> 8u64) as u8 && b7 == n as u8);
    assert(((b0 as u64) << 56u64) | ((b1 as u64) << 48u64) | ((b2 as u64) << 40u64)
        | ((b3 as u64) << 32u64) | ((b4 as u64) << 24u64) | ((b5 as u64) << 16u64)
        | ((b6 as u64) << 8u64) | (b7 as u64) == n) by (bit_vector)
        requires
            b0 == (n >> 56u64) as u8, b1 == (n >> 48u64) as u8, b2 == (n >> 40u64) as u8,
            b3 == (n >> 32u64) as u8, b4 == (n >> 24u64) as u8, b5 == (n >> 16u64) as u8,
            b6 == (n >> 8u64) as u8, b7 == n as u8,
    ;
}

/// Writing a read `u64` gives back its eight bytes.
pub proof fn lemma_from_be_u64_round_trip(b: Seq<u8>)
    requires
        b.len() == 8,
    ensures
        be_u64(from_be_u64(b)) == b,
{
    let (b0, b1, b2, b3, b4, b5, b6, b7) = (b[0], b[1], b[2], b[3], b[4], b[5], b[6], b[7]);
    let n = from_be_u64(b);
    assert(n == ((b0 as u64) << 56u64) | ((b1 as u64) << 48u64) | ((b2 as u64) << 40u64)
        | ((b3 as u64) << 32u64) | ((b4 as u64) << 24u64) | ((b5 as u64) << 16u64)
        | ((b6 as u64) << 8u64) | (b7 as u64));
    assert(b0 == (n >> 56u64) as u8 && b1 == (n >> 48u64) as u8 && b2 == (n >> 40u64) as u8
        && b3 == (n >> 32u64) as u8 && b4 == (n >> 24u64) as u8 && b5 == (n >> 16u64) as u8
        && b6 == (n >> 8u64) as u8 && b7 == n as u8) by (bit_vector)
        requires
            n == ((b0 as u64) << 56u64) | ((b1 as u64) << 48u64) | ((b2 as u64) << 40u64)
                | ((b3 as u64) << 32u64) | ((b4 as u64) << 24u64) | ((b5 as u64) << 16u64)
                | ((b6 as u64) << 8u64) | (b7 as u64),
    ;
    assert(be_u64(n) =~= b);
}

/// Appends the big-endian encoding of `n`.
pub fn write_u64_be(out: &mut Vec<u8>, n: u64)
    ensures
        final(out)@ == old(out)@ + be_u64(n),
{
    out.push((n >> 56u64) as u8);
    out.push((n >> 48u64) as u8);
    out.push((n >> 40u64) as u8);
    out.push((n >> 32u64) as u8);
    out.push((n >> 24u64) as u8);
    out.push((n >> 16u64) as u8);
    out.push((n >> 8u64) as u8);
    out.push(n as u8);
    assert(final(out)@ =~= old(out)@ + be_u64(n));
}

/// Reads a big-endian `u64` at `pos`, returning it and the position after it.
pub fn read_u64_be(input: &[u8], pos: usize) -> (r: Result<(u64, usize), IoError>)
    ensures
        (r is Err) == (pos + 8 > input@.len()),
        r is Err ==> r == Err::<(u64, usize), IoError>(IoError::UnexpectedEof),
        r matches Ok((n, end)) ==> end == pos + 8
            && n == from_be_u64(input@.subrange(pos as int, pos + 8)),
{
    if input.len() < 8 || pos > input.len() - 8 {
        return Err(IoError::UnexpectedEof);
    }
    let n = ((input[pos] as u64) << 56u64) | ((input[pos + 1] as u64) << 48u64)
        | ((input[pos + 2] as u64) << 40u64) | ((input[pos + 3] as u64) << 32u64)
        | ((input[pos + 4] as u64) << 24u64) | ((input[pos + 5] as u64) << 16u64)
        | ((input[pos + 6] as u64) << 8u64) | (input[pos + 7] as u64);
    Ok((n, pos + 8))
}

/// The concatenated encodings of a sequence of points.
pub open spec fn encodings<E: UncompressedEncoding>(es: Seq<E>) -> Seq<u8>
    decreases es.len(),
{
    if es.len() == 0 {
        Seq::empty()
    } else {
        encodings(es.drop_last()) + es.last().enc()
    }
}

/// The bytes written for a vector of points: its length, then the points.
pub open spec fn groups_encoding<E: UncompressedEncoding>(es: Seq<E>) -> Seq<u8> {
    be_u64(es.len() as u64) + encodings(es)
}

/// The concatenated encodings of points with encodings of one length are
/// that many times as long, and the `i`-th slice of that length is point `i`.
pub proof fn lemma_encodings_index<E: UncompressedEncoding>(es: Seq<E>, i: int)
    requires
        0 <= i < es.len(),
    ensures
        encodings(es).len() == es.len() * E::enc_len(),
        encodings(es).subrange(i * E::enc_len(), i * E::enc_len() + E::enc_len()) == es[i].enc(),
    decreases es.len(),
{
    lemma_encodings_len(es);
    let l = E::enc_len() as int;
    let init = es.drop_last();
    lemma_encodings_len(init);
    es.last().lemma_enc_len();
    assert(encodings(es) == encodings(init) + es.last().enc());
    if i == es.len() - 1 {
        assert(i * l == init.len() * l);
        assert(encodings(es).subrange(i * l, i * l + l) =~= es.last().enc());
    } else {
        lemma_encodings_index(init, i);
        assert(i * l + l <= init.len() * l) by (nonlinear_arith)
            requires
                i < init.len(),
                l >= 0,
        ;
        assert(encodings(es).subrange(i * l, i * l + l) =~= encodings(init).subrange(i * l, i * l + l));
    }
}

/// The concatenated encodings are as long as their count times one encoding.
pub proof fn lemma_encodings_len<E: UncompressedEncoding>(es: Seq<E>)
    ensures
        encodings(es).len() == es.len() * E::enc_len(),
    decreases es.len(),
{
    if es.len() > 0 {
        lemma_encodings_len(es.drop_last());
        es.last().lemma_enc_len();
        assert(es.len() * E::enc_len() == (es.len() - 1) * E::enc_len() + E::enc_len()) by (nonlinear_arith);
    }
}

/// Appends the uncompressed encoding of `e`.
pub fn write_group_uncompressed<E: UncompressedEncoding>(out: &mut Vec<u8>, e: &E)
    ensures
        final(out)@ == old(out)@ + e.enc(),
{
    e.write_to(out);
}

/// Appends the number of points as a big-endian `u64`, then the uncompressed
/// encoding of each.
pub fn write_groups_uncompressed<E: UncompressedEncoding>(out: &mut Vec<u8>, es: &[E])
    ensures
        final(out)@ == old(out)@ + groups_encoding(es@),
{
    write_u64_be(out, es.len() as u64);
    let ghost start = out@;
    let mut i: usize = 0;
    while i < es.len()
        invariant
            i <= es@.len(),
            out@ == start + encodings(es@.subrange(0, i as int)),
            start == old(out)@ + be_u64(es@.len() as u64),
        decreases es@.len() - i,
    {
        es[i].write_to(out);
        assert(es@.subrange(0, (i + 1) as int).drop_last() =~= es@.subrange(0, i as int));
        i = i + 1;
    }
    assert(es@.subrange(0, es@.len() as int) =~= es@);
}

/// What reading one point at `pos` gives: the point, or the first failure.
pub open spec fn read_group_ok<E: UncompressedEncoding>(
    input: Seq<u8>,
    pos: int,
    checked: bool,
    allow_zero: bool,
) -> bool {
    &&& pos + E::enc_len() <= input.len()
    &&& E::decodes(input.subrange(pos, pos + E::enc_len()), checked)
    &&& (allow_zero || input.subrange(pos, pos + E::enc_len()) != identity_encoding(E::enc_len()))
}

/// Reads the uncompressed encoding of a point at `pos`; returns the point and
/// the position after it. Fails on a short input, bytes that do not decode,
/// or (unless `allow_zero`) the point at infinity.
pub fn read_group_uncompressed<E: UncompressedEncoding>(
    input: &[u8],
    pos: usize,
    checked: bool,
    allow_zero: bool,
) -> (r: Result<(E, usize), IoError>)
    ensures
        (r is Ok) == read_group_ok::<E>(input@, pos as int, checked, allow_zero),
        r matches Ok((e, end)) ==> end == pos + E::enc_len()
            && e.enc() == input@.subrange(pos as int, pos + E::enc_len()),
        r matches Err(err) ==> {
            if pos + E::enc_len() > input@.len() {
                err == IoError::UnexpectedEof
            } else if !E::decodes(input@.subrange(pos as int, pos + E::enc_len()), checked) {
                err == IoError::InvalidGroup
            } else {
                err == IoError::PointAtInfinity
            }
        },
{
    let len = E::encoded_len();
    if input.len() < len || pos > input.len() - len {
        return Err(IoError::UnexpectedEof);
    }
    let repr = vstd::slice::slice_subrange(input, pos, pos + len);
    let affine = match E::decode(repr, checked) {
        Some(a) => a,
        None => return Err(IoError::InvalidGroup),
    };
    if !allow_zero && affine.is_zero() {
        return Err(IoError::PointAtInfinity);
    }
    Ok((affine, pos + len))
}

/// Whether `n` points can be read one after another from `pos`.
pub open spec fn read_groups_ok<E: UncompressedEncoding>(
    input: Seq<u8>,
    pos: int,
    n: nat,
    checked: bool,
    allow_zero: bool,
) -> bool {
    forall|i: int| 0 <= i < n ==> #[trigger] read_group_ok::<E>(input, pos + i * E::enc_len(), checked, allow_zero)
}

/// Reads a big-endian `u64` count, then that many uncompressed points;
/// returns them and the position after the last.
pub fn read_groups_uncompressed<E: UncompressedEncoding>(
    input: &[u8],
    pos: usize,
    checked: bool,
    allow_zero: bool,
) -> (r: Result<(Vec<E>, usize), IoError>)
    ensures
        (r is Ok) == (pos + 8 <= input@.len() && read_groups_ok::<E>(
            input@,
            pos + 8,
            from_be_u64(input@.subrange(pos as int, pos + 8)) as nat,
            checked,
            allow_zero,
        )),
        r matches Ok((es, end)) ==> {
            &&& es@.len() == from_be_u64(input@.subrange(pos as int, pos + 8))
            &&& end == pos + 8 + es@.len() * E::enc_len()
            &&& end <= input@.len()
            &&& input@.subrange(pos as int, end as int) == groups_encoding(es@)
            &&& forall|i: int| 0 <= i < es@.len() ==> (#[trigger] es@[i]).enc()
                == input@.subrange(pos + 8 + i * E::enc_len(), pos + 8 + i * E::enc_len() + E::enc_len())
        },
{
    let (n, start) = match read_u64_be(input, pos) {
        Ok(x) => x,
        Err(e) => return Err(e),
    };
    proof {
        lemma_be_u64_round_trip(n);
    }
    let ghost l = E::enc_len();
    let mut groups: Vec<E> = Vec::new();
    let mut cur = start;
    let mut i: u64 = 0;
    while i < n
        invariant
            start == pos + 8,
            l == E::enc_len(),
            n == from_be_u64(input@.subrange(pos as int, pos + 8)),
            i <= n,
            groups@.len() == i,
            cur == start + i * l,
            cur <= input@.len(),
            read_groups_ok::<E>(input@, start as int, i as nat, checked, allow_zero),
            input@.subrange(start as int, cur as int) == encodings(groups@),
            forall|t: int| 0 <= t < groups@.len() ==> (#[trigger] groups@[t]).enc()
                == input@.subrange(start + t * l, start + t * l + l),
        decreases n - i,
    {
        let ghost before = groups@;
        match read_group_uncompressed::<E>(input, cur, checked, allow_zero) {
            Ok((g, next)) => {
                proof {
                    g.lemma_enc_len();
                }
                groups.push(g);
                assert(groups@.drop_last() =~= before);
                assert(input@.subrange(start as int, next as int) =~= input@.subrange(start as int, cur as int)
                    + input@.subrange(cur as int, next as int));
                cur = next;
                proof {
                    assert(groups@[i as int].enc() == input@.subrange(start + i * l, start + i * l + l));
                    assert(cur == start + (i + 1) * l) by (nonlinear_arith)
                        requires
                            cur == start + i * l + l,
                    ;
                    assert forall|t: int| 0 <= t < i + 1 implies #[trigger] read_group_ok::<E>(
                        input@, start + t * l, checked, allow_zero) by {
                        if t < i {
                            assert(read_group_ok::<E>(input@, start + t * l, checked, allow_zero));
                        }
                    }
                }
                i = i + 1;
            },
            Err(e) => {
                proof {
                    assert(!read_group_ok::<E>(input@, start + i * l, checked, allow_zero));
                }
                return Err(e);
            },
        }
    }
    proof {
        assert(input@.subrange(pos as int, cur as int) =~= input@.subrange(pos as int, start as int)
            + input@.subrange(start as int, cur as int));
        lemma_from_be_u64_round_trip(input@.subrange(pos as int, pos + 8));
        assert(input@.subrange(pos as int, start as int) =~= be_u64(n));
    }
    Ok((groups, cur))
}

/// The concatenated compressed encodings of a sequence of points.
pub open spec fn cencodings<E: CompressedEncoding>(es: Seq<E>) -> Seq<u8>
    decreases es.len(),
{
    if es.len() == 0 {
        Seq::empty()
    } else {
        cencodings(es.drop_last()) + es.last().cenc()
    }
}

/// Appends the compressed encoding of `e`.
pub fn write_group<E: CompressedEncoding>(out: &mut Vec<u8>, e: &E)
    ensures
        final(out)@ == old(out)@ + e.cenc(),
{
    e.write_compressed_to(out);
}

/// Appends the number of points as a big-endian `u64`, then the compressed
/// encoding of each.
pub fn write_groups<E: CompressedEncoding>(out: &mut Vec<u8>, es: &[E])
    ensures
        final(out)@ == old(out)@ + be_u64(es@.len() as u64) + cencodings(es@),
{
    write_u64_be(out, es.len() as u64);
    let ghost start = out@;
    let mut i: usize = 0;
    while i < es.len()
        invariant
            i <= es@.len(),
            out@ == start + cencodings(es@.subrange(0, i as int)),
            start == old(out)@ + be_u64(es@.len() as u64),
        decreases es@.len() - i,
    {
        es[i].write_compressed_to(out);
        assert(es@.subrange(0, (i + 1) as int).drop_last() =~= es@.subrange(0, i as int));
        i = i + 1;
    }
    assert(es@.subrange(0, es@.len() as int) =~= es@);
}

/// Whether one compressed point can be read at `pos`.
pub open spec fn read_cgroup_ok<E: CompressedEncoding>(input: Seq<u8>, pos: int, checked: bool, allow_zero: bool) -> bool {
    &&& pos + E::cenc_len() <= input.len()
    &&& E::cdecodes(input.subrange(pos, pos + E::cenc_len()), checked)
    &&& (allow_zero || E::cdecoded(input.subrange(pos, pos + E::cenc_len())) != identity_encoding(E::enc_len()))
}

/// Reads the compressed encoding of a point at `pos`; returns the point and
/// the position after it. Fails on a short input, bytes that do not decode,
/// or (unless `allow_zero`) the point at infinity.
pub fn read_group<E: CompressedEncoding>(
    input: &[u8],
    pos: usize,
    checked: bool,
    allow_zero: bool,
) -> (r: Result<(E, usize), IoError>)
    ensures
        (r is Ok) == read_cgroup_ok::<E>(input@, pos as int, checked, allow_zero),
        r matches Ok((e, end)) ==> end == pos + E::cenc_len()
            && e.enc() == E::cdecoded(input@.subrange(pos as int, pos + E::cenc_len())),
        r matches Err(err) ==> {
            if pos + E::cenc_len() > input@.len() {
                err == IoError::UnexpectedEof
            } else if !E::cdecodes(input@.subrange(pos as int, pos + E::cenc_len()), checked) {
                err == IoError::InvalidGroup
            } else {
                err == IoError::PointAtInfinity
            }
        },
{
    let len = E::compressed_len();
    if input.len() < len || pos > input.len() - len {
        return Err(IoError::UnexpectedEof);
    }
    let repr = vstd::slice::slice_subrange(input, pos, pos + len);
    let affine = match E::decode_compressed(repr, checked) {
        Some(a) => a,
        None => return Err(IoError::InvalidGroup),
    };
    if !allow_zero && affine.is_zero() {
        return Err(IoError::PointAtInfinity);
    }
    Ok((affine, pos + len))
}

/// Reads a big-endian `u64` count, then that many compressed points;
/// returns them and the position after the last.
pub fn read_groups<E: CompressedEncoding>(
    input: &[u8],
    pos: usize,
    checked: bool,
    allow_zero: bool,
) -> (r: Result<(Vec<E>, usize), IoError>)
    ensures
        (r is Ok) == (pos + 8 <= input@.len() && forall|i: int|
            0 <= i < from_be_u64(input@.subrange(pos as int, pos + 8)) ==> #[trigger] read_cgroup_ok::<E>(
                input@, pos + 8 + i * E::cenc_len(), checked, allow_zero)),
        r matches Ok((es, end)) ==> {
            &&& es@.len() == from_be_u64(input@.subrange(pos as int, pos + 8))
            &&& end == pos + 8 + es@.len() * E::cenc_len()
            &&& forall|i: int| 0 <= i < es@.len() ==> (#[trigger] es@[i]).enc() == E::cdecoded(
                input@.subrange(pos + 8 + i * E::cenc_len(), pos + 8 + i * E::cenc_len() + E::cenc_len()))
        },
{
    let (n, start) = match read_u64_be(input, pos) {
        Ok(x) => x,
        Err(e) => return Err(e),
    };
    let ghost l = E::cenc_len();
    let mut groups: Vec<E> = Vec::new();
    let mut cur = start;
    let mut i: u64 = 0;
    while i < n
        invariant
            start == pos + 8,
            l == E::cenc_len(),
            n == from_be_u64(input@.subrange(pos as int, pos + 8)),
            i <= n,
            groups@.len() == i,
            cur == start + i * l,
            cur <= input@.len(),
            forall|t: int| 0 <= t < i ==> #[trigger] read_cgroup_ok::<E>(input@, start + t * l, checked, allow_zero),
            forall|t: int| 0 <= t < groups@.len() ==> (#[trigger] groups@[t]).enc()
                == E::cdecoded(input@.subrange(start + t * l, start + t * l + l)),
        decreases n - i,
    {
        match read_group::<E>(input, cur, checked, allow_zero) {
            Ok((g, next)) => {
                groups.push(g);
                cur = next;
                proof {
                    assert(cur == start + (i + 1) * l) by (nonlinear_arith)
                        requires
                            cur == start + i * l + l,
                    ;
                    assert forall|t: int| 0 <= t < i + 1 implies #[trigger] read_cgroup_ok::<E>(
                        input@, start + t * l, checked, allow_zero) by {
                        if t < i {
                            assert(read_cgroup_ok::<E>(input@, start + t * l, checked, allow_zero));
                        }
                    }
                }
                i = i + 1;
            },
            Err(e) => {
                proof {
                    assert(!read_cgroup_ok::<E>(input@, start + i * l, checked, allow_zero));
                }
                return Err(e);
            },
        }
    }
    Ok((groups, cur))
}

/// Where a vector of points was written, reading finds its length and each
/// of its points, provided they decode.
pub proof fn lemma_read_groups_of_encoding<E: UncompressedEncoding>(input: Seq<u8>, pos: int, es: Seq<E>)
    requires
        0 <= pos,
        es.len() <= u64::MAX,
        pos + groups_encoding(es).len() <= input.len(),
        input.subrange(pos, pos + groups_encoding(es).len()) == groups_encoding(es),
        forall|i: int| 0 <= i < es.len() ==> E::decodes(#[trigger] es[i].enc(), false),
    ensures
        groups_encoding(es).len() == 8 + es.len() * E::enc_len(),
        from_be_u64(input.subrange(pos, pos + 8)) == es.len(),
        read_groups_ok::<E>(input, pos + 8, es.len(), false, true),
        forall|i: int| 0 <= i < es.len() ==> input.subrange(pos + 8 + i * E::enc_len(), pos + 8 + i * E::enc_len() + E::enc_len())
            == (#[trigger] es[i]).enc(),
{
    let n = es.len() as int;
    let l = E::enc_len() as int;
    lemma_encodings_len(es);
    let g = groups_encoding(es);
    assert(g.len() == 8 + n * l);
    assert(input.subrange(pos, pos + 8) =~= g.subrange(0, 8));
    assert(g.subrange(0, 8) =~= be_u64(n as u64));
    lemma_be_u64_round_trip(n as u64);
    assert forall|i: int| 0 <= i < n implies input.subrange(pos + 8 + i * l, pos + 8 + i * l + l) == (#[trigger] es[i]).enc() by {
        lemma_encodings_index(es, i);
        assert(i * l + l <= n * l) by (nonlinear_arith)
            requires
                i < n,
                l >= 0,
        ;
        let whole = input.subrange(pos, pos + g.len());
        assert(input.subrange(pos + 8 + i * l, pos + 8 + i * l + l) =~= whole.subrange(8 + i * l, 8 + i * l + l));
        assert(g.subrange(8 + i * l, 8 + i * l + l) =~= encodings(es).subrange(i * l, i * l + l));
        assert(input.subrange(pos + 8 + i * l, pos + 8 + i * l + l) =~= encodings(es).subrange(i * l, i * l + l));
    }
    assert forall|i: int| 0 <= i < n implies #[trigger] read_group_ok::<E>(input, pos + 8 + i * l, false, true) by {
        assert(i * l + l <= n * l) by (nonlinear_arith)
            requires
                i < n,
                l >= 0,
        ;
        assert(input.subrange(pos + 8 + i * l, pos + 8 + i * l + l) == es[i].enc());
    }
}

} // verus!
