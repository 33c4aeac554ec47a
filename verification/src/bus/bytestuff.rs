//! Byte-stuffing and de-stuffing.
//!
//! The body of a packet may not contain the header prefix `[0xFF, 0xFF, 0xFD, 0x00]`.
//! To guarantee that, every occurrence of `[0xFF, 0xFF, 0xFD]` in the body is followed by an extra `0xFD`,
//! which the receiver removes again.
use vstd::prelude::*;

verus! {

/// The stuffed form of the pattern `[0xFF, 0xFF, 0xFD]`.
pub const PATTERN: [u8; 4] = [0xFF, 0xFF, 0xFD, 0xFD];

/// Position `i` of `s` ends an occurrence of `[0xFF, 0xFF, 0xFD]`.
pub open spec fn marker_ends_at(s: Seq<u8>, i: int) -> bool {
    &&& 2 <= i < s.len()
    &&& s[i - 2] == 0xFFu8
    &&& s[i - 1] == 0xFFu8
    &&& s[i] == 0xFDu8
}

/// Position `i` of `s` ends an occurrence of `[0xFF, 0xFF, 0xFD, 0xFD]`: its byte is a stuffing byte.
pub open spec fn stuffing_byte_at(s: Seq<u8>, i: int) -> bool {
    &&& 3 <= i < s.len()
    &&& s[i - 3] == 0xFFu8
    &&& s[i - 2] == 0xFFu8
    &&& s[i - 1] == 0xFDu8
    &&& s[i] == 0xFDu8
}

/// The stuffed form of `s`: a `0xFD` is inserted after every occurrence of `[0xFF, 0xFF, 0xFD]`.
pub open spec fn spec_stuff(s: Seq<u8>) -> Seq<u8>
    decreases s.len(),
{
    if s.len() == 0 {
        Seq::empty()
    } else if marker_ends_at(s, s.len() - 1) {
        spec_stuff(s.drop_last()) + seq![s.last(), 0xFDu8]
    } else {
        spec_stuff(s.drop_last()).push(s.last())
    }
}

/// The number of occurrences of `[0xFF, 0xFF, 0xFD]` in `s`: the number of bytes stuffing adds.
pub open spec fn spec_stuffing_count(s: Seq<u8>) -> nat
    decreases s.len(),
{
    if s.len() == 0 {
        0
    } else if marker_ends_at(s, s.len() - 1) {
        spec_stuffing_count(s.drop_last()) + 1
    } else {
        spec_stuffing_count(s.drop_last())
    }
}

/// The de-stuffed form of `s`: every occurrence of `[0xFF, 0xFF, 0xFD, 0xFD]` becomes `[0xFF, 0xFF, 0xFD]`.
pub open spec fn spec_unstuff(s: Seq<u8>) -> Seq<u8>
    decreases s.len(),
{
    if s.len() == 0 {
        Seq::empty()
    } else if stuffing_byte_at(s, s.len() - 1) {
        spec_unstuff(s.drop_last())
    } else {
        spec_unstuff(s.drop_last()).push(s.last())
    }
}

/// The maximum size of the stuffed form of data of `n` bytes.
pub open spec fn spec_maximum_stuffed_len(n: nat) -> nat {
    n / 3 * 4 + n % 3
}

/// Stuffing adds exactly one byte per occurrence of the pattern.
pub proof fn lemma_stuff_len(s: Seq<u8>)
    ensures
        spec_stuff(s).len() == s.len() + spec_stuffing_count(s),
    decreases s.len(),
{
    if s.len() > 0 {
        lemma_stuff_len(s.drop_last());
    }
}

/// Data without the pattern is left unchanged by stuffing.
pub proof fn lemma_stuff_identity(s: Seq<u8>)
    requires
        spec_stuffing_count(s) == 0,
    ensures
        spec_stuff(s) == s,
    decreases s.len(),
{
    if s.len() > 0 {
        lemma_stuff_identity(s.drop_last());
        assert(s.drop_last().push(s.last()) =~= s);
    }
}

/// Stuffing a prefix gives a prefix of the stuffed data.
pub proof fn lemma_stuff_prefix(s: Seq<u8>, j: int)
    requires
        0 <= j <= s.len(),
    ensures
        spec_stuff(s.take(j)).len() <= spec_stuff(s).len(),
        spec_stuff(s.take(j)) =~= spec_stuff(s).take(spec_stuff(s.take(j)).len() as int),
    decreases s.len(),
{
    if j == s.len() {
        assert(s.take(j) =~= s);
    } else {
        assert(s.drop_last().take(j) =~= s.take(j));
        lemma_stuff_prefix(s.drop_last(), j);
    }
}

/// Stuffing the first `j + 1` bytes extends the stuffed form of the first `j` bytes by the piece of byte `j`.
proof fn lemma_stuff_step(s: Seq<u8>, j: int)
    requires
        0 <= j < s.len(),
    ensures
        marker_ends_at(s, j) ==> spec_stuff(s.take(j + 1)) == spec_stuff(s.take(j)) + seq![s[j], 0xFDu8],
        !marker_ends_at(s, j) ==> spec_stuff(s.take(j + 1)) == spec_stuff(s.take(j)).push(s[j]),
        marker_ends_at(s, j) ==> spec_stuffing_count(s.take(j + 1)) == spec_stuffing_count(s.take(j)) + 1,
        !marker_ends_at(s, j) ==> spec_stuffing_count(s.take(j + 1)) == spec_stuffing_count(s.take(j)),
{
    let t = s.take(j + 1);
    assert(t.drop_last() =~= s.take(j));
    assert(marker_ends_at(t, j) == marker_ends_at(s, j));
}

/// The stuffed piece of byte `r` stands in the stuffed form of the whole data right after
/// the stuffed form of the bytes before it.
proof fn lemma_stuff_piece(s: Seq<u8>, r: int)
    requires
        0 <= r < s.len(),
    ensures
        spec_stuff(s.take(r)).len() == r + spec_stuffing_count(s.take(r)),
        spec_stuff(s.take(r + 1)).len() == r + 1 + spec_stuffing_count(s.take(r + 1)),
        spec_stuff(s).len() == s.len() + spec_stuffing_count(s),
        marker_ends_at(s, r) ==> {
            &&& spec_stuffing_count(s.take(r + 1)) == spec_stuffing_count(s.take(r)) + 1
            &&& spec_stuff(s.take(r)).len() + 2 <= spec_stuff(s).len()
            &&& spec_stuff(s)[spec_stuff(s.take(r)).len() as int] == s[r]
            &&& spec_stuff(s)[spec_stuff(s.take(r)).len() as int + 1] == 0xFDu8
        },
        !marker_ends_at(s, r) ==> {
            &&& spec_stuffing_count(s.take(r + 1)) == spec_stuffing_count(s.take(r))
            &&& spec_stuff(s.take(r)).len() + 1 <= spec_stuff(s).len()
            &&& spec_stuff(s)[spec_stuff(s.take(r)).len() as int] == s[r]
        },
{
    lemma_stuff_step(s, r);
    lemma_stuff_len(s.take(r));
    lemma_stuff_len(s.take(r + 1));
    lemma_stuff_len(s);
    lemma_stuff_prefix(s, r + 1);
    let a = spec_stuff(s.take(r)).len() as int;
    let p = spec_stuff(s.take(r + 1));
    assert(p =~= spec_stuff(s).take(p.len() as int));
    assert(p[a] == s[r]);
    if marker_ends_at(s, r) {
        assert(p[a + 1] == 0xFDu8);
    }
}

/// De-stuffing the first `j + 1` bytes extends the de-stuffed form of the first `j` bytes by byte `j`,
/// unless byte `j` is a stuffing byte.
proof fn lemma_unstuff_step(s: Seq<u8>, j: int)
    requires
        0 <= j < s.len(),
    ensures
        stuffing_byte_at(s, j) ==> spec_unstuff(s.take(j + 1)) == spec_unstuff(s.take(j)),
        !stuffing_byte_at(s, j) ==> spec_unstuff(s.take(j + 1)) == spec_unstuff(s.take(j)).push(s[j]),
{
    let t = s.take(j + 1);
    assert(t.drop_last() =~= s.take(j));
    assert(stuffing_byte_at(t, j) == stuffing_byte_at(s, j));
}

/// The stuffed form never ends with `[0xFF, 0xFF]` unless the data does, and never with `[0xFF]` unless the data does.
proof fn lemma_stuff_tail(s: Seq<u8>)
    ensures
        spec_stuff(s).len() >= 1 && spec_stuff(s).last() == 0xFFu8 ==> s.len() >= 1 && s.last() == 0xFFu8
            && !marker_ends_at(s, s.len() - 1),
        spec_stuff(s).len() >= 2 && spec_stuff(s).last() == 0xFFu8 && spec_stuff(s)[spec_stuff(s).len() - 2]
            == 0xFFu8 ==> s.len() >= 2 && s.last() == 0xFFu8 && s[s.len() - 2] == 0xFFu8,
        !(spec_stuff(s).len() >= 3 && marker_ends_at(spec_stuff(s), spec_stuff(s).len() - 1)),
    decreases s.len(),
{
    if s.len() > 0 {
        let d = s.drop_last();
        lemma_stuff_tail(d);
        lemma_stuff_len(d);
        let st = spec_stuff(s);
        let sd = spec_stuff(d);
        if marker_ends_at(s, s.len() - 1) {
            assert(st == sd + seq![s.last(), 0xFDu8]);
            assert(st.last() == 0xFDu8);
            assert(st[st.len() - 2] == 0xFDu8);
        } else {
            assert(st == sd.push(s.last()));
            assert(st.last() == s.last());
            if st.len() >= 2 {
                assert(st[st.len() - 2] == sd.last());
            }
            if st.len() >= 3 && marker_ends_at(st, st.len() - 1) {
                assert(sd.last() == 0xFFu8);
                assert(sd[sd.len() - 2] == 0xFFu8);
                assert(d.last() == 0xFFu8 && d[d.len() - 2] == 0xFFu8);
                assert(s[s.len() - 2] == d.last());
                assert(s[s.len() - 3] == d[d.len() - 2]);
                assert(marker_ends_at(s, s.len() - 1));
            }
        }
    }
}

/// De-stuffing undoes stuffing: de-stuffing the stuffed form of any data gives the data back.
pub proof fn lemma_unstuff_stuff(s: Seq<u8>)
    ensures
        spec_unstuff(spec_stuff(s)) == s,
    decreases s.len(),
{
    if s.len() > 0 {
        let d = s.drop_last();
        lemma_unstuff_stuff(d);
        lemma_stuff_tail(d);
        let sd = spec_stuff(d);
        if marker_ends_at(s, s.len() - 1) {
            // The stuffed form ends with the piece [0xFD, 0xFD].
            let t1 = sd.push(0xFDu8);
            let t2 = t1.push(0xFDu8);
            assert(spec_stuff(s) =~= t2);
            assert(t2.drop_last() =~= t1);
            assert(t1.drop_last() =~= sd);
            // `d` ends with [0xFF, 0xFF], and so does its stuffed form.
            assert(d.last() == 0xFFu8 && d[d.len() - 2] == 0xFFu8);
            let dd = d.drop_last();
            lemma_stuff_tail(dd);
            assert(!marker_ends_at(d, d.len() - 1));
            assert(sd == spec_stuff(dd).push(d.last()));
            assert(!marker_ends_at(dd, dd.len() - 1));
            assert(spec_stuff(dd) == spec_stuff(dd.drop_last()).push(dd.last()));
            assert(sd.last() == 0xFFu8);
            assert(sd[sd.len() - 2] == 0xFFu8);
            assert(stuffing_byte_at(t2, t2.len() - 1));
            assert(!stuffing_byte_at(t1, t1.len() - 1));
            assert(spec_unstuff(t2) == spec_unstuff(t1));
            assert(spec_unstuff(t1) == spec_unstuff(sd).push(0xFDu8));
            assert(d.push(0xFDu8) =~= s);
        } else {
            let t = sd.push(s.last());
            assert(spec_stuff(s) =~= t);
            assert(t.drop_last() =~= sd);
            assert(!stuffing_byte_at(t, t.len() - 1));
            assert(d.push(s.last()) =~= s);
        }
    }
}

/// The pattern occurs at most once in every three bytes.
pub proof fn lemma_stuffing_count_bound(s: Seq<u8>)
    ensures
        spec_stuffing_count(s) * 3 <= s.len(),
    decreases s.len(),
{
    if s.len() > 0 {
        let d1 = s.drop_last();
        if marker_ends_at(s, s.len() - 1) {
            let d2 = d1.drop_last();
            let d3 = d2.drop_last();
            assert(d1[d1.len() - 1] == s[s.len() - 2]);
            assert(d2[d2.len() - 1] == s[s.len() - 3]);
            assert(!marker_ends_at(d1, d1.len() - 1));
            assert(!marker_ends_at(d2, d2.len() - 1));
            assert(spec_stuffing_count(s) == spec_stuffing_count(d1) + 1);
            assert(spec_stuffing_count(d1) == spec_stuffing_count(d2));
            assert(spec_stuffing_count(d2) == spec_stuffing_count(d3));
            lemma_stuffing_count_bound(d3);
        } else {
            lemma_stuffing_count_bound(d1);
        }
    }
}

/// The stuffed form of any data fits in the maximum stuffed size of its length.
pub proof fn lemma_stuff_len_bound(s: Seq<u8>)
    ensures
        spec_stuff(s).len() <= spec_maximum_stuffed_len(s.len()),
{
    lemma_stuff_len(s);
    lemma_stuffing_count_bound(s);
}

/// The first `m` bytes of the pattern `[0xFF, 0xFF, 0xFD]` repeated.
spec fn repeated_marker(m: nat) -> Seq<u8> {
    Seq::new(m, |i: int| if i % 3 == 2 { 0xFDu8 } else { 0xFFu8 })
}

/// `k` times the pattern `[0xFF, 0xFF, 0xFD]`, followed by `r` zero bytes.
spec fn worst_case_data(k: nat, r: nat) -> Seq<u8> {
    Seq::new(3 * k + r, |i: int| if i < 3 * k { repeated_marker(3 * k)[i] } else { 0u8 })
}

proof fn lemma_repeated_marker_count(m: nat)
    ensures
        spec_stuffing_count(repeated_marker(m)) == m / 3,
    decreases m,
{
    if m > 0 {
        let s = repeated_marker(m);
        assert(s.drop_last() =~= repeated_marker((m - 1) as nat));
        lemma_repeated_marker_count((m - 1) as nat);
        if m >= 3 {
            assert(s[m - 3] == (if (m - 3) % 3 == 2 { 0xFDu8 } else { 0xFFu8 }));
            assert(s[m - 2] == (if (m - 2) % 3 == 2 { 0xFDu8 } else { 0xFFu8 }));
        }
        assert(s[m - 1] == (if (m - 1) % 3 == 2 { 0xFDu8 } else { 0xFFu8 }));
    }
}

proof fn lemma_worst_case_count(k: nat, r: nat)
    ensures
        spec_stuffing_count(worst_case_data(k, r)) == k,
    decreases r,
{
    let s = worst_case_data(k, r);
    if r == 0 {
        assert(s =~= repeated_marker(3 * k));
        lemma_repeated_marker_count(3 * k);
    } else {
        assert(s.drop_last() =~= worst_case_data(k, (r - 1) as nat));
        lemma_worst_case_count(k, (r - 1) as nat);
        assert(s[s.len() - 1] == 0u8);
    }
}

/// The maximum stuffed size is reached: for every length there is data of that length whose stuffed form is
/// exactly that large (the pattern `[0xFF, 0xFF, 0xFD]` repeated, and up to two other bytes).
pub proof fn lemma_maximum_stuffed_len_reached(n: nat)
    ensures
        exists|s: Seq<u8>| s.len() == n && #[trigger] spec_stuff(s).len() == spec_maximum_stuffed_len(n),
{
    let k = n / 3;
    let r = n % 3;
    let s = worst_case_data(k, r);
    lemma_worst_case_count(k, r);
    lemma_stuff_len(s);
    assert(s.len() == n);
    assert(spec_stuff(s).len() == spec_maximum_stuffed_len(n));
}

/// Stuffed data that ends in `0xFF` comes from data that ends in `0xFF`, and drops that byte with it.
proof fn lemma_stuff_ends_ff(s: Seq<u8>)
    requires
        spec_stuff(s).len() > 0,
        spec_stuff(s).last() == 0xFFu8,
    ensures
        s.len() > 0,
        s.last() == 0xFFu8,
        spec_stuff(s.drop_last()) == spec_stuff(s).drop_last(),
{
    if s.len() > 0 {
        if !marker_ends_at(s, s.len() - 1) {
            assert(spec_stuff(s.drop_last()) =~= spec_stuff(s).drop_last());
        }
    }
}

/// In stuffed data, every occurrence of `[0xFF, 0xFF, 0xFD]` is followed by the stuffing byte `0xFD`.
///
/// So the stuffed body of a message never holds the header prefix `[0xFF, 0xFF, 0xFD, 0x00]`.
pub proof fn lemma_stuff_escapes_markers(s: Seq<u8>)
    ensures
        forall|i: int| #[trigger]
            marker_ends_at(spec_stuff(s), i) ==> i + 1 < spec_stuff(s).len() && spec_stuff(s)[i + 1] == 0xFDu8,
    decreases s.len(),
{
    if s.len() > 0 {
        let d = s.drop_last();
        let td = spec_stuff(d);
        let t = spec_stuff(s);
        lemma_stuff_escapes_markers(d);
        if marker_ends_at(s, s.len() - 1) {
            assert forall|i: int| #[trigger] marker_ends_at(t, i) implies i + 1 < t.len() && t[i + 1] == 0xFDu8 by {
                if i < td.len() {
                    assert(marker_ends_at(td, i));
                }
            }
        } else {
            assert forall|i: int| #[trigger] marker_ends_at(t, i) implies i + 1 < t.len() && t[i + 1] == 0xFDu8 by {
                if i < td.len() {
                    assert(marker_ends_at(td, i));
                } else {
                    // The last byte would complete a marker only if the data ended with it too.
                    assert(td.last() == 0xFFu8);
                    lemma_stuff_ends_ff(d);
                    let dd = d.drop_last();
                    assert(spec_stuff(dd).last() == 0xFFu8);
                    lemma_stuff_ends_ff(dd);
                    assert(marker_ends_at(s, s.len() - 1));
                }
            }
        }
    }
}

/// The stuffed form of any data never holds the header prefix `[0xFF, 0xFF, 0xFD, 0x00]`.
pub proof fn lemma_stuff_has_no_header_prefix(s: Seq<u8>)
    ensures
        forall|i: int| 0 <= i && i + 4 <= spec_stuff(s).len() ==> #[trigger] spec_stuff(s).subrange(i, i + 4) != seq![
            0xFFu8,
            0xFFu8,
            0xFDu8,
            0x00u8,
        ],
{
    lemma_stuff_escapes_markers(s);
    let t = spec_stuff(s);
    assert forall|i: int| 0 <= i && i + 4 <= t.len() implies #[trigger] t.subrange(i, i + 4) != seq![
        0xFFu8,
        0xFFu8,
        0xFDu8,
        0x00u8,
    ] by {
        if t.subrange(i, i + 4) == seq![0xFFu8, 0xFFu8, 0xFDu8, 0x00u8] {
            assert(t[i] == t.subrange(i, i + 4)[0]);
            assert(t[i + 1] == t.subrange(i, i + 4)[1]);
            assert(t[i + 2] == t.subrange(i, i + 4)[2]);
            assert(t[i + 3] == t.subrange(i, i + 4)[3]);
            assert(marker_ends_at(t, i + 2));
        }
    }
}

/// Remove byte-stuffing in-place.
///
/// All patterns of `[0xFF, 0xFF, 0xFD, 0xFD]` will be replaced with `[0xFF, 0xFF, 0xFD]`.
/// Returns the length of the de-stuffed data, which is moved to the front of the buffer.
pub fn unstuff_inplace(data: &mut [u8]) -> (r: usize)
    ensures
        r == spec_unstuff(old(data)@).len(),
        final(data)@ == spec_unstuff(old(data)@) + old(data)@.skip(r as int),
{
    let ghost s = data@;
    let n = data.len();
    let mut i: usize = 0;
    let mut w: usize = 0;
    let mut p1: u8 = 0;
    let mut p2: u8 = 0;
    let mut p3: u8 = 0;
    while i < n
        invariant
            n == s.len(),
            data@.len() == n,
            w <= i <= n,
            data@.take(w as int) == spec_unstuff(s.take(i as int)),
            forall|k: int| w <= k < n ==> data@[k] == s[k],
            i >= 1 ==> p1 == s[i - 1],
            i >= 2 ==> p2 == s[i - 2],
            i >= 3 ==> p3 == s[i - 3],
        decreases n - i,
    {
        let x = data[i];
        proof {
            lemma_unstuff_step(s, i as int);
        }
        let stuffing = i >= 3 && p3 == 0xFF && p2 == 0xFF && p1 == 0xFD && x == 0xFD;
        assert(stuffing == stuffing_byte_at(s, i as int));
        if !stuffing {
            let ghost before = data@;
            data[w] = x;
            assert(data@.take(w + 1) =~= before.take(w as int).push(x));
            w = w + 1;
        }
        p3 = p2;
        p2 = p1;
        p1 = x;
        i = i + 1;
    }
    assert(s.take(n as int) =~= s);
    proof {
        lemma_unstuff_len_le(s);
    }
    assert(data@ =~= spec_unstuff(s) + s.skip(w as int));
    w
}

/// De-stuffing never makes data longer.
pub proof fn lemma_unstuff_len_le(s: Seq<u8>)
    ensures
        spec_unstuff(s).len() <= s.len(),
    decreases s.len(),
{
    if s.len() > 0 {
        lemma_unstuff_len_le(s.drop_last());
    }
}

/// Calculate the maximum required size for stuffing arbitrary data of a certain length.
pub fn maximum_stuffed_len(unstuffed_length: usize) -> (r: usize)
    requires
        spec_maximum_stuffed_len(unstuffed_length as nat) <= usize::MAX,
    ensures
        r == spec_maximum_stuffed_len(unstuffed_length as nat),
{
    unstuffed_length / 3 * 4 + unstuffed_length % 3
}

/// Calculate the amount of stuffing bytes required for specific data.
pub fn stuffing_required(data: &[u8]) -> (r: usize)
    ensures
        r == spec_stuffing_count(data@),
{
    let ghost s = data@;
    let n = data.len();
    let mut count: usize = 0;
    let mut i: usize = 0;
    while i < n
        invariant
            n == s.len(),
            s == data@,
            i <= n,
            count == spec_stuffing_count(s.take(i as int)),
            count <= i,
        decreases n - i,
    {
        proof {
            lemma_stuff_step(s, i as int);
        }
        if i >= 2 && data[i - 2] == 0xFF && data[i - 1] == 0xFF && data[i] == 0xFD {
            count = count + 1;
        }
        i = i + 1;
    }
    assert(s.take(n as int) =~= s);
    count
}

/// Perform byte-stuffing in-place.
///
/// The actual length of the unstuffed data must be passed in through the `len` parameter.
///
/// The full buffer must be large enough to hold the stuffed data,
/// or an error is returned and the buffer is left unchanged.
/// On success, the stuffed data occupies the front of the buffer and its length is returned.
pub fn stuff_inplace(buffer: &mut [u8], len: usize) -> (r: Result<usize, ()>)
    requires
        len <= old(buffer)@.len(),
    ensures
        final(buffer)@.len() == old(buffer)@.len(),
        ({
            let s = old(buffer)@.take(len as int);
            match r {
                Ok(n) => {
                    &&& n <= old(buffer)@.len()
                    &&& n == len + spec_stuffing_count(s)
                    &&& final(buffer)@.take(n as int) == spec_stuff(s)
                    &&& final(buffer)@.skip(n as int) == old(buffer)@.skip(n as int)
                },
                Err(()) => {
                    &&& old(buffer)@.len() < len + spec_stuffing_count(s)
                    &&& final(buffer)@ == old(buffer)@
                },
            }
        }),
{
    let ghost s = buffer@.take(len as int);
    let ghost original = buffer@;
    let required = stuffing_required(vstd::slice::slice_subrange(buffer, 0, len));
    proof {
        lemma_stuff_len(s);
    }
    if required == 0 {
        proof {
            lemma_stuff_identity(s);
        }
        assert(buffer@.take(len as int) =~= s);
        return Ok(len);
    }
    if buffer.len() - len < required {
        return Err(());
    }
    let total = len + required;
    assert(s.take(len as int) =~= s);
    let mut r: usize = len;
    let mut w: usize = total;
    while r > 0
        invariant
            s.len() == len,
            s == original.take(len as int),
            total == len + spec_stuffing_count(s),
            total <= original.len(),
            buffer@.len() == original.len(),
            r <= len,
            w == spec_stuff(s.take(r as int)).len(),
            w == r + spec_stuffing_count(s.take(r as int)),
            forall|k: int| 0 <= k < r ==> buffer@[k] == s[k],
            forall|k: int| w <= k < total ==> buffer@[k] == spec_stuff(s)[k],
            forall|k: int| total <= k < original.len() ==> buffer@[k] == original[k],
        decreases r,
    {
        r = r - 1;
        proof {
            lemma_stuff_piece(s, r as int);
        }
        let x = buffer[r];
        assert(x == s[r as int]);
        if r >= 2 && buffer[r - 2] == 0xFF && buffer[r - 1] == 0xFF && x == 0xFD {
            assert(marker_ends_at(s, r as int));
            buffer[w - 1] = 0xFD;
            buffer[w - 2] = x;
            w = w - 2;
        } else {
            assert(!marker_ends_at(s, r as int));
            buffer[w - 1] = x;
            w = w - 1;
        }
    }
    assert(s.take(0) =~= Seq::<u8>::empty());
    assert(buffer@.take(total as int) =~= spec_stuff(s));
    assert(buffer@.skip(total as int) =~= original.skip(total as int));
    Ok(total)
}

} // verus!
