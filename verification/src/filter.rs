use vstd::prelude::*;

verus! {

/// The PNG row filter methods.
#[derive(Clone, Copy, Debug, PartialEq, Eq, Structural)]
pub enum FilterType {
    NoFilter,
    Sub,
    Up,
    Avg,
    Paeth,
}

impl FilterType {
    /// The filter-type byte that precedes each filtered row.
    pub open spec fn code_spec(self) -> u8 {
        match self {
            FilterType::NoFilter => 0,
            FilterType::Sub => 1,
            FilterType::Up => 2,
            FilterType::Avg => 3,
            FilterType::Paeth => 4,
        }
    }

    pub fn code(&self) -> (r: u8)
        ensures
            r == self.code_spec(),
    {
        match self {
            FilterType::NoFilter => 0,
            FilterType::Sub => 1,
            FilterType::Up => 2,
            FilterType::Avg => 3,
            FilterType::Paeth => 4,
        }
    }
}

/// Subtraction modulo 256.
pub open spec fn byte_sub(x: u8, y: u8) -> u8 {
    ((x - y) % 256) as u8
}

/// Addition modulo 256.
pub open spec fn byte_add(x: u8, y: u8) -> u8 {
    ((x + y) % 256) as u8
}

/// Absolute difference.
pub open spec fn dist(x: int, y: int) -> int {
    if x >= y {
        x - y
    } else {
        y - x
    }
}

/// The Paeth predictor: whichever of `a`, `b`, `c` lies closest to
/// `a + b - c`, ties broken in the order `a`, `b`, `c`.
pub open spec fn paeth_spec(a: u8, b: u8, c: u8) -> u8 {
    let p = a + b - c;
    let pa = dist(p, a as int);
    let pb = dist(p, b as int);
    let pc = dist(p, c as int);
    if pa <= pb && pa <= pc {
        a
    } else if pb <= pc {
        b
    } else {
        c
    }
}

/// The Paeth predictor on one byte triple.
pub fn filter_path(a: u8, b: u8, c: u8) -> (r: u8)
    ensures
        r == paeth_spec(a, b, c),
{
    let ia = a as i16;
    let ib = b as i16;
    let ic = c as i16;
    let p: i16 = ia + ib - ic;
    let pa: i16 = if p >= ia { p - ia } else { ia - p };
    let pb: i16 = if p >= ib { p - ib } else { ib - p };
    let pc: i16 = if p >= ic { p - ic } else { ic - p };
    if pa <= pb && pa <= pc {
        a
    } else if pb <= pc {
        b
    } else {
        c
    }
}

/// The value a filter method subtracts from byte `i` of a row, given the
/// bytes-per-pixel stride, the preceding row, and the row being filtered.
pub open spec fn predictor(m: FilterType, bpp: int, prev: Seq<u8>, cur: Seq<u8>, i: int) -> u8 {
    match m {
        FilterType::NoFilter => 0,
        FilterType::Sub => if i >= bpp {
            cur[i - bpp]
        } else {
            0
        },
        FilterType::Up => prev[i],
        FilterType::Avg => if i >= bpp {
            (byte_add(cur[i - bpp], prev[i]) / 2) as u8
        } else {
            (prev[i] / 2) as u8
        },
        FilterType::Paeth => if i >= bpp {
            paeth_spec(cur[i - bpp], prev[i], prev[i - bpp])
        } else {
            paeth_spec(0, prev[i], 0)
        },
    }
}

/// A whole row after filtering: byte `i` becomes `cur[i]` minus its
/// predictor, modulo 256.
pub open spec fn filtered_row(m: FilterType, bpp: int, prev: Seq<u8>, cur: Seq<u8>) -> Seq<u8> {
    Seq::new(cur.len(), |i: int| byte_sub(cur[i], predictor(m, bpp, prev, cur, i)))
}

/// The first `n` bytes of a row reconstructed from its filtered form:
/// byte `i` is `filt[i]` plus the predictor over the bytes already
/// reconstructed.
pub open spec fn unfiltered_prefix(
    m: FilterType,
    bpp: int,
    prev: Seq<u8>,
    filt: Seq<u8>,
    n: int,
) -> Seq<u8>
    decreases n,
{
    if n <= 0 {
        Seq::empty()
    } else {
        let r = unfiltered_prefix(m, bpp, prev, filt, n - 1);
        r.push(byte_add(filt[n - 1], predictor(m, bpp, prev, r, n - 1)))
    }
}

/// A whole row reconstructed from its filtered form.
pub open spec fn unfiltered_row(m: FilterType, bpp: int, prev: Seq<u8>, filt: Seq<u8>) -> Seq<u8> {
    unfiltered_prefix(m, bpp, prev, filt, filt.len() as int)
}

/// The predictor reads the current row only at `i - bpp`, so two rows that
/// agree there get the same predictor value.
proof fn lemma_predictor_agrees(
    m: FilterType,
    bpp: int,
    prev: Seq<u8>,
    cur1: Seq<u8>,
    cur2: Seq<u8>,
    i: int,
)
    requires
        bpp >= 1,
        0 <= i,
        i >= bpp ==> 0 <= i - bpp < cur1.len() && i - bpp < cur2.len() && cur1[i - bpp] == cur2[i
            - bpp],
    ensures
        predictor(m, bpp, prev, cur1, i) == predictor(m, bpp, prev, cur2, i),
{
}

/// Undoing a modular subtraction by the same amount restores the byte.
proof fn lemma_byte_sub_add(x: u8, p: u8)
    ensures
        byte_add(byte_sub(x, p), p) == x,
{
}

proof fn lemma_filter_roundtrip_prefix(m: FilterType, bpp: int, prev: Seq<u8>, cur: Seq<u8>, n: int)
    requires
        bpp >= 1,
        prev.len() == cur.len(),
        0 <= n <= cur.len(),
    ensures
        unfiltered_prefix(m, bpp, prev, filtered_row(m, bpp, prev, cur), n) == cur.take(n),
    decreases n,
{
    let filt = filtered_row(m, bpp, prev, cur);
    if n <= 0 {
        assert(unfiltered_prefix(m, bpp, prev, filt, n) =~= cur.take(n));
    } else {
        lemma_filter_roundtrip_prefix(m, bpp, prev, cur, n - 1);
        let r = unfiltered_prefix(m, bpp, prev, filt, n - 1);
        assert(r == cur.take(n - 1));
        lemma_predictor_agrees(m, bpp, prev, r, cur, n - 1);
        lemma_byte_sub_add(cur[n - 1], predictor(m, bpp, prev, cur, n - 1));
        assert(unfiltered_prefix(m, bpp, prev, filt, n) =~= cur.take(n));
    }
}

/// Filter inversion law: for every filter method, stride, and previous row,
/// reconstructing a filtered row with the same previous row gives back the
/// original row byte for byte.
pub proof fn lemma_filter_roundtrip(m: FilterType, bpp: int, prev: Seq<u8>, cur: Seq<u8>)
    requires
        bpp >= 1,
        prev.len() == cur.len(),
    ensures
        unfiltered_row(m, bpp, prev, filtered_row(m, bpp, prev, cur)) == cur,
{
    lemma_filter_roundtrip_prefix(m, bpp, prev, cur, cur.len() as int);
    assert(cur.take(cur.len() as int) =~= cur);
}

/// The predictor for byte `i`, read from the live row buffers.
fn predictor_at(method: FilterType, bpp: usize, previous: &Vec<u8>, current: &Vec<u8>, i: usize) -> (r:
    u8)
    requires
        bpp >= 1,
        i < previous@.len(),
        i >= bpp ==> i - bpp < current@.len(),
    ensures
        r == predictor(method, bpp as int, previous@, current@, i as int),
{
    match method {
        FilterType::NoFilter => 0,
        FilterType::Sub => if i >= bpp {
            current[i - bpp]
        } else {
            0
        },
        FilterType::Up => previous[i],
        FilterType::Avg => if i >= bpp {
            current[i - bpp].wrapping_add(previous[i]) / 2
        } else {
            previous[i] / 2
        },
        FilterType::Paeth => if i >= bpp {
            filter_path(current[i - bpp], previous[i], previous[i - bpp])
        } else {
            filter_path(0, previous[i], 0)
        },
    }
}

/// Applies `method` to `current` in place, with `previous` as the row above
/// and `bpp` as the pixel stride. Afterwards the row holds exactly the
/// filtered bytes of its old contents.
pub fn filter(method: FilterType, bpp: usize, previous: &Vec<u8>, current: &mut Vec<u8>)
    requires
        bpp >= 1,
        previous@.len() == old(current)@.len(),
    ensures
        final(current)@ == filtered_row(method, bpp as int, previous@, old(current)@),
{
    let ghost orig = current@;
    let len = current.len();
    match method {
        FilterType::NoFilter => {
            assert(current@ =~= filtered_row(method, bpp as int, previous@, orig));
        },
        _ => {
            let mut i: usize = len;
            while i > bpp
                invariant
                    i <= len,
                    i >= bpp || i == len,
                    current@.len() == len,
                    forall|j: int| 0 <= j < i ==> current@[j] == orig[j],
                    forall|j: int|
                        i <= j < len ==> current@[j] == byte_sub(
                            orig[j],
                            predictor(method, bpp as int, previous@, orig, j),
                        ),
                decreases i,
            {
                i = i - 1;
                let p = predictor_at(method, bpp, previous, current, i);
                proof {
                    lemma_predictor_agrees(
                        method,
                        bpp as int,
                        previous@,
                        current@,
                        orig,
                        i as int,
                    );
                }
                current[i] = current[i].wrapping_sub(p);
            }
            let mut k: usize = 0;
            let stop = if bpp < len {
                bpp
            } else {
                len
            };
            while k < stop
                invariant
                    k <= stop,
                    stop == if bpp < len { bpp as int } else { len as int },
                    current@.len() == len,
                    forall|j: int| k <= j < stop ==> current@[j] == orig[j],
                    forall|j: int|
                        (0 <= j < k || stop <= j < len) ==> current@[j] == byte_sub(
                            orig[j],
                            predictor(method, bpp as int, previous@, orig, j),
                        ),
                decreases stop - k,
            {
                let p = predictor_at(method, bpp, previous, current, k);
                proof {
                    lemma_predictor_agrees(
                        method,
                        bpp as int,
                        previous@,
                        current@,
                        orig,
                        k as int,
                    );
                }
                current[k] = current[k].wrapping_sub(p);
                k = k + 1;
            }
            assert(current@ =~= filtered_row(method, bpp as int, previous@, orig));
        },
    }
}

/// Undoes `filter` in place: `current` holds a filtered row, and afterwards
/// holds the reconstructed original row.
pub fn unfilter(method: FilterType, bpp: usize, previous: &Vec<u8>, current: &mut Vec<u8>)
    requires
        bpp >= 1,
        previous@.len() == old(current)@.len(),
    ensures
        final(current)@ == unfiltered_row(method, bpp as int, previous@, old(current)@),
{
    let ghost filt = current@;
    let len = current.len();
    let mut i: usize = 0;
    while i < len
        invariant
            i <= len,
            current@.len() == len,
            current@.take(i as int) == unfiltered_prefix(
                method,
                bpp as int,
                previous@,
                filt,
                i as int,
            ),
            forall|j: int| i <= j < len ==> current@[j] == filt[j],
        decreases len - i,
    {
        let p = predictor_at(method, bpp, previous, current, i);
        proof {
            lemma_predictor_agrees(
                method,
                bpp as int,
                previous@,
                current@,
                current@.take(i as int),
                i as int,
            );
        }
        current[i] = current[i].wrapping_add(p);
        i = i + 1;
        assert(current@.take(i as int) =~= unfiltered_prefix(
            method,
            bpp as int,
            previous@,
            filt,
            i as int,
        ));
    }
    assert(current@ =~= unfiltered_row(method, bpp as int, previous@, filt));
}

} // verus!
