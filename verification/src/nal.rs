//! Cutting an H.264 Annex B byte stream, received in arbitrary chunks, into
//! NAL units.
use vstd::prelude::*;

verus! {

/// A start code `00 00 00 01` begins at position `i` of `s`.
pub open spec fn is_start_code_at(s: Seq<u8>, i: int) -> bool {
    &&& 0 <= i
    &&& i + 4 <= s.len()
    &&& s[i] == 0
    &&& s[i + 1] == 0
    &&& s[i + 2] == 0
    &&& s[i + 3] == 1
}

/// The first position at or after `i` where a start code begins in `s`, or
/// the length of `s` when there is none.
pub open spec fn next_start_code(s: Seq<u8>, i: nat) -> nat
    decreases s.len() - i,
{
    if i >= s.len() {
        s.len()
    } else if is_start_code_at(s, i as int) {
        i
    } else {
        next_start_code(s, i + 1)
    }
}

/// The first start code of `s` (its length when there is none).
pub open spec fn first_start(s: Seq<u8>) -> nat {
    next_start_code(s, 0)
}

/// The second start code of `s` (its length when there are fewer than two).
pub open spec fn second_start(s: Seq<u8>) -> nat {
    next_start_code(s, first_start(s) + 1)
}

/// `s` holds at least two start codes: a complete NAL unit lies between them.
pub open spec fn has_complete_unit(s: Seq<u8>) -> bool {
    second_start(s) < s.len()
}

/// Accumulates stream bytes and hands out the NAL unit (with its start code)
/// that lies between the first two start codes of what it holds.
pub struct NalSplitter {
    buf: Vec<u8>,
}

impl View for NalSplitter {
    type V = Seq<u8>;

    closed spec fn view(&self) -> Seq<u8> {
        self.buf@
    }
}

proof fn lemma_next_start_code_bounds(s: Seq<u8>, i: nat)
    ensures
        next_start_code(s, i) <= s.len() || next_start_code(s, i) == i,
        i <= s.len() ==> i <= next_start_code(s, i) <= s.len(),
        next_start_code(s, i) < s.len() ==> is_start_code_at(s, next_start_code(s, i) as int),
        forall|j: int| i <= j < next_start_code(s, i) ==> !is_start_code_at(s, j),
    decreases s.len() - i,
{
    if i < s.len() && !is_start_code_at(s, i as int) {
        lemma_next_start_code_bounds(s, i + 1);
    }
}

proof fn lemma_no_start_code_in_tail(s: Seq<u8>, i: nat)
    requires
        i + 4 > s.len(),
    ensures
        next_start_code(s, i) == s.len(),
    decreases s.len() - i,
{
    if i < s.len() {
        lemma_no_start_code_in_tail(s, i + 1);
    }
}

/// The position of the first start code of `s` at or after `from`, or the
/// length of `s` when there is none.
fn find_start_code(s: &Vec<u8>, from: usize) -> (p: usize)
    requires
        from <= s@.len(),
    ensures
        p == next_start_code(s@, from as nat),
{
    let n = s.len();
    let mut i = from;
    while i < n && n - i > 3
        invariant
            n == s@.len(),
            from <= i <= n,
            next_start_code(s@, from as nat) == next_start_code(s@, i as nat),
        decreases n - i,
    {
        if s[i] == 0 && s[i + 1] == 0 && s[i + 2] == 0 && s[i + 3] == 1 {
            return i;
        }
        i = i + 1;
    }
    proof {
        lemma_no_start_code_in_tail(s@, i as nat);
    }
    n
}

/// Law: the unit handed out begins with a start code and holds no other;
/// what stays behind begins with the next start code; the bytes held are
/// exactly the dropped lead-in (which holds no start code), the unit and what
/// stays, in that order.
pub proof fn law_unit_is_one_delimited_nal(b: Seq<u8>)
    requires
        has_complete_unit(b),
    ensures
        ({
            let u = b.subrange(first_start(b) as int, second_start(b) as int);
            let rest = b.subrange(second_start(b) as int, b.len() as int);
            &&& is_start_code_at(u, 0)
            &&& forall|j: int| 0 < j < u.len() ==> !is_start_code_at(u, j)
            &&& is_start_code_at(rest, 0)
            &&& forall|j: int| 0 <= j < first_start(b) ==> !is_start_code_at(b, j)
            &&& b == b.subrange(0, first_start(b) as int) + u + rest
        }),
{
    lemma_next_start_code_bounds(b, 0);
    lemma_next_start_code_bounds(b, first_start(b) + 1);
    let f = first_start(b) as int;
    let g = second_start(b) as int;
    let u = b.subrange(f, g);
    let rest = b.subrange(g, b.len() as int);
    assert forall|j: int| 0 < j < u.len() implies !is_start_code_at(u, j) by {
        if is_start_code_at(u, j) {
            assert(is_start_code_at(b, f + j));
        }
    }
    assert(b =~= b.subrange(0, f) + u + rest);
}

/// The first start code at or after `i` is at `p` when `00 00 00 01` lies
/// at `p` and nowhere in between.
proof fn lemma_next_start_is(s: Seq<u8>, i: nat, p: nat)
    requires
        i <= p,
        p + 4 <= s.len(),
        s[p as int] == 0 && s[p as int + 1] == 0 && s[p as int + 2] == 0 && s[p as int + 3] == 1,
        forall|j: int|
            i <= j < p && j + 4 <= s.len() ==> !(#[trigger] s[j] == 0 && s[j + 1] == 0 && s[j + 2] == 0
                && s[j + 3] == 1),
    ensures
        next_start_code(s, i) == p,
    decreases p - i,
{
    if i < p {
        lemma_next_start_is(s, i + 1, p);
    }
}

/// Law: a start code is recognised wherever it lies in the bytes held.
pub proof fn law_start_code_recognised_anywhere(s: Seq<u8>, i: int)
    requires
        0 <= i,
        i + 4 <= s.len(),
        s[i] == 0,
        s[i + 1] == 0,
        s[i + 2] == 0,
        s[i + 3] == 1,
    ensures
        is_start_code_at(s, i),
{
}

/// Law: when the bytes held contain `00 00 00 01` at `p` and at `q`, and
/// nowhere else before `q`, they hold a complete unit, which is the bytes
/// from `p` up to `q`, whatever the positions; the bytes from `q` on stay.
pub proof fn law_unit_between_first_two_start_codes(s: Seq<u8>, p: nat, q: nat)
    requires
        p < q,
        q + 4 <= s.len(),
        s[p as int] == 0 && s[p as int + 1] == 0 && s[p as int + 2] == 0 && s[p as int + 3] == 1,
        s[q as int] == 0 && s[q as int + 1] == 0 && s[q as int + 2] == 0 && s[q as int + 3] == 1,
        forall|j: int|
            0 <= j < q && j != p && j + 4 <= s.len() ==> !(#[trigger] s[j] == 0 && s[j + 1] == 0 && s[j + 2]
                == 0 && s[j + 3] == 1),
    ensures
        has_complete_unit(s),
        first_start(s) == p,
        second_start(s) == q,
{
    lemma_next_start_is(s, 0, p);
    lemma_next_start_is(s, p + 1, q);
}

/// Law: bytes holding no `00 00 00 01` at all hold no complete unit.
pub proof fn law_no_start_code_no_unit(s: Seq<u8>)
    requires
        forall|j: int|
            0 <= j && j + 4 <= s.len() ==> !(#[trigger] s[j] == 0 && s[j + 1] == 0 && s[j + 2] == 0 && s[j
                + 3] == 1),
    ensures
        !has_complete_unit(s),
{
    lemma_next_start_code_bounds(s, 0);
    if first_start(s) < s.len() {
        assert(is_start_code_at(s, first_start(s) as int));
    }
    lemma_next_start_code_bounds(s, first_start(s) + 1);
}

impl NalSplitter {
    /// A splitter holding no byte.
    pub fn new() -> (r: Self)
        ensures
            r@ == Seq::<u8>::empty(),
    {
        NalSplitter { buf: Vec::new() }
    }

    /// The bytes held, not yet handed out.
    pub fn pending(&self) -> (r: &[u8])
        ensures
            r@ == self@,
    {
        self.buf.as_slice()
    }

    /// Appends `data`. When the bytes held then contain two start codes, the
    /// unit between the first two is returned, and it and everything before
    /// it are dropped; otherwise nothing is returned and everything is kept.
    pub fn push(&mut self, data: &[u8]) -> (nal: Option<Vec<u8>>)
        ensures
            ({
                let b = old(self)@ + data@;
                if has_complete_unit(b) {
                    &&& nal matches Some(u)
                    &&& u@ == b.subrange(first_start(b) as int, second_start(b) as int)
                    &&& final(self)@ == b.subrange(second_start(b) as int, b.len() as int)
                } else {
                    &&& nal is None
                    &&& final(self)@ == b
                }
            }),
    {
        self.buf.extend_from_slice(data);
        let ghost b = old(self)@ + data@;
        assert(self.buf@ =~= b);
        let n = self.buf.len();
        let first = find_start_code(&self.buf, 0);
        proof {
            lemma_next_start_code_bounds(b, 0);
        }
        if first >= n {
            proof {
                assert(next_start_code(b, first as nat + 1) == b.len()) by {
                    lemma_no_start_code_in_tail(b, first as nat + 1);
                }
            }
            return None;
        }
        let second = find_start_code(&self.buf, first + 1);
        proof {
            lemma_next_start_code_bounds(b, first as nat + 1);
        }
        if second >= n {
            return None;
        }
        let mut head = self.buf.split_off(second);
        std::mem::swap(&mut head, &mut self.buf);
        let unit = head.split_off(first);
        proof {
            assert(unit@ =~= b.subrange(first as int, second as int));
        }
        Some(unit)
    }
}

} // verus!
