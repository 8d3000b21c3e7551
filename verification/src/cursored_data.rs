//! The cursor-pagination contract: pages of keyed items over a half-open
//! index range `[start, end)`, with an end-of-stream flag that is true
//! exactly when the source returned fewer items than requested.

use vstd::prelude::*;

use crate::store::DupValue;

verus! {

/// One page of items, and whether the stream ends with it.
///
/// `end` must never be true while more data exists, or pagination silently
/// truncates; it is computed from the quantity the source actually
/// returned against the quantity requested.
pub struct PageEntry<T> {
    pub data: Vec<T>,
    pub end: bool,
}

/// Globally unique key for the given type: two items with equal keys are
/// the same logical entity for merge and pagination purposes.
pub trait KeyedData {
    type Key;

    /// The item's key.
    spec fn spec_key(&self) -> Self::Key;

    /// Produces the item's key.
    fn key(&self) -> (r: Self::Key)
        ensures
            r == self.spec_key(),
    ;
}

/// A source of pages of keyed items, read by half-open index ranges.
///
/// `spec_items` is the source's current item sequence; every implementor
/// must answer a page read with exactly the requested slice of it, with
/// the end flag set exactly when fewer items than requested exist — the
/// flag is never true spuriously while more data exists. Remote sources,
/// whose contents live behind a transport, do not implement this
/// interface inside the engine; their pages are assembled by the concrete
/// per-source functions, which state the same end-of-stream rule.
pub trait CursoredDataProvider {
    type Data: KeyedData;

    type Error;

    /// The items the source currently holds, in order.
    spec fn spec_items(&self) -> Seq<Self::Data>;

    /// Produces the items at indices `[start, end)` of the source, with
    /// the end-of-stream flag.
    fn get_by_cursor_inner(&self, start: usize, end: usize) -> (r: Result<
        PageEntry<Self::Data>,
        Self::Error,
    >)
        requires
            start <= end,
        ensures
            r matches Ok(p) ==> p.data@ == page_slice_spec(
                self.spec_items(),
                start as int,
                end as int,
            ) && p.end == page_end_spec(self.spec_items().len() as int, start as int, end as int),
    ;

    /// The uniform page read callers use.
    fn get_by_cursor(&self, start: usize, end: usize) -> (r: Result<
        PageEntry<Self::Data>,
        Self::Error,
    >)
        requires
            start <= end,
        ensures
            r matches Ok(p) ==> p.data@ == page_slice_spec(
                self.spec_items(),
                start as int,
                end as int,
            ) && p.end == page_end_spec(self.spec_items().len() as int, start as int, end as int),
    {
        self.get_by_cursor_inner(start, end)
    }
}

/// `i`, clamped to at most `n`.
pub open spec fn clamp_to(i: int, n: int) -> int {
    if i <= n {
        i
    } else {
        n
    }
}

/// The items a source of `src` answers for the range `[start, end)`.
pub open spec fn page_slice_spec<T>(src: Seq<T>, start: int, end: int) -> Seq<T>
    recommends
        0 <= start <= end,
{
    src.subrange(clamp_to(start, src.len() as int), clamp_to(end, src.len() as int))
}

/// The number of items a source of `n` items answers for `[start, end)`.
pub open spec fn page_len_spec(n: int, start: int, end: int) -> int {
    clamp_to(end, n) - clamp_to(start, n)
}

/// End-of-stream: fewer items than requested came back.
pub open spec fn page_end_spec(n: int, start: int, end: int) -> bool {
    page_len_spec(n, start, end) < end - start
}

/// A page source backed by an in-memory list of items (the cache-backed
/// fetcher): the one source whose pages can be read without leaving the
/// engine.
pub struct VecDataProvider<T: KeyedData + DupValue> {
    pub data: Vec<T>,
}

impl<T: KeyedData + DupValue> VecDataProvider<T> {
    /// Wraps a list of items as a page source.
    pub fn from_items(data: Vec<T>) -> (r: Self)
        ensures
            r.data@ == data@,
    {
        VecDataProvider { data }
    }

    /// The items at indices `[start, end)`, and whether the source is
    /// exhausted: exactly the range clamped to the source's length, with
    /// the end flag set exactly when fewer items than requested exist.
    pub fn fetch_page(&self, start: usize, end: usize) -> (r: PageEntry<T>)
        requires
            start <= end,
        ensures
            r.data@ == page_slice_spec(self.data@, start as int, end as int),
            r.end == page_end_spec(self.data@.len() as int, start as int, end as int),
            start < end ==> (r.end <==> self.data@.len() < end),
    {
        let n = self.data.len();
        let lo = if start <= n {
            start
        } else {
            n
        };
        let hi = if end <= n {
            end
        } else {
            n
        };
        let mut out: Vec<T> = Vec::new();
        let mut i = lo;
        while i < hi
            invariant
                lo <= i <= hi <= n,
                n == self.data@.len(),
                out@.len() == i - lo,
                forall|j: int| 0 <= j < out@.len() ==> out@[j] == self.data@[lo + j],
            decreases hi - i,
        {
            let ent = &self.data[i];
            out.push(ent.dup());
            i += 1;
        }
        let is_end = hi - lo < end - start;
        proof {
            assert(out@ =~= page_slice_spec(self.data@, start as int, end as int));
        }
        PageEntry { data: out, end: is_end }
    }
}

impl<T: KeyedData + DupValue> CursoredDataProvider for VecDataProvider<T> {
    type Data = T;

    type Error = crate::error::Error;

    open spec fn spec_items(&self) -> Seq<T> {
        self.data@
    }

    /// An in-memory source makes no outside call, so it always answers;
    /// success is owed on every request.
    fn get_by_cursor_inner(&self, start: usize, end: usize) -> (r: Result<
        PageEntry<T>,
        crate::error::Error,
    >)
        ensures
            r is Ok,
    {
        Ok(self.fetch_page(start, end))
    }

    /// The uniform read carries the same promise: it always answers.
    fn get_by_cursor(&self, start: usize, end: usize) -> (r: Result<
        PageEntry<T>,
        crate::error::Error,
    >)
        ensures
            r is Ok,
    {
        Ok(self.fetch_page(start, end))
    }
}

/// End-of-stream correctness: reading a source of `n` items in pages of
/// size `p`, every page before index `n / p` is full and does not end the
/// stream, and the page at index `n / p` holds the remaining `n % p` items
/// and ends it; the full pages and the final page together cover exactly
/// the `n` items.
pub proof fn lemma_end_of_stream(n: int, p: int)
    requires
        0 <= n,
        0 < p,
    ensures
        forall|i: int|
            0 <= i < n / p ==> #[trigger] page_len_spec(n, i * p, (i + 1) * p) == p && !page_end_spec(
                n,
                i * p,
                (i + 1) * p,
            ),
        page_len_spec(n, (n / p) * p, (n / p + 1) * p) == n % p,
        page_end_spec(n, (n / p) * p, (n / p + 1) * p),
        (n / p) * p + n % p == n,
{
    let q = n / p;
    vstd::arithmetic::div_mod::lemma_fundamental_div_mod(n, p);
    vstd::arithmetic::div_mod::lemma_mod_bound(n, p);
    assert(q * p == n - n % p) by (nonlinear_arith)
        requires
            n == p * q + n % p,
    ;
    assert(0 <= q) by (nonlinear_arith)
        requires
            q * p == n - n % p,
            0 <= n - n % p,
            0 < p,
    ;
    assert((q + 1) * p == q * p + p) by (nonlinear_arith);
    assert forall|i: int|
        0 <= i < q implies #[trigger] page_len_spec(n, i * p, (i + 1) * p) == p && !page_end_spec(
        n,
        i * p,
        (i + 1) * p,
    ) by {
        assert((i + 1) * p <= q * p && 0 <= i * p && (i + 1) * p == i * p + p) by (
        nonlinear_arith)
            requires
                0 <= i,
                i + 1 <= q,
                0 < p,
        ;
    }
}

} // verus!
