//! Ranking of a watchlist by percentage price change over a window.
//!
//! A symbol's performance is `(close_last - close_first) / close_first * 100`.
//! It is kept as the pair of closes and compared exactly by
//! cross-multiplication, so equal performances tie exactly and ties keep
//! the watchlist's order. Ranking fails fast: the first symbol whose candles
//! are unusable aborts it.

use vstd::prelude::*;

verus! {

/// First and last close of a candle series, in the smallest currency unit.
#[derive(Debug, Clone, Copy, PartialEq, Eq)]
pub struct Performance {
    pub first: i64,
    pub last: i64,
}

/// Why a ranking produced no symbol.
#[derive(Debug, Clone, PartialEq, Eq)]
pub enum RankError {
    /// The watchlist is empty.
    NoData,
    /// Fewer than two candles for the symbol.
    InsufficientData(String),
    /// The symbol's first close is not positive.
    InvalidReferencePrice(String),
}

/// `a` performed strictly better than `b`: `(a.last - a.first) / a.first`
/// exceeds `(b.last - b.first) / b.first`, for positive first closes.
pub open spec fn beats(a: Performance, b: Performance) -> bool {
    (a.last - a.first) * b.first > (b.last - b.first) * a.first
}

/// Candles that can be ranked: at least two, with a positive first close.
pub open spec fn closes_ok(c: Seq<i64>) -> bool {
    c.len() >= 2 && c[0] > 0
}

pub open spec fn perf_of(c: Seq<i64>) -> Performance {
    Performance { first: c[0], last: c.last() }
}

/// Index of the best performance; on ties the earliest one.
pub open spec fn best_index(ps: Seq<Performance>) -> int
    decreases ps.len(),
{
    if ps.len() <= 1 {
        0
    } else {
        let b = best_index(ps.drop_last());
        if beats(ps.last(), ps[b]) {
            ps.len() - 1
        } else {
            b
        }
    }
}

pub open spec fn views(v: Seq<String>) -> Seq<Seq<char>> {
    v.map_values(|s: String| s@)
}

/// Whether `p` performed strictly better than `q`.
pub fn outperforms(p: &Performance, q: &Performance) -> (r: bool)
    ensures
        r == beats(*p, *q),
{
    let gp: i128 = p.last as i128 - p.first as i128;
    let gq: i128 = q.last as i128 - q.first as i128;
    let fp: i128 = p.first as i128;
    let fq: i128 = q.first as i128;
    proof {
        lemma_product_fits(gp as int, fq as int);
        lemma_product_fits(gq as int, fp as int);
    }
    gp * fq > gq * fp
}

proof fn lemma_product_fits(g: int, f: int)
    requires
        -0x1_0000_0000_0000_0000 < g < 0x1_0000_0000_0000_0000,
        -0x8000_0000_0000_0000 <= f <= 0x7fff_ffff_ffff_ffff,
    ensures
        -0x8000_0000_0000_0000_0000_0000_0000_0000 <= g * f <= 0x7fff_ffff_ffff_ffff_ffff_ffff_ffff_ffff,
{
    let ag: int = if g < 0 { -g } else { g };
    let af: int = if f < 0 { -f } else { f };
    assert(ag * af <= 0xffff_ffff_ffff_ffff * 0x8000_0000_0000_0000) by (nonlinear_arith)
        requires
            0 <= ag <= 0xffff_ffff_ffff_ffff,
            0 <= af <= 0x8000_0000_0000_0000,
    ;
    assert(g * f == ag * af || g * f == -(ag * af)) by (nonlinear_arith)
        requires
            ag == g || ag == -g,
            af == f || af == -f,
    ;
}

/// Ranks a fixed watchlist one symbol at a time: the caller asks for the next
/// symbol, fetches its candles and feeds their closes back.
pub struct Ranker {
    watchlist: Vec<String>,
    fed: usize,
    best: usize,
    best_perf: Performance,
    perfs: Ghost<Seq<Performance>>,
}

impl Ranker {
    pub closed spec fn symbols(&self) -> Seq<Seq<char>> {
        views(self.watchlist@)
    }

    /// Performances of the symbols ranked so far, in watchlist order.
    pub closed spec fn ranked(&self) -> Seq<Performance> {
        self.perfs@
    }

    pub closed spec fn wf(&self) -> bool {
        &&& self.fed <= self.watchlist@.len()
        &&& self.perfs@.len() == self.fed
        &&& forall|i: int| 0 <= i < self.fed ==> (#[trigger] self.perfs@[i]).first > 0
        &&& self.fed > 0 ==> self.best < self.fed
        &&& self.fed > 0 ==> self.best == best_index(self.perfs@) && self.best_perf == self.perfs@[self.best as int]
    }

    pub fn new(watchlist: Vec<String>) -> (r: Ranker)
        ensures
            r.wf(),
            r.symbols() == views(watchlist@),
            r.ranked() == Seq::<Performance>::empty(),
    {
        Ranker {
            watchlist,
            fed: 0,
            best: 0,
            best_perf: Performance { first: 1, last: 1 },
            perfs: Ghost(Seq::empty()),
        }
    }

    /// The symbol whose candles are to be fed next, if any is left.
    pub fn next_symbol(&self) -> (r: Option<String>)
        requires
            self.wf(),
        ensures
            self.ranked().len() < self.symbols().len() ==> r is Some && r->0@ == self.symbols()[self.ranked().len() as int],
            self.ranked().len() >= self.symbols().len() ==> r is None,
    {
        if self.fed < self.watchlist.len() {
            Some(self.watchlist[self.fed].clone())
        } else {
            None
        }
    }

    /// Feeds the closes of the next symbol's candles, oldest first.
    /// Unusable candles leave the ranker unchanged and name the symbol.
    pub fn feed(&mut self, closes: &Vec<i64>) -> (r: Result<(), RankError>)
        requires
            old(self).wf(),
            old(self).ranked().len() < old(self).symbols().len(),
        ensures
            final(self).wf(),
            final(self).symbols() == old(self).symbols(),
            closes_ok(closes@) ==> r is Ok && final(self).ranked() == old(self).ranked().push(perf_of(closes@)),
            closes@.len() < 2 ==> r is Err && r->Err_0 is InsufficientData
                && r->Err_0->InsufficientData_0@ == old(self).symbols()[old(self).ranked().len() as int]
                && final(self).ranked() == old(self).ranked(),
            closes@.len() >= 2 && closes@[0] <= 0 ==> r is Err && r->Err_0 is InvalidReferencePrice
                && r->Err_0->InvalidReferencePrice_0@ == old(self).symbols()[old(self).ranked().len() as int]
                && final(self).ranked() == old(self).ranked(),
    {
        let n = closes.len();
        if n < 2 {
            return Err(RankError::InsufficientData(self.watchlist[self.fed].clone()));
        }
        if closes[0] <= 0 {
            return Err(RankError::InvalidReferencePrice(self.watchlist[self.fed].clone()));
        }
        let p = Performance { first: closes[0], last: closes[n - 1] };
        let ghost old_perfs = self.perfs@;
        let ghost new_perfs = old_perfs.push(p);
        proof {
            assert(new_perfs.drop_last() =~= old_perfs);
            assert(self.fed < self.watchlist.len());
            if self.fed > 0 {
                lemma_best_index_bounds(old_perfs);
            }
        }
        if self.fed == 0 || outperforms(&p, &self.best_perf) {
            self.best = self.fed;
            self.best_perf = p;
        }
        self.fed = self.fed + 1;
        self.perfs = Ghost(new_perfs);
        assert(p == perf_of(closes@));
        Ok(())
    }

    /// The best performer once every symbol has been fed: the symbol with the
    /// highest performance, the earliest one on ties.
    pub fn finish(&self) -> (r: Result<(String, Performance), RankError>)
        requires
            self.wf(),
            self.ranked().len() == self.symbols().len(),
        ensures
            self.symbols().len() == 0 ==> r == Err::<(String, Performance), RankError>(RankError::NoData),
            self.symbols().len() > 0 ==> r is Ok
                && r->Ok_0.0@ == self.symbols()[best_index(self.ranked())]
                && r->Ok_0.1 == self.ranked()[best_index(self.ranked())],
    {
        if self.watchlist.len() == 0 {
            assert(self.symbols().len() == 0);
            Err(RankError::NoData)
        } else {
            Ok((self.watchlist[self.best].clone(), self.best_perf))
        }
    }
}

proof fn lemma_best_index_bounds(ps: Seq<Performance>)
    requires
        ps.len() > 0,
    ensures
        0 <= best_index(ps) < ps.len(),
    decreases ps.len(),
{
    if ps.len() > 1 {
        lemma_best_index_bounds(ps.drop_last());
    }
}

/// Exact comparison laws of `beats` for positive first closes.
proof fn lemma_beats_chain(a: Performance, b: Performance, c: Performance)
    requires
        a.first > 0,
        b.first > 0,
        c.first > 0,
        beats(a, b),
        !beats(c, b),
    ensures
        beats(a, c),
{
    let ga: int = a.last - a.first;
    let gb: int = b.last - b.first;
    let gc: int = c.last - c.first;
    let fa: int = a.first as int;
    let fb: int = b.first as int;
    let fc: int = c.first as int;
    assert(ga * fc > gc * fa) by (nonlinear_arith)
        requires
            ga * fb > gb * fa,
            gc * fb <= gb * fc,
            fa > 0,
            fb > 0,
            fc > 0,
    {
        assert(ga * fb * fc > gb * fa * fc);
        assert(gc * fb * fa <= gb * fc * fa);
        assert(fb * (ga * fc - gc * fa) > 0);
    }
}

/// The ranking's winner is a maximum that comes first among its equals: no
/// performance beats it, and it strictly beats every one before it. This is
/// the top of a stable sort by descending performance.
pub proof fn lemma_best_is_first_maximum(ps: Seq<Performance>)
    requires
        ps.len() > 0,
        forall|i: int| 0 <= i < ps.len() ==> (#[trigger] ps[i]).first > 0,
    ensures
        0 <= best_index(ps) < ps.len(),
        forall|j: int| 0 <= j < ps.len() ==> !beats(#[trigger] ps[j], ps[best_index(ps)]),
        forall|j: int| 0 <= j < best_index(ps) ==> beats(ps[best_index(ps)], #[trigger] ps[j]),
    decreases ps.len(),
{
    lemma_best_index_bounds(ps);
    if ps.len() > 1 {
        let init = ps.drop_last();
        lemma_best_is_first_maximum(init);
        let b = best_index(init);
        let n = ps.len() - 1;
        let x = ps[n];
        assert(forall|j: int| 0 <= j < n ==> ps[j] == #[trigger] init[j]);
        assert(forall|j: int| 0 <= j < n ==> !beats(#[trigger] init[j], init[b]));
        assert(forall|j: int| 0 <= j < b ==> beats(init[b], #[trigger] init[j]));
        if beats(x, ps[b]) {
            assert(best_index(ps) == n);
            assert forall|j: int| 0 <= j < ps.len() implies !beats(#[trigger] ps[j], ps[best_index(ps)]) by {
                if j < n {
                    assert(!beats(init[j], init[b]));
                    if beats(ps[j], x) {
                        lemma_beats_chain(ps[j], x, ps[b]);
                    }
                }
            }
            assert forall|j: int| 0 <= j < best_index(ps) implies beats(ps[best_index(ps)], #[trigger] ps[j]) by {
                assert(!beats(init[j], init[b]));
                lemma_beats_chain(x, ps[b], ps[j]);
            }
        } else {
            assert(best_index(ps) == b);
            assert forall|j: int| 0 <= j < ps.len() implies !beats(#[trigger] ps[j], ps[best_index(ps)]) by {
                if j < n {
                    assert(!beats(init[j], init[b]));
                }
            }
            assert forall|j: int| 0 <= j < best_index(ps) implies beats(ps[best_index(ps)], #[trigger] ps[j]) by {
                assert(beats(init[b], init[j]));
            }
        }
    }
}

} // verus!
