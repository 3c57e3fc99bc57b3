//! Run planning and aggregation for the concentration family: the per-run
//! address set, the fixed holiday exclusions, and the per-entity merge of
//! page fragments into completed records.

use vstd::prelude::*;
use crate::chars::{str_eq, string_from_chars};
use crate::fmt::push_u64_digits;
use crate::jsonout::push_str_chars;
use crate::models::concentration::{conc_json, Concentration, ConcentrationV, Temp, TempV};
use crate::numeric::Decimal;

verus! {

/// How many pages make one entity's concentration record.
pub open spec fn concentration_pages() -> int {
    5
}

/// The fixed holiday dates on which a concentration run is a no-op.
pub open spec fn is_skipped_date_spec(d: Seq<char>) -> bool {
    ||| d == "20240101"@
    ||| d == "20240206"@
    ||| d == "20240207"@
    ||| d == "20240208"@
    ||| d == "20240209"@
    ||| d == "20240212"@
    ||| d == "20240213"@
    ||| d == "20240214"@
    ||| d == "20240228"@
    ||| d == "20240404"@
    ||| d == "20240405"@
    ||| d == "20240501"@
    ||| d == "20240610"@
    ||| d == "20240917"@
    ||| d == "20241010"@
}

/// Is this run date on the fixed holiday list?
pub fn is_skipped_date(date: &str) -> (r: bool)
    ensures
        r == is_skipped_date_spec(date@),
{
    str_eq(date, "20240101") || str_eq(date, "20240206") || str_eq(date, "20240207") || str_eq(
        date,
        "20240208",
    ) || str_eq(date, "20240209") || str_eq(date, "20240212") || str_eq(date, "20240213")
        || str_eq(date, "20240214") || str_eq(date, "20240228") || str_eq(date, "20240404")
        || str_eq(date, "20240405") || str_eq(date, "20240501") || str_eq(date, "20240610")
        || str_eq(date, "20240917") || str_eq(date, "20241010")
}

/// The page token fetched as the `i`-th page of an entity, counting from
/// one: the fifth page substitutes token six for the dropped variant.
pub open spec fn page_token(i: int) -> int {
    if i == concentration_pages() {
        i + 1
    } else {
        i
    }
}

/// The broker-page address of one entity and one page counter.
pub open spec fn conc_url(stock: Seq<char>, i: int) -> Seq<char> {
    "https://fubon-ebrokerdj.fbs.com.tw/z/zc/zco/zco_"@ + stock + "_"@ + crate::fmt::nat_digit_chars(
        page_token(i),
    ) + ".djhtm"@
}

/// Builds the address of one entity page.
pub fn concentration_url(stock: &str, i: usize) -> (r: String)
    requires
        1 <= i <= 5,
    ensures
        r@ == conc_url(stock@, i as int),
{
    let token: u64 = if i == 5 {
        6
    } else {
        i as u64
    };
    let mut out: Vec<char> = Vec::new();
    push_str_chars(&mut out, "https://fubon-ebrokerdj.fbs.com.tw/z/zc/zco/zco_");
    push_str_chars(&mut out, stock);
    push_str_chars(&mut out, "_");
    push_u64_digits(&mut out, token);
    push_str_chars(&mut out, ".djhtm");
    proof {
        assert(out@ =~= conc_url(stock@, i as int));
    }
    string_from_chars(&out)
}

/// Generates the whole address set of a run: five pages per entity, in
/// entity order.
pub fn generate_urls(stocks: &Vec<String>) -> (r: Vec<String>)
    requires
        stocks@.len() * 5 <= usize::MAX,
    ensures
        r@.len() == stocks@.len() * 5,
        forall|s: int, j: int|
            0 <= s < stocks@.len() && 1 <= j <= 5 ==> #[trigger] r@[s * 5 + (j - 1)]@ == conc_url(
                stocks@[s]@,
                j,
            ),
{
    let mut out: Vec<String> = Vec::new();
    let mut s: usize = 0;
    while s < stocks.len()
        invariant
            stocks@.len() * 5 <= usize::MAX,
            s <= stocks@.len(),
            out@.len() == s * 5,
            forall|t: int, j: int|
                0 <= t < s && 1 <= j <= 5 ==> #[trigger] out@[t * 5 + (j - 1)]@ == conc_url(
                    stocks@[t]@,
                    j,
                ),
        decreases stocks@.len() - s,
    {
        proof {
            assert((s + 1) * 5 == s * 5 + 5) by (nonlinear_arith);
            assert(s * 5 <= stocks@.len() * 5) by (nonlinear_arith)
                requires
                    s < stocks@.len(),
            ;
        }
        let mut j: usize = 1;
        while j <= 5
            invariant
                s < stocks@.len(),
                stocks@.len() * 5 <= usize::MAX,
                s * 5 + 5 <= usize::MAX,
                1 <= j <= 6,
                out@.len() == s * 5 + (j - 1),
                forall|t: int, jj: int|
                    0 <= t < s && 1 <= jj <= 5 ==> #[trigger] out@[t * 5 + (jj - 1)]@ == conc_url(
                        stocks@[t]@,
                        jj,
                    ),
                forall|jj: int|
                    1 <= jj < j ==> #[trigger] out@[s * 5 + (jj - 1)]@ == conc_url(
                        stocks@[s as int]@,
                        jj,
                    ),
            decreases 6 - j,
        {
            let url = concentration_url(stocks[s].as_str(), j);
            out.push(url);
            j += 1;
        }
        s += 1;
        proof {
            assert forall|t: int, j2: int|
                0 <= t < s && 1 <= j2 <= 5 implies #[trigger] out@[t * 5 + (j2 - 1)]@ == conc_url(
                stocks@[t]@,
                j2,
            ) by {
                if t < s - 1 {
                    assert(t * 5 + 5 <= (s - 1) * 5) by (nonlinear_arith)
                        requires
                            t < s - 1,
                    ;
                }
            }
        }
    }
    out
}

/// The address set a run actually fetches: empty on a holiday, the full
/// per-entity page set otherwise.
pub fn concentration_work_items(date: &str, stocks: &Vec<String>) -> (r: Vec<String>)
    requires
        stocks@.len() * 5 <= usize::MAX,
    ensures
        is_skipped_date_spec(date@) ==> r@.len() == 0,
        !is_skipped_date_spec(date@) ==> r@.len() == stocks@.len() * 5 && (forall|s: int, j: int|
            0 <= s < stocks@.len() && 1 <= j <= 5 ==> #[trigger] r@[s * 5 + (j - 1)]@ == conc_url(
                stocks@[s]@,
                j,
            )),
{
    if is_skipped_date(date) {
        Vec::new()
    } else {
        generate_urls(stocks)
    }
}

// ---------------------------------------------------------------------------
// Aggregation
// ---------------------------------------------------------------------------
/// The index of the entry for `id`, or a negative number when there is
/// none; entries are probed front to back.
pub open spec fn find_entry(entries: Seq<ConcentrationV>, id: Seq<char>) -> int
    decreases entries.len(),
{
    if entries.len() == 0 {
        -1
    } else if entries[0].stock_id == id {
        0
    } else {
        let r = find_entry(entries.drop_first(), id);
        if r < 0 {
            -1
        } else {
            r + 1
        }
    }
}

/// A fresh entry for an entity no fragment has reached yet.
pub open spec fn blank_entry(id: Seq<char>, date: Seq<char>) -> ConcentrationV {
    ConcentrationV {
        stock_id: id,
        exchange_date: date,
        concentration: Seq::new(5, |i: int| 0),
        sum_buy_shares: 0,
        sum_sell_shares: 0,
        avg_buy_price: (0, 0),
        avg_sell_price: (0, 0),
        current: 0,
    }
}

/// One fragment folded into an entry: its net difference lands in its
/// slot, the slot-zero fragment also carries the summary fields, and the
/// received count grows by one.
pub open spec fn apply_frag_entry(e: ConcentrationV, f: TempV) -> ConcentrationV {
    ConcentrationV {
        concentration: e.concentration.update(f.slot, f.net),
        sum_buy_shares: if f.slot == 0 {
            f.buy
        } else {
            e.sum_buy_shares
        },
        sum_sell_shares: if f.slot == 0 {
            f.sell
        } else {
            e.sum_sell_shares
        },
        avg_buy_price: if f.slot == 0 {
            f.avg_buy
        } else {
            e.avg_buy_price
        },
        avg_sell_price: if f.slot == 0 {
            f.avg_sell
        } else {
            e.avg_sell_price
        },
        current: e.current + 1,
        ..e
    }
}

/// One aggregation transition: the fragment reaches its entity's entry (a
/// fresh one if none exists), and the entry is published exactly when its
/// received count reaches the page total.
pub open spec fn agg_step(entries: Seq<ConcentrationV>, date: Seq<char>, f: TempV) -> (
    Seq<ConcentrationV>,
    Option<ConcentrationV>,
) {
    let idx = find_entry(entries, f.stock_id);
    if idx < 0 {
        let e2 = apply_frag_entry(blank_entry(f.stock_id, date), f);
        (
            entries.push(e2),
            if e2.current == concentration_pages() {
                Some(e2)
            } else {
                None
            },
        )
    } else {
        let e2 = apply_frag_entry(entries[idx], f);
        (
            entries.update(idx, e2),
            if e2.current == concentration_pages() {
                Some(e2)
            } else {
                None
            },
        )
    }
}

/// A whole run of fragments folded through [`agg_step`], with the records
/// published along the way, in publish order.
pub open spec fn agg_run(entries: Seq<ConcentrationV>, date: Seq<char>, frags: Seq<TempV>) -> (
    Seq<ConcentrationV>,
    Seq<ConcentrationV>,
)
    decreases frags.len(),
{
    if frags.len() == 0 {
        (entries, Seq::empty())
    } else {
        let prev = agg_run(entries, date, frags.drop_last());
        let st = agg_step(prev.0, date, frags.last());
        (
            st.0,
            match st.1 {
                Some(c) => prev.1.push(c),
                None => prev.1,
            },
        )
    }
}

/// Accumulates concentration fragments by entity and hands out each
/// entity's serialized record the moment its page set is complete.
#[derive(Debug)]
pub struct Aggregator {
    pub entries: Vec<Concentration>,
    pub exchange_date: String,
}

impl View for Aggregator {
    type V = Seq<ConcentrationV>;

    open spec fn view(&self) -> Seq<ConcentrationV> {
        self.entries@.map_values(|c: Concentration| c@)
    }
}

impl Aggregator {
    /// Every entry holds the full slot array, carries the run date, counts
    /// fewer fragments than the counter can hold, and no entity appears
    /// twice.
    pub open spec fn wf(&self) -> bool {
        &&& forall|i: int|
            0 <= i < self@.len() ==> (#[trigger] self@[i]).concentration.len() == 5
        &&& forall|i: int|
            0 <= i < self@.len() ==> (#[trigger] self@[i]).exchange_date == self.exchange_date@
        &&& forall|i: int, j: int|
            0 <= i < j < self@.len() ==> self@[i].stock_id != self@[j].stock_id
    }

    /// An empty aggregator for one run date.
    pub fn new(exchange_date: String) -> (r: Self)
        ensures
            r@.len() == 0,
            r.exchange_date@ == exchange_date@,
            r.wf(),
    {
        Aggregator { entries: Vec::new(), exchange_date }
    }

    /// Folds one fragment in; the result is the serialized record when this
    /// fragment completes its entity.
    pub fn apply(&mut self, frag: &Temp) -> (published: Option<String>)
        requires
            frag.1 < 5,
            old(self).wf(),
            find_entry(old(self)@, frag.0@) >= 0 ==> old(self)@[find_entry(
                old(self)@,
                frag.0@,
            )].current < usize::MAX,
        ensures
            final(self).wf(),
            final(self).exchange_date == old(self).exchange_date,
            final(self)@ == agg_step(old(self)@, old(self).exchange_date@, frag@).0,
            match agg_step(old(self)@, old(self).exchange_date@, frag@).1 {
                Some(c) => published matches Some(s) && s@ == conc_json(c),
                None => published is None,
            },
    {
        let ghost entries0 = self@;
        let ghost date = self.exchange_date@;
        let n = self.entries.len();
        let mut k: usize = 0;
        let mut found: bool = false;
        while k < n && !found
            invariant
                n == self.entries@.len(),
                k <= n,
                entries0 == self@,
                found ==> k < n && self@[k as int].stock_id == frag.0@,
                !found ==> forall|j: int| 0 <= j < k ==> self@[j].stock_id != frag.0@,
            decreases n - k, (if found { 0int } else { 1int }),
        {
            if str_eq(self.entries[k].stock_id.as_str(), frag.0.as_str()) {
                proof {
                    assert(self@[k as int] == self.entries@[k as int]@);
                }
                found = true;
            } else {
                proof {
                    assert(self@[k as int] == self.entries@[k as int]@);
                }
                k += 1;
            }
        }
        proof {
            if found {
                lemma_find_entry_from(entries0, frag.0@, k as int);
            } else {
                lemma_find_entry_from(entries0, frag.0@, n as int);
            }
        }
        if !found {
            // first fragment of this entity: build the entry afresh
            let mut slots: Vec<i64> = Vec::new();
            let mut z: usize = 0;
            while z < 5
                invariant
                    z <= 5,
                    slots@.len() == z,
                    forall|i: int| 0 <= i < z ==> slots@[i] == 0i64,
                decreases 5 - z,
            {
                slots.push(0);
                z += 1;
            }
            let mut entry = Concentration {
                stock_id: frag.0.clone(),
                exchange_date: self.exchange_date.clone(),
                concentration: slots,
                sum_buy_shares: 0,
                sum_sell_shares: 0,
                avg_buy_price: Decimal { mantissa: 0, scale: 0 },
                avg_sell_price: Decimal { mantissa: 0, scale: 0 },
                current: 0,
            };
            proof {
                assert(entry@.concentration =~= blank_entry(frag.0@, date).concentration);
                assert(entry@ == blank_entry(frag.0@, date));
            }
            entry.concentration[frag.1] = frag.2;
            if frag.1 == 0 {
                entry.sum_buy_shares = frag.3;
                entry.sum_sell_shares = frag.4;
                entry.avg_buy_price = frag.5;
                entry.avg_sell_price = frag.6;
            }
            entry.current = 1;
            proof {
                assert(entry@.concentration =~= apply_frag_entry(
                    blank_entry(frag.0@, date),
                    frag@,
                ).concentration);
                assert(entry@ == apply_frag_entry(blank_entry(frag.0@, date), frag@));
            }
            let published = if entry.current == 5 {
                Some(entry.to_json())
            } else {
                None
            };
            self.entries.push(entry);
            proof {
                assert(self@ =~= agg_step(entries0, date, frag@).0);
            }
            published
        } else {
            let idx = k;
            proof {
                assert(self@[idx as int] == self.entries@[idx as int]@);
            }
            let slot = frag.1;
            let net = frag.2;
            let e = &mut self.entries[idx];
            e.concentration[slot] = net;
            if slot == 0 {
                e.sum_buy_shares = frag.3;
                e.sum_sell_shares = frag.4;
                e.avg_buy_price = frag.5;
                e.avg_sell_price = frag.6;
            }
            e.current = e.current + 1;
            let published = if e.current == 5 {
                Some(e.to_json())
            } else {
                None
            };
            proof {
                assert(self.entries@[idx as int]@.concentration =~= apply_frag_entry(
                    entries0[idx as int],
                    frag@,
                ).concentration);
                assert(self.entries@[idx as int]@ == apply_frag_entry(entries0[idx as int], frag@));
                assert(self@ =~= agg_step(entries0, date, frag@).0);
            }
            published
        }
    }
}

proof fn lemma_find_entry_in_range(entries: Seq<ConcentrationV>, id: Seq<char>)
    ensures
        -1 <= find_entry(entries, id) < entries.len(),
        find_entry(entries, id) >= 0 ==> entries[find_entry(entries, id)].stock_id == id,
    decreases entries.len(),
{
    if entries.len() > 0 && entries[0].stock_id != id {
        lemma_find_entry_in_range(entries.drop_first(), id);
    }
}

/// Folds a batch of fragments through the aggregator, handing back the
/// final per-entity state and every record published along the way, in
/// publish order.
pub fn aggregate(frags: Vec<Temp>, exchange_date: String) -> (r: (Aggregator, Vec<String>))
    requires
        forall|i: int| 0 <= i < frags@.len() ==> (#[trigger] frags@[i]).1 < 5,
        frags@.len() < usize::MAX,
    ensures
        r.0.wf(),
        r.0.exchange_date@ == exchange_date@,
        r.0@ == agg_run(Seq::empty(), exchange_date@, frags@.map_values(|t: Temp| t@)).0,
        r.1@.map_values(|s: String| s@) == agg_run(
            Seq::empty(),
            exchange_date@,
            frags@.map_values(|t: Temp| t@),
        ).1.map_values(|c: ConcentrationV| conc_json(c)),
{
    let ghost date = exchange_date@;
    let ghost fv = frags@.map_values(|t: Temp| t@);
    let mut agg = Aggregator::new(exchange_date);
    let mut published: Vec<String> = Vec::new();
    let mut i: usize = 0;
    proof {
        assert(fv.take(0) =~= Seq::<TempV>::empty());
    }
    while i < frags.len()
        invariant
            i <= frags@.len() < usize::MAX,
            fv == frags@.map_values(|t: Temp| t@),
            fv.len() == frags@.len(),
            forall|k: int| 0 <= k < frags@.len() ==> (#[trigger] frags@[k]).1 < 5,
            agg.wf(),
            agg.exchange_date@ == date,
            agg@ == agg_run(Seq::empty(), date, fv.take(i as int)).0,
            forall|k: int| 0 <= k < agg@.len() ==> (#[trigger] agg@[k]).current <= i,
            published@.map_values(|s: String| s@) == agg_run(
                Seq::empty(),
                date,
                fv.take(i as int),
            ).1.map_values(|c: ConcentrationV| conc_json(c)),
        decreases frags@.len() - i,
    {
        proof {
            assert(fv.take(i + 1 as int).drop_last() =~= fv.take(i as int));
            assert(fv.take(i + 1 as int).last() == fv[i as int]);
            assert(fv[i as int] == frags@[i as int]@);
            lemma_find_entry_in_range(agg@, frags@[i as int]@.stock_id);
        }
        let ghost st0 = agg@;
        let published_one = agg.apply(&frags[i]);
        proof {
            let st = agg_step(st0, date, fv[i as int]);
            assert(agg@ == st.0);
            assert forall|k: int| 0 <= k < agg@.len() implies (#[trigger] agg@[k]).current <= i + 1
            by {
                let idx = find_entry(st0, fv[i as int].stock_id);
                if idx < 0 {
                    if k < st0.len() {
                        assert(agg@[k] == st0[k]);
                    } else {
                        assert(agg@[k] == apply_frag_entry(
                            blank_entry(fv[i as int].stock_id, date),
                            fv[i as int],
                        ));
                    }
                } else {
                    if k == idx {
                        assert(agg@[k] == apply_frag_entry(st0[idx], fv[i as int]));
                    } else {
                        assert(agg@[k] == st0[k]);
                    }
                }
            }
        }
        proof {
            let st = agg_step(st0, date, fv[i as int]);
            assert(agg_run(Seq::empty(), date, fv.take(i + 1 as int)).0 == st.0);
            assert(agg_run(Seq::empty(), date, fv.take(i + 1 as int)).1 == (match st.1 {
                Some(c) => agg_run(Seq::empty(), date, fv.take(i as int)).1.push(c),
                None => agg_run(Seq::empty(), date, fv.take(i as int)).1,
            }));
        }
        let ghost pm = published@.map_values(|s2: String| s2@);
        match published_one {
            Some(s) => {
                published.push(s);
                proof {
                    let st = agg_step(st0, date, fv[i as int]);
                    let c = st.1->Some_0;
                    assert(st.1 is Some);
                    assert(published@.map_values(|s2: String| s2@) =~~= pm.push(conc_json(c)));
                    assert(agg_run(Seq::empty(), date, fv.take(i + 1 as int)).1.map_values(
                        |cc: ConcentrationV| conc_json(cc),
                    ) =~~= pm.push(conc_json(c)));
                }
            },
            None => {
                proof {
                    let st = agg_step(st0, date, fv[i as int]);
                    assert(st.1 is None);
                    assert(agg_run(Seq::empty(), date, fv.take(i + 1 as int)).1.map_values(
                        |cc: ConcentrationV| conc_json(cc),
                    ) =~~= pm);
                }
            },
        }
        i += 1;
    }
    proof {
        assert(fv.take(fv.len() as int) =~= fv);
    }
    (agg, published)
}

// ---------------------------------------------------------------------------
// Order independence of aggregation
// ---------------------------------------------------------------------------
/// Some fragment among the first `k` carries slot `s`.
pub open spec fn covers_pfx(frags: Seq<TempV>, k: int, s: int) -> bool {
    exists|i: int| 0 <= i < k && #[trigger] frags[i].slot == s
}

/// The position of the fragment that carries slot `s`.
pub open spec fn slot_index(frags: Seq<TempV>, s: int) -> int {
    choose|i: int| 0 <= i < frags.len() && #[trigger] frags[i].slot == s
}

/// The fragment that carries slot `s`.
pub open spec fn frag_with_slot(frags: Seq<TempV>, s: int) -> TempV {
    frags[slot_index(frags, s)]
}

/// A complete delivery for one entity: five fragments of that entity whose
/// slots are pairwise distinct and cover every page slot.
pub open spec fn full_fragment_set(frags: Seq<TempV>, id: Seq<char>) -> bool {
    &&& frags.len() == 5
    &&& forall|i: int| 0 <= i < 5 ==> (#[trigger] frags[i]).stock_id == id
    &&& forall|i: int| 0 <= i < 5 ==> 0 <= (#[trigger] frags[i]).slot < 5
    &&& forall|i: int, j: int| 0 <= i < j < 5 ==> frags[i].slot != frags[j].slot
    &&& forall|s: int| 0 <= s < 5 ==> #[trigger] covers_pfx(frags, 5, s)
}

/// The one record a complete delivery determines, independent of the order
/// the fragments arrived in: slot by slot the net difference of the
/// fragment that carries it, summary fields from the slot-zero fragment.
pub open spec fn completed_record(frags: Seq<TempV>, id: Seq<char>, date: Seq<char>) -> ConcentrationV {
    ConcentrationV {
        stock_id: id,
        exchange_date: date,
        concentration: Seq::new(5, |s: int| frag_with_slot(frags, s).net),
        sum_buy_shares: frag_with_slot(frags, 0).buy,
        sum_sell_shares: frag_with_slot(frags, 0).sell,
        avg_buy_price: frag_with_slot(frags, 0).avg_buy,
        avg_sell_price: frag_with_slot(frags, 0).avg_sell,
        current: 5,
    }
}

proof fn lemma_slot_index_unique(frags: Seq<TempV>, s: int, i: int)
    requires
        forall|a: int, b: int| 0 <= a < b < frags.len() ==> frags[a].slot != frags[b].slot,
        0 <= i < frags.len(),
        frags[i].slot == s,
    ensures
        slot_index(frags, s) == i,
        frag_with_slot(frags, s) == frags[i],
{
    let j = slot_index(frags, s);
    assert(0 <= j < frags.len() && frags[j].slot == s) by {
        assert(0 <= i < frags.len() && frags[i].slot == s);
    }
}

/// The single aggregation entry that exists after the first `k` fragments
/// of a complete delivery.
pub open spec fn pfx_entry(frags: Seq<TempV>, id: Seq<char>, date: Seq<char>, k: int) -> ConcentrationV {
    ConcentrationV {
        stock_id: id,
        exchange_date: date,
        concentration: Seq::new(
            5,
            |s: int|
                if covers_pfx(frags, k, s) {
                    frag_with_slot(frags, s).net
                } else {
                    0
                },
        ),
        sum_buy_shares: if covers_pfx(frags, k, 0) {
            frag_with_slot(frags, 0).buy
        } else {
            0
        },
        sum_sell_shares: if covers_pfx(frags, k, 0) {
            frag_with_slot(frags, 0).sell
        } else {
            0
        },
        avg_buy_price: if covers_pfx(frags, k, 0) {
            frag_with_slot(frags, 0).avg_buy
        } else {
            (0, 0)
        },
        avg_sell_price: if covers_pfx(frags, k, 0) {
            frag_with_slot(frags, 0).avg_sell
        } else {
            (0, 0)
        },
        current: k,
    }
}

proof fn lemma_agg_run_prefix(frags: Seq<TempV>, id: Seq<char>, date: Seq<char>, k: int)
    requires
        full_fragment_set(frags, id),
        0 <= k <= 5,
    ensures
        k == 0 ==> agg_run(Seq::empty(), date, frags.take(k)).0 == Seq::<ConcentrationV>::empty(),
        k > 0 ==> agg_run(Seq::empty(), date, frags.take(k)).0 =~~= seq![
            pfx_entry(frags, id, date, k),
        ],
        agg_run(Seq::empty(), date, frags.take(k)).1 =~~= if k == 5 {
            seq![pfx_entry(frags, id, date, 5)]
        } else {
            Seq::<ConcentrationV>::empty()
        },
    decreases k,
{
    if k == 0 {
        assert(frags.take(0) =~= Seq::<TempV>::empty());
    } else {
        lemma_agg_run_prefix(frags, id, date, k - 1);
        assert(frags.take(k).drop_last() =~= frags.take(k - 1));
        assert(frags.take(k).last() == frags[k - 1]);
        let f = frags[k - 1];
        let prev = agg_run(Seq::empty(), date, frags.take(k - 1));
        let st = agg_step(prev.0, date, f);
        lemma_slot_index_unique(frags, f.slot, k - 1);
        let e2 = if k == 1 {
            assert(find_entry(prev.0, f.stock_id) == -1);
            apply_frag_entry(blank_entry(f.stock_id, date), f)
        } else {
            assert(prev.0[0].stock_id == id);
            assert(find_entry(prev.0, f.stock_id) == 0);
            apply_frag_entry(prev.0[0], f)
        };
        assert(e2.concentration =~= pfx_entry(frags, id, date, k).concentration) by {
            assert forall|s: int| 0 <= s < 5 implies e2.concentration[s] == pfx_entry(
                frags,
                id,
                date,
                k,
            ).concentration[s] by {
                if s == f.slot {
                    assert(covers_pfx(frags, k, s));
                } else {
                    assert(covers_pfx(frags, k, s) == covers_pfx(frags, k - 1, s)) by {
                        if covers_pfx(frags, k, s) {
                            let w = choose|i: int| 0 <= i < k && #[trigger] frags[i].slot == s;
                            assert(w < k - 1);
                            assert(covers_pfx(frags, k - 1, s));
                        }
                        if covers_pfx(frags, k - 1, s) {
                            let w = choose|i: int|
                                0 <= i < k - 1 && #[trigger] frags[i].slot == s;
                            assert(0 <= w < k && frags[w].slot == s);
                        }
                    }
                }
            }
        }
        assert(covers_pfx(frags, k, 0) == if f.slot == 0 {
            true
        } else {
            covers_pfx(frags, k - 1, 0)
        }) by {
            if f.slot != 0 && covers_pfx(frags, k, 0) {
                let w = choose|i: int| 0 <= i < k && #[trigger] frags[i].slot == 0;
                assert(w < k - 1);
                assert(covers_pfx(frags, k - 1, 0));
            }
            if f.slot != 0 && covers_pfx(frags, k - 1, 0) {
                let w = choose|i: int| 0 <= i < k - 1 && #[trigger] frags[i].slot == 0;
                assert(0 <= w < k && frags[w].slot == 0);
            }
        }
        assert(e2 =~~= pfx_entry(frags, id, date, k));
        assert(st.0 =~~= seq![pfx_entry(frags, id, date, k)]);
        assert(e2.current == k);
        if k == 5 {
            assert(st.1 == Some(e2));
        } else {
            assert(st.1 is None);
        }
    }
}

/// Aggregation is order-independent and publishes once: folding a complete
/// delivery for one entity through the aggregator, in whatever order the
/// five fragments arrived, publishes exactly one record, and that record is
/// [`completed_record`] — a value computed from the fragment set alone,
/// with no reference to arrival order.
pub proof fn lemma_aggregation_order_independent(frags: Seq<TempV>, id: Seq<char>, date: Seq<char>)
    requires
        full_fragment_set(frags, id),
    ensures
        agg_run(Seq::empty(), date, frags).1 =~~= seq![completed_record(frags, id, date)],
{
    lemma_agg_run_prefix(frags, id, date, 5);
    assert(frags.take(5) =~= frags);
    assert(pfx_entry(frags, id, date, 5) =~~= completed_record(frags, id, date)) by {
        assert(covers_pfx(frags, 5, 0));
        assert forall|s: int| 0 <= s < 5 implies pfx_entry(frags, id, date, 5).concentration[s]
            == completed_record(frags, id, date).concentration[s] by {
            assert(covers_pfx(frags, 5, s));
        }
        assert(pfx_entry(frags, id, date, 5).concentration =~= completed_record(
            frags,
            id,
            date,
        ).concentration);
    }
}

proof fn lemma_find_entry_from(entries: Seq<ConcentrationV>, id: Seq<char>, k: int)
    requires
        0 <= k <= entries.len(),
        forall|j: int| 0 <= j < k ==> entries[j].stock_id != id,
        k < entries.len() ==> entries[k].stock_id == id,
    ensures
        find_entry(entries, id) == if k < entries.len() {
            k
        } else {
            -1
        },
    decreases k,
{
    if entries.len() == 0 {
    } else if k == 0 {
    } else {
        lemma_find_entry_from(entries.drop_first(), id, k - 1);
    }
}

} // verus!
