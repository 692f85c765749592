//! The periodic update of all the cats that are kept: each one ages and eats, and
//! those that die leave the herd.
use vstd::prelude::*;
use crate::cat::{description_text, minimal_info_text, ticked, CatInfo};

verus! {

/// Milliseconds between two updates of the herd.
pub const TICK_MILLIS: u64 = 30000;

/// Whether the herd is due for an update, `elapsed_ms` milliseconds after the last one.
pub fn tick_due(elapsed_ms: u64) -> (r: bool)
    ensures
        r == (elapsed_ms >= TICK_MILLIS),
{
    elapsed_ms >= TICK_MILLIS
}

/// The cats that are still alive after an update at `now`, in their order, as they
/// are after it.
pub open spec fn survivors(s: Seq<CatInfo>, now: int) -> Seq<CatInfo>
    decreases s.len(),
{
    if s.len() == 0 {
        Seq::empty()
    } else {
        let (c, alive) = ticked(s[0], now);
        (if alive { seq![c] } else { Seq::empty() }) + survivors(s.drop_first(), now)
    }
}

/// What is reported of a cat after an update: its short summary while it lives, its
/// full description when it has died.
pub open spec fn report_text(c: CatInfo, alive: bool) -> Seq<char> {
    if alive { minimal_info_text(c) } else { description_text(c) }
}

/// Updates every cat at time `now`. Returns the survivors, in their order, and for
/// each cat of `cats` whether it lives and the report on it.
pub fn update_herd(cats: Vec<CatInfo>, now: i64) -> (r: (Vec<CatInfo>, Vec<(bool, String)>))
    requires
        forall|i: int| 0 <= i < cats.len() ==> (#[trigger] cats[i]).wf(),
    ensures
        r.0@ == survivors(cats@, now as int),
        forall|i: int| 0 <= i < r.0.len() ==> (#[trigger] r.0[i]).wf(),
        r.1.len() == cats.len(),
        forall|i: int| 0 <= i < cats.len() ==> {
            let (c, alive) = ticked(#[trigger] cats[i], now as int);
            r.1[i].0 == alive && r.1[i].1@ == report_text(c, alive)
        },
{
    let ghost all = cats@;
    let n = cats.len();
    let mut rest = cats;
    let mut kept: Vec<CatInfo> = Vec::new();
    let mut reports: Vec<(bool, String)> = Vec::new();
    let mut k: usize = 0;
    while k < n
        invariant
            n == all.len(),
            k <= n,
            rest@ == all.subrange(k as int, n as int),
            kept@ + survivors(rest@, now as int) == survivors(all, now as int),
            forall|i: int| 0 <= i < all.len() ==> (#[trigger] all[i]).wf(),
            forall|i: int| 0 <= i < kept.len() ==> (#[trigger] kept[i]).wf(),
            reports.len() == k,
            forall|i: int| 0 <= i < k ==> {
                let (c, alive) = ticked(#[trigger] all[i], now as int);
                reports[i].0 == alive && reports[i].1@ == report_text(c, alive)
            },
        decreases n - k,
    {
        let ghost before = rest@;
        let mut c = rest.remove(0);
        assert(c == all[k as int]);
        assert(rest@ =~= before.drop_first());
        let alive = c.update_at(now).is_some();
        let text = if alive { c.minimal_info() } else { c.describe() };
        reports.push((alive, text));
        let ghost kept_before = kept@;
        if alive {
            kept.push(c);
            assert(kept@ + survivors(rest@, now as int) =~= kept_before + survivors(before, now as int));
        } else {
            assert(kept@ + survivors(rest@, now as int) =~= kept_before + survivors(before, now as int));
        }
        k = k + 1;
        assert(rest@ =~= all.subrange(k as int, n as int));
    }
    assert(rest@ =~= Seq::<CatInfo>::empty());
    assert(kept@ =~= survivors(all, now as int));
    (kept, reports)
}

} // verus!
