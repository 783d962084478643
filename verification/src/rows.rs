//! The row model and sort engine: one display row per live interface per
//! tick, ordered by a selectable key, always descending.  The sort is an
//! insertion sort whose result is pinned exactly by a spec-level stable
//! sort, so ties keep their first-seen order.

use vstd::prelude::*;

use crate::rate::Counters;

verus! {

/// The five keys a row set can be ordered by.
#[derive(Clone, Copy, Debug, PartialEq, Eq, Structural)]
pub enum SortKey {
    Total,
    TotalRx,
    TotalTx,
    Rx,
    Tx,
}

impl SortKey {
    /// The next key in the fixed round-robin.
    pub open spec fn spec_cycle(self) -> SortKey {
        match self {
            SortKey::Total => SortKey::TotalRx,
            SortKey::TotalRx => SortKey::TotalTx,
            SortKey::TotalTx => SortKey::Rx,
            SortKey::Rx => SortKey::Tx,
            SortKey::Tx => SortKey::Total,
        }
    }

    /// Advances to the next sort key in the round-robin
    /// total, total-rx, total-tx, rx rate, tx rate.
    pub fn cycle(self) -> (r: Self)
        ensures
            r == self.spec_cycle(),
    {
        match self {
            SortKey::Total => SortKey::TotalRx,
            SortKey::TotalRx => SortKey::TotalTx,
            SortKey::TotalTx => SortKey::Rx,
            SortKey::Rx => SortKey::Tx,
            SortKey::Tx => SortKey::Total,
        }
    }
}

/// Five presses of the cycle key return to the original sort key.
pub proof fn lemma_cycle_five(k: SortKey)
    ensures
        k.spec_cycle().spec_cycle().spec_cycle().spec_cycle().spec_cycle() == k,
{
}

/// One interface's display-ready aggregate for the current tick.
#[derive(Debug)]
pub struct RowData {
    pub index: u32,
    pub name: String,
    pub friendly_name: Option<String>,
    pub total: u64,
    pub total_rx: u64,
    pub total_tx: u64,
    pub rx: u64,
    pub tx: u64,
}

/// The mathematical image of a row: names as character sequences.
pub ghost struct RowModel {
    pub index: u32,
    pub name: Seq<char>,
    pub friendly_name: Option<Seq<char>>,
    pub total: u64,
    pub total_rx: u64,
    pub total_tx: u64,
    pub rx: u64,
    pub tx: u64,
}

impl View for RowData {
    type V = RowModel;

    open spec fn view(&self) -> RowModel {
        RowModel {
            index: self.index,
            name: self.name@,
            friendly_name: match self.friendly_name {
                Some(s) => Some(s@),
                None => None,
            },
            total: self.total,
            total_rx: self.total_rx,
            total_tx: self.total_tx,
            rx: self.rx,
            tx: self.tx,
        }
    }
}

/// The view of a whole row list.
pub open spec fn rows_view(s: Seq<RowData>) -> Seq<RowModel> {
    s.map_values(|r: RowData| r@)
}

/// One interface as the sampler hands it to a tick: identity, display
/// names, and the counters read for this tick, absent when the read
/// failed.
#[derive(Debug)]
pub struct IfaceSample {
    pub index: u32,
    pub name: String,
    pub friendly_name: Option<String>,
    pub stats: Option<Counters>,
}

/// The mathematical image of a sample.
pub ghost struct SampleModel {
    pub index: u32,
    pub name: Seq<char>,
    pub friendly_name: Option<Seq<char>>,
    pub stats: Option<Counters>,
}

impl View for IfaceSample {
    type V = SampleModel;

    open spec fn view(&self) -> SampleModel {
        SampleModel {
            index: self.index,
            name: self.name@,
            friendly_name: match self.friendly_name {
                Some(s) => Some(s@),
                None => None,
            },
            stats: self.stats,
        }
    }
}

/// The view of a whole sample list.
pub open spec fn samples_view(s: Seq<IfaceSample>) -> Seq<SampleModel> {
    s.map_values(|x: IfaceSample| x@)
}

/// The value a row is compared by under a sort key.
pub open spec fn key_of(r: RowModel, k: SortKey) -> u64 {
    match k {
        SortKey::Total => r.total,
        SortKey::TotalRx => r.total_rx,
        SortKey::TotalTx => r.total_tx,
        SortKey::Rx => r.rx,
        SortKey::Tx => r.tx,
    }
}

/// Reads the sort value of a row.
pub fn row_key(r: &RowData, k: SortKey) -> (v: u64)
    ensures
        v == key_of(r@, k),
{
    match k {
        SortKey::Total => r.total,
        SortKey::TotalRx => r.total_rx,
        SortKey::TotalTx => r.total_tx,
        SortKey::Rx => r.rx,
        SortKey::Tx => r.tx,
    }
}

/// Non-increasing order in the chosen key.
pub open spec fn sorted_desc(s: Seq<RowModel>, k: SortKey) -> bool {
    forall|i: int, j: int| 0 <= i < j < s.len() ==> key_of(s[i], k) >= key_of(s[j], k)
}

/// `x` placed into `s` before the first element whose key is strictly
/// smaller, so equal keys keep their first-seen order.
pub open spec fn insert_desc(s: Seq<RowModel>, x: RowModel, k: SortKey) -> Seq<RowModel>
    decreases s.len(),
{
    if s.len() == 0 {
        seq![x]
    } else if key_of(s[0], k) >= key_of(x, k) {
        seq![s[0]] + insert_desc(s.drop_first(), x, k)
    } else {
        seq![x] + s
    }
}

/// The stable descending sort: each element inserted in turn, left to
/// right.
pub open spec fn sort_desc(s: Seq<RowModel>, k: SortKey) -> Seq<RowModel>
    decreases s.len(),
{
    if s.len() == 0 {
        Seq::empty()
    } else {
        insert_desc(sort_desc(s.drop_last(), k), s.last(), k)
    }
}

/// The index where `insert_desc` places `x`: the first position whose
/// key is strictly below the key of `x`, or the length.
pub open spec fn first_below(s: Seq<RowModel>, x: RowModel, k: SortKey) -> int
    decreases s.len(),
{
    if s.len() == 0 {
        0
    } else if key_of(s[0], k) < key_of(x, k) {
        0
    } else {
        1 + first_below(s.drop_first(), x, k)
    }
}

proof fn lemma_first_below_props(s: Seq<RowModel>, x: RowModel, k: SortKey)
    ensures
        0 <= first_below(s, x, k) <= s.len(),
        forall|j: int| 0 <= j < first_below(s, x, k) ==> key_of(s[j], k) >= key_of(x, k),
        first_below(s, x, k) < s.len() ==> key_of(s[first_below(s, x, k)], k) < key_of(x, k),
    decreases s.len(),
{
    if s.len() > 0 && key_of(s[0], k) >= key_of(x, k) {
        lemma_first_below_props(s.drop_first(), x, k);
        assert forall|j: int| 0 <= j < first_below(s, x, k) implies key_of(s[j], k) >= key_of(
            x,
            k,
        ) by {
            if j > 0 {
                assert(s[j] == s.drop_first()[j - 1]);
            }
        }
    }
}

proof fn lemma_insert_desc_split(s: Seq<RowModel>, x: RowModel, k: SortKey)
    ensures
        insert_desc(s, x, k) =~= s.take(first_below(s, x, k)) + seq![x] + s.skip(
            first_below(s, x, k),
        ),
    decreases s.len(),
{
    let p = first_below(s, x, k);
    lemma_first_below_props(s, x, k);
    if s.len() == 0 {
        assert(s.take(0) =~= Seq::<RowModel>::empty());
        assert(s.skip(0) =~= s);
    } else if key_of(s[0], k) >= key_of(x, k) {
        lemma_insert_desc_split(s.drop_first(), x, k);
        assert(s.take(p) =~= seq![s[0]] + s.drop_first().take(p - 1));
        assert(s.skip(p) =~= s.drop_first().skip(p - 1));
    } else {
        assert(s.take(0) =~= Seq::<RowModel>::empty());
        assert(s.skip(0) =~= s);
    }
}

proof fn lemma_insert_desc_sorted(s: Seq<RowModel>, x: RowModel, k: SortKey)
    requires
        sorted_desc(s, k),
    ensures
        sorted_desc(insert_desc(s, x, k), k),
        insert_desc(s, x, k).len() == s.len() + 1,
{
    let p = first_below(s, x, k);
    lemma_first_below_props(s, x, k);
    lemma_insert_desc_split(s, x, k);
    let t = insert_desc(s, x, k);
    assert forall|i: int, j: int| 0 <= i < j < t.len() implies key_of(t[i], k) >= key_of(
        t[j],
        k,
    ) by {
        if i < p {
            assert(t[i] == s[i]);
        } else if i > p {
            assert(t[i] == s[i - 1]);
        }
        if j < p {
            assert(t[j] == s[j]);
        } else if j > p {
            assert(t[j] == s[j - 1]);
        }
        if i == p {
            assert(t[i] == x);
        }
        if j == p {
            assert(t[j] == x);
        }
    }
}

/// The stable descending sort leaves the rows non-increasing in the
/// chosen key at every adjacent pair.
pub proof fn lemma_sort_desc_sorted(s: Seq<RowModel>, k: SortKey)
    ensures
        sorted_desc(sort_desc(s, k), k),
        sort_desc(s, k).len() == s.len(),
    decreases s.len(),
{
    if s.len() > 0 {
        lemma_sort_desc_sorted(s.drop_last(), k);
        lemma_insert_desc_sorted(sort_desc(s.drop_last(), k), s.last(), k);
    }
}

proof fn lemma_rows_view_insert(s: Seq<RowData>, i: int, x: RowData)
    requires
        0 <= i <= s.len(),
    ensures
        rows_view(s.insert(i, x)) =~= rows_view(s).insert(i, x@),
{
    s.insert_ensures(i, x);
    assert forall|j: int| 0 <= j < s.len() + 1 implies rows_view(s.insert(i, x))[j] == rows_view(
        s,
    ).insert(i, x@)[j] by {
        if j < i {
            assert(s.insert(i, x)[j] == s[j]);
        } else if j == i {
            assert(s.insert(i, x)[j] == x);
        } else {
            assert(s.insert(i, x)[j] == s[j - 1]);
        }
    }
}

/// Re-orders the rows by the chosen key, descending, keeping equal keys
/// in their first-seen order.
pub fn sort_rows(rows: &mut Vec<RowData>, k: SortKey)
    ensures
        rows_view(final(rows)@) == sort_desc(rows_view(old(rows)@), k),
{
    let ghost orig: Seq<RowModel> = rows_view(rows@);
    let mut out: Vec<RowData> = Vec::new();
    let ghost mut taken: int = 0;
    proof {
        assert(orig.take(0) =~= Seq::<RowModel>::empty());
        assert(rows_view(out@) =~= Seq::<RowModel>::empty());
        assert(rows_view(rows@) =~= orig.skip(0));
    }
    while rows.len() > 0
        invariant
            orig == rows_view(old(rows)@),
            0 <= taken,
            taken + rows@.len() == orig.len(),
            rows_view(rows@) == orig.skip(taken),
            rows_view(out@) == sort_desc(orig.take(taken), k),
            sorted_desc(rows_view(out@), k),
            out@.len() == taken,
        decreases rows@.len(),
    {
        let ghost rows_pre: Seq<RowData> = rows@;
        let x: RowData = rows.remove(0);
        let ghost xv: RowModel = x@;
        proof {
            assert(rows_view(rows_pre)[0] == xv);
            assert(xv == orig[taken]);
            assert(rows_pre.remove(0) =~= rows_pre.drop_first());
            assert forall|j: int| 0 <= j < rows@.len() implies rows_view(rows@)[j] == orig.skip(
                taken + 1,
            )[j] by {
                assert(rows@[j] == rows_pre[j + 1]);
                assert(rows_view(rows_pre)[j + 1] == rows_pre[j + 1]@);
                assert(rows_view(rows_pre)[j + 1] == orig.skip(taken)[j + 1]);
            }
            assert(rows_view(rows@) =~= orig.skip(taken + 1));
        }
        // find the first position in `out` whose key is strictly below
        let xk: u64 = row_key(&x, k);
        let n: usize = out.len();
        let mut p: usize = 0;
        while p < n && row_key(&out[p], k) >= xk
            invariant
                n == out@.len(),
                p <= n,
                xk == key_of(xv, k),
                forall|j: int| 0 <= j < n ==> rows_view(out@)[j] == out@[j]@,
                forall|j: int| 0 <= j < p ==> key_of(rows_view(out@)[j], k) >= key_of(xv, k),
            decreases n - p,
        {
            p = p + 1;
        }
        proof {
            lemma_first_below_props(rows_view(out@), xv, k);
            assert(first_below(rows_view(out@), xv, k) == p as int) by {
                let fb = first_below(rows_view(out@), xv, k);
                lemma_first_below_props(rows_view(out@), xv, k);
                if fb < p {
                    assert(key_of(rows_view(out@)[fb], k) >= key_of(xv, k));
                }
                if fb > p {
                    assert(key_of(rows_view(out@)[p as int], k) >= key_of(xv, k));
                }
            }
            lemma_insert_desc_split(rows_view(out@), xv, k);
            lemma_insert_desc_sorted(rows_view(out@), xv, k);
            lemma_rows_view_insert(out@, p as int, x);
        }
        let ghost out_before: Seq<RowModel> = rows_view(out@);
        out.insert(p, x);
        proof {
            taken = taken + 1;
            assert(rows_view(out@) =~= insert_desc(out_before, xv, k));
            assert(orig.take(taken).drop_last() =~= orig.take(taken - 1));
            assert(orig.take(taken).last() == orig[taken - 1]);
        }
    }
    proof {
        assert(orig.take(orig.len() as int) =~= orig);
        assert(rows@.len() == 0);
    }
    *rows = out;
}

/// The display name of a sampled interface: the friendly name when one
/// is present and non-empty, otherwise the system name.
pub open spec fn display_name_of(name: Seq<char>, friendly: Option<Seq<char>>) -> Seq<char> {
    match friendly {
        Some(f) => if f.len() > 0 {
            f
        } else {
            name
        },
        None => name,
    }
}

/// Resolves the display name of a row.
pub fn platform_if_name<'a>(row: &'a RowData) -> (r: &'a str)
    ensures
        r@ == display_name_of(row@.name, row@.friendly_name),
{
    match &row.friendly_name {
        Some(f) => {
            if f.as_str().is_empty() {
                row.name.as_str()
            } else {
                f.as_str()
            }
        },
        None => row.name.as_str(),
    }
}

/// The longest display name over a list of samples, in characters.
pub open spec fn max_display_len(s: Seq<SampleModel>) -> nat
    decreases s.len(),
{
    if s.len() == 0 {
        0
    } else {
        let rest = max_display_len(s.drop_last());
        let h = display_name_of(s.last().name, s.last().friendly_name).len();
        if h > rest {
            h
        } else {
            rest
        }
    }
}

/// The width of the name column: the longest display name over the
/// sampled interfaces, floored at five, saturated to `u16::MAX`.
pub fn get_max_if_name_len(ifs: &Vec<IfaceSample>) -> (r: u16)
    ensures
        r as nat == {
            let m = max_display_len(samples_view(ifs@));
            let c: nat = if m > u16::MAX as nat {
                u16::MAX as nat
            } else {
                m
            };
            if c < 5 {
                5
            } else {
                c
            }
        },
{
    let n: usize = ifs.len();
    let mut i: usize = 0;
    let mut best: usize = 0;
    proof {
        assert(samples_view(ifs@).take(0) =~= Seq::<SampleModel>::empty());
    }
    while i < n
        invariant
            n == ifs@.len(),
            i <= n,
            forall|j: int| 0 <= j < n ==> samples_view(ifs@)[j] == ifs@[j]@,
            best as nat == max_display_len(samples_view(ifs@).take(i as int)),
        decreases n - i,
    {
        let s: &IfaceSample = &ifs[i];
        let l: usize = match &s.friendly_name {
            Some(f) => {
                if f.as_str().is_empty() {
                    s.name.as_str().unicode_len()
                } else {
                    f.as_str().unicode_len()
                }
            },
            None => s.name.as_str().unicode_len(),
        };
        if l > best {
            best = l;
        }
        i = i + 1;
        proof {
            assert(samples_view(ifs@).take(i as int).drop_last() =~= samples_view(ifs@).take(
                i as int - 1,
            ));
        }
    }
    proof {
        assert(samples_view(ifs@).take(n as int) =~= samples_view(ifs@));
    }
    let capped: u16 = if best > u16::MAX as usize {
        u16::MAX
    } else {
        best as u16
    };
    if capped < 5 {
        5
    } else {
        capped
    }
}

} // verus!
