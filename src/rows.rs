use vstd::prelude::*;

verus! {

/// The separator between the values of a rendered row.
pub open spec fn separator() -> Seq<char> {
    seq![',']
}

/// The parts joined by single commas, in order.
pub open spec fn join_spec(parts: Seq<Seq<char>>) -> Seq<char>
    decreases parts.len(),
{
    if parts.len() == 0 {
        Seq::empty()
    } else if parts.len() == 1 {
        parts[0]
    } else {
        join_spec(parts.drop_last()) + separator() + parts.last()
    }
}

/// The text cut at every comma, in order; text without a comma is one part.
pub open spec fn split_spec(s: Seq<char>) -> Seq<Seq<char>>
    decreases s.len(),
{
    if s.len() == 0 {
        seq![Seq::empty()]
    } else if s.last() == ',' {
        split_spec(s.drop_last()).push(Seq::empty())
    } else {
        let p = split_spec(s.drop_last());
        p.update(p.len() - 1, p.last().push(s.last()))
    }
}

/// Whether the text holds no comma.
pub open spec fn comma_free(s: Seq<char>) -> bool {
    forall|i: int| 0 <= i < s.len() ==> s[i] != ','
}

proof fn lemma_split_len(s: Seq<char>)
    ensures
        split_spec(s).len() >= 1,
    decreases s.len(),
{
    if s.len() > 0 {
        lemma_split_len(s.drop_last());
    }
}

proof fn lemma_split_append_plain(a: Seq<char>, b: Seq<char>)
    requires
        comma_free(b),
    ensures
        split_spec(a + b) == split_spec(a).update(
            split_spec(a).len() - 1,
            split_spec(a).last() + b,
        ),
    decreases b.len(),
{
    lemma_split_len(a);
    let p = split_spec(a);
    if b.len() == 0 {
        assert(a + b =~= a);
        assert(p.last() + b =~= p.last());
        assert(p.update(p.len() - 1, p.last()) =~= p);
    } else {
        let b0 = b.drop_last();
        assert((a + b).drop_last() =~= a + b0);
        assert((a + b).last() == b.last());
        assert(b.last() == b[b.len() - 1]);
        lemma_split_append_plain(a, b0);
        assert((p.last() + b0).push(b.last()) =~= p.last() + b);
        assert(split_spec(a + b) =~= p.update(p.len() - 1, p.last() + b));
    }
}

/// Cutting the comma-joined text of comma-free parts gives back the parts.
pub proof fn lemma_split_join(parts: Seq<Seq<char>>)
    requires
        parts.len() >= 1,
        forall|i: int| 0 <= i < parts.len() ==> comma_free(#[trigger] parts[i]),
    ensures
        split_spec(join_spec(parts)) == parts,
    decreases parts.len(),
{
    if parts.len() == 1 {
        lemma_split_append_plain(Seq::empty(), parts[0]);
        assert(Seq::<char>::empty() + parts[0] =~= parts[0]);
        assert(split_spec(Seq::<char>::empty()) == seq![Seq::<char>::empty()]);
        assert(split_spec(parts[0]) =~= parts);
    } else {
        let init = parts.drop_last();
        lemma_split_join(init);
        let a = join_spec(init) + separator();
        assert(a.drop_last() =~= join_spec(init));
        assert(split_spec(a) == init.push(Seq::empty()));
        assert(comma_free(parts.last()));
        lemma_split_append_plain(a, parts.last());
        assert(Seq::<char>::empty() + parts.last() =~= parts.last());
        assert(split_spec(join_spec(parts)) =~= parts);
    }
}

/// A rendered row read back: cutting the text of a row whose fields hold
/// no comma at every comma gives back the rendered timestamp followed by
/// each value, in order.
pub proof fn lemma_row_round_trip(row: StoredRow)
    requires
        comma_free(row.when@),
        forall|i: int| 0 <= i < row.values@.len() ==> comma_free(#[trigger] row.values@[i]@),
    ensures
        split_spec(row.text()) == row.fields(),
        row.fields()[0] == row.when@,
        row.fields().len() == row.values@.len() + 1,
        forall|i: int| 0 <= i < row.values@.len() ==> row.fields()[i + 1] == #[trigger] row.values@[i]@,
{
    let f = row.fields();
    assert forall|i: int| 0 <= i < f.len() implies comma_free(#[trigger] f[i]) by {
        if i > 0 {
            assert(f[i] == row.values@[i - 1]@);
        }
    }
    lemma_split_join(f);
}

/// One row as read back from the store: its timestamp in epoch seconds,
/// that timestamp rendered as a date and time, and the numeric values that
/// follow it, each already rendered as text.
pub struct StoredRow {
    pub epoch: i64,
    pub when: String,
    pub values: Vec<String>,
}

impl StoredRow {
    /// The fields of the row in output order: the rendered timestamp first.
    pub open spec fn fields(self) -> Seq<Seq<char>> {
        seq![self.when@] + self.values@.map_values(|v: String| v@)
    }

    /// The comma-joined text of the row.
    pub open spec fn text(self) -> Seq<char> {
        join_spec(self.fields())
    }
}

/// Whether the rows are in ascending order of their timestamps.
pub open spec fn ascending(rows: Seq<StoredRow>) -> bool {
    forall|i: int, j: int| 0 <= i <= j < rows.len() ==> rows[i].epoch <= rows[j].epoch
}

/// Renders one row: the rendered timestamp, then each value, separated by
/// commas.
pub fn render_row(row: &StoredRow) -> (r: String)
    ensures
        r@ == row.text(),
{
    let ghost parts = row.fields();
    let mut out = row.when.clone();
    let mut i: usize = 0;
    proof {
        reveal_strlit(",");
        assert(parts.subrange(0, 1) =~= seq![row.when@]);
    }
    while i < row.values.len()
        invariant
            i <= row.values@.len(),
            parts == row.fields(),
            parts.len() == row.values@.len() + 1,
            out@ == join_spec(parts.subrange(0, i + 1)),
        decreases row.values@.len() - i,
    {
        out.append(",");
        out.append(row.values[i].as_str());
        proof {
            let sub = parts.subrange(0, i + 2);
            assert(sub.drop_last() =~= parts.subrange(0, i + 1));
            assert(sub.last() == row.values@[i as int]@);
            reveal_strlit(",");
            assert(","@ =~= separator());
        }
        i = i + 1;
    }
    proof {
        assert(parts.subrange(0, i + 1) =~= parts);
    }
    out
}

/// Puts the rows in ascending order of their timestamps.
pub fn order_rows(rows: Vec<StoredRow>) -> (r: Vec<StoredRow>)
    ensures
        ascending(r@),
        r@.to_multiset() == rows@.to_multiset(),
{
    broadcast use vstd::seq_lib::group_to_multiset_ensures;
    let mut rest = rows;
    let mut out: Vec<StoredRow> = Vec::new();
    while rest.len() > 0
        invariant
            ascending(out@),
            out@.to_multiset().add(rest@.to_multiset()) == rows@.to_multiset(),
        decreases rest@.len(),
    {
        let ghost before = rest@;
        let row = rest.pop().unwrap();
        proof {
            assert(before =~= rest@.push(row));
        }
        let mut pos: usize = 0;
        while pos < out.len() && out[pos].epoch <= row.epoch
            invariant
                pos <= out@.len(),
                forall|k: int| 0 <= k < pos ==> out@[k].epoch <= row.epoch,
            decreases out@.len() - pos,
        {
            pos = pos + 1;
        }
        let ghost prev = out@;
        out.insert(pos, row);
        proof {
            assert(out@ == prev.insert(pos as int, row));
            vstd::seq_lib::to_multiset_insert(prev, pos as int, row);
            vstd::seq_lib::to_multiset_build(rest@, row);
            assert(out@.to_multiset().add(rest@.to_multiset()) =~= prev.to_multiset().add(
                before.to_multiset(),
            ));
            assert(ascending(out@)) by {
                assert forall|i: int, j: int| 0 <= i <= j < out@.len() implies out@[i].epoch
                    <= out@[j].epoch by {
                    if pos < prev.len() {
                        assert(prev[pos as int].epoch > row.epoch);
                    }
                }
            }
        }
    }
    out
}

/// Orders the rows by timestamp and renders each one.
pub fn render_rows(rows: Vec<StoredRow>) -> (r: Vec<String>)
    ensures
        exists|ordered: Seq<StoredRow>|
            {
                &&& ascending(ordered)
                &&& ordered.to_multiset() == rows@.to_multiset()
                &&& r@.len() == ordered.len()
                &&& forall|i: int| 0 <= i < r@.len() ==> #[trigger] r@[i]@ == ordered[i].text()
            },
{
    let ordered = order_rows(rows);
    let mut out: Vec<String> = Vec::new();
    let mut i: usize = 0;
    while i < ordered.len()
        invariant
            i <= ordered@.len(),
            out@.len() == i,
            forall|k: int| 0 <= k < i ==> #[trigger] out@[k]@ == ordered@[k].text(),
        decreases ordered@.len() - i,
    {
        let line = render_row(&ordered[i]);
        out.push(line);
        i = i + 1;
    }
    proof {
        assert(ascending(ordered@));
    }
    out
}

} // verus!
