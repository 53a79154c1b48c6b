//! Dedup-merge of drained workload output.
//!
//! Captured stdout/stderr lines arrive in batches, and a batch may repeat
//! lines that an earlier drain already delivered.  The merge below folds a
//! batch into the engine's buffer as an ordered log keyed by
//! (stamp, text): a line whose key is present is skipped, any other is
//! inserted in stamp order.  Merging the same batch twice therefore leaves
//! the buffer unchanged.

use vstd::prelude::*;

use crate::state::{buf_has, line_key, lines_wf, EngineState, LogLine};

verus! {

/// Index at which a line with stamp `l.at` is inserted: after every line
/// whose stamp is not greater.
pub open spec fn insert_pos(buf: Seq<LogLine>, l: LogLine) -> int
    decreases buf.len(),
{
    if buf.len() == 0 {
        0
    } else if buf[0].at <= l.at {
        1 + insert_pos(buf.drop_first(), l)
    } else {
        0
    }
}

/// The buffer with `l` inserted at its stamp-ordered position.
pub open spec fn insert_sorted(buf: Seq<LogLine>, l: LogLine) -> Seq<LogLine> {
    buf.take(insert_pos(buf, l)) + seq![l] + buf.skip(insert_pos(buf, l))
}

/// The buffer after merging `drained` into `buf` left to right: a line whose
/// key is already present is skipped, any other is inserted in stamp order.
pub open spec fn merged(buf: Seq<LogLine>, drained: Seq<LogLine>) -> Seq<LogLine>
    decreases drained.len(),
{
    if drained.len() == 0 {
        buf
    } else if buf_has(buf, drained[0]) {
        merged(buf, drained.drop_first())
    } else {
        merged(insert_sorted(buf, drained[0]), drained.drop_first())
    }
}

/// The insertion position splits the buffer at the first stamp above `l.at`.
proof fn lemma_insert_pos(buf: Seq<LogLine>, l: LogLine)
    ensures
        0 <= insert_pos(buf, l) <= buf.len(),
        forall|i: int| 0 <= i < insert_pos(buf, l) ==> buf[i].at <= l.at,
        insert_pos(buf, l) < buf.len() ==> buf[insert_pos(buf, l)].at > l.at,
    decreases buf.len(),
{
    if buf.len() > 0 && buf[0].at <= l.at {
        lemma_insert_pos(buf.drop_first(), l);
        assert forall|i: int| 0 <= i < insert_pos(buf, l) implies buf[i].at <= l.at by {
            if i > 0 {
                assert(buf.drop_first()[i - 1] == buf[i]);
            }
        }
    }
}

/// Inserting grows the buffer by one and keeps exactly the old lines plus `l`.
proof fn lemma_insert_sorted_frame(buf: Seq<LogLine>, l: LogLine)
    ensures
        insert_sorted(buf, l).len() == buf.len() + 1,
        forall|x: LogLine|
            buf_has(insert_sorted(buf, l), x) <==> buf_has(buf, x) || line_key(x)
                == line_key(l),
{
    lemma_insert_pos(buf, l);
    let p = insert_pos(buf, l);
    let out = insert_sorted(buf, l);
    assert forall|x: LogLine| buf_has(out, x) implies buf_has(buf, x) || line_key(x)
        == line_key(l) by {
        let i = choose|i: int| 0 <= i < out.len() && line_key(out[i]) == line_key(x);
        if i < p {
            assert(line_key(buf[i]) == line_key(x));
        } else if i > p {
            assert(out[i] == buf[i - 1]);
            assert(line_key(buf[i - 1]) == line_key(x));
        }
    }
    assert forall|x: LogLine| buf_has(buf, x) || line_key(x) == line_key(l) implies buf_has(
        out,
        x,
    ) by {
        if buf_has(buf, x) {
            let i = choose|i: int| 0 <= i < buf.len() && line_key(buf[i]) == line_key(x);
            if i < p {
                assert(out[i] == buf[i]);
            } else {
                assert(out[i + 1] == buf[i]);
            }
        } else {
            assert(out[p] == l);
        }
    }
}

/// Inserting a line whose key is absent keeps the buffer well formed.
proof fn lemma_insert_sorted_wf(buf: Seq<LogLine>, l: LogLine)
    requires
        lines_wf(buf),
        !buf_has(buf, l),
    ensures
        lines_wf(insert_sorted(buf, l)),
{
    lemma_insert_pos(buf, l);
    let p = insert_pos(buf, l);
    let out = insert_sorted(buf, l);
    assert forall|i: int, j: int| 0 <= i < j < out.len() implies out[i].at <= out[j].at by {
        if i < p {
            assert(out[i] == buf[i]);
        } else if i > p {
            assert(out[i] == buf[i - 1]);
        }
        if j < p {
            assert(out[j] == buf[j]);
        } else if j > p {
            assert(out[j] == buf[j - 1]);
        }
    }
    assert forall|i: int, j: int| 0 <= i < j < out.len() implies line_key(out[i]) != line_key(
        out[j],
    ) by {
        if i < p {
            assert(out[i] == buf[i]);
        } else if i > p {
            assert(out[i] == buf[i - 1]);
        }
        if j < p {
            assert(out[j] == buf[j]);
        } else if j > p {
            assert(out[j] == buf[j - 1]);
        }
        if i == p {
            assert(j > p);
            assert(!(line_key(buf[j - 1]) == line_key(l)));
        }
        if j == p {
            assert(i < p);
            assert(!(line_key(buf[i]) == line_key(l)));
        }
    }
}

/// Merging keeps the buffer well formed.
proof fn lemma_merged_wf(buf: Seq<LogLine>, drained: Seq<LogLine>)
    requires
        lines_wf(buf),
    ensures
        lines_wf(merged(buf, drained)),
    decreases drained.len(),
{
    if drained.len() > 0 {
        if buf_has(buf, drained[0]) {
            lemma_merged_wf(buf, drained.drop_first());
        } else {
            lemma_insert_sorted_wf(buf, drained[0]);
            lemma_merged_wf(insert_sorted(buf, drained[0]), drained.drop_first());
        }
    }
}

/// A key is in the merge exactly when it is in the buffer or in the batch.
proof fn lemma_merged_has(buf: Seq<LogLine>, drained: Seq<LogLine>)
    ensures
        forall|x: LogLine|
            buf_has(merged(buf, drained), x) <==> buf_has(buf, x) || buf_has(drained, x),
    decreases drained.len(),
{
    if drained.len() == 0 {
        assert forall|x: LogLine| !buf_has(drained, x) by {}
    } else {
        let head = drained[0];
        let rest = drained.drop_first();
        assert forall|x: LogLine|
            buf_has(drained, x) <==> (line_key(x) == line_key(head) || buf_has(rest, x)) by {
            if buf_has(drained, x) {
                let i = choose|i: int|
                    0 <= i < drained.len() && line_key(drained[i]) == line_key(x);
                if i > 0 {
                    assert(rest[i - 1] == drained[i]);
                }
            }
            if buf_has(rest, x) {
                let i = choose|i: int| 0 <= i < rest.len() && line_key(rest[i]) == line_key(x);
                assert(drained[i + 1] == rest[i]);
            }
        }
        if buf_has(buf, head) {
            lemma_merged_has(buf, rest);
        } else {
            lemma_insert_sorted_frame(buf, head);
            lemma_merged_has(insert_sorted(buf, head), rest);
        }
    }
}

/// A batch of lines whose keys are all present already changes nothing.
proof fn lemma_merged_noop(buf: Seq<LogLine>, drained: Seq<LogLine>)
    requires
        forall|i: int| 0 <= i < drained.len() ==> buf_has(buf, #[trigger] drained[i]),
    ensures
        merged(buf, drained) == buf,
    decreases drained.len(),
{
    if drained.len() > 0 {
        assert(buf_has(buf, drained[0]));
        assert forall|i: int| 0 <= i < drained.drop_first().len() implies buf_has(
            buf,
            #[trigger] drained.drop_first()[i],
        ) by {
            assert(drained.drop_first()[i] == drained[i + 1]);
        }
        lemma_merged_noop(buf, drained.drop_first());
    }
}

/// Draining is idempotent: merging the same batch a second time, with no new
/// output in between, leaves the merged buffer exactly as it was.
pub proof fn lemma_merge_idempotent(buf: Seq<LogLine>, drained: Seq<LogLine>)
    ensures
        merged(merged(buf, drained), drained) == merged(buf, drained),
{
    lemma_merged_has(buf, drained);
    assert forall|i: int| 0 <= i < drained.len() implies buf_has(
        merged(buf, drained),
        #[trigger] drained[i],
    ) by {
        assert(line_key(drained[i]) == line_key(drained[i]));
        assert(buf_has(drained, drained[i]));
    }
    lemma_merged_noop(merged(buf, drained), drained);
}

/// Folding a batch element by element agrees with folding its front part and
/// then the last line.
proof fn lemma_merged_snoc(buf: Seq<LogLine>, drained: Seq<LogLine>, l: LogLine)
    ensures
        merged(buf, drained.push(l)) == if buf_has(merged(buf, drained), l) {
            merged(buf, drained)
        } else {
            insert_sorted(merged(buf, drained), l)
        },
    decreases drained.len(),
{
    let whole = drained.push(l);
    if drained.len() == 0 {
        assert(whole[0] == l);
        assert(whole.drop_first() =~= Seq::<LogLine>::empty());
        assert(merged(buf, whole.drop_first()) == buf);
        assert(merged(insert_sorted(buf, l), whole.drop_first()) == insert_sorted(buf, l));
        assert(merged(buf, drained) == buf);
    } else {
        assert(whole[0] == drained[0]);
        assert(whole.drop_first() =~= drained.drop_first().push(l));
        if buf_has(buf, drained[0]) {
            assert(merged(buf, whole) == merged(buf, whole.drop_first()));
            assert(merged(buf, drained) == merged(buf, drained.drop_first()));
            lemma_merged_snoc(buf, drained.drop_first(), l);
        } else {
            let step = insert_sorted(buf, drained[0]);
            assert(merged(buf, whole) == merged(step, whole.drop_first()));
            assert(merged(buf, drained) == merged(step, drained.drop_first()));
            lemma_merged_snoc(step, drained.drop_first(), l);
        }
    }
}

/// Whether the buffer holds a line with the same stamp and text as `l`.
fn line_in_buf(buf: &Vec<LogLine>, l: &LogLine) -> (r: bool)
    ensures
        r == buf_has(buf@, *l),
{
    let mut k: usize = 0;
    while k < buf.len()
        invariant
            0 <= k <= buf@.len(),
            forall|i: int| 0 <= i < k ==> line_key(buf@[i]) != line_key(*l),
        decreases buf@.len() - k,
    {
        if buf[k].at == l.at && buf[k].text == l.text {
            assert(line_key(buf@[k as int]) == line_key(*l));
            return true;
        }
        k = k + 1;
    }
    false
}

/// Inserts `l` at its stamp-ordered position.
fn insert_line(buf: &mut Vec<LogLine>, l: LogLine)
    ensures
        final(buf)@ == insert_sorted(old(buf)@, l),
{
    proof {
        lemma_insert_pos(buf@, l);
    }
    let mut k: usize = 0;
    while k < buf.len() && buf[k].at <= l.at
        invariant
            0 <= k <= buf@.len(),
            buf@ == old(buf)@,
            forall|i: int| 0 <= i < k ==> buf@[i].at <= l.at,
            k < insert_pos(buf@, l) + 1,
        decreases buf@.len() - k,
    {
        proof {
            lemma_insert_pos(buf@, l);
            if k == insert_pos(buf@, l) {
                assert(buf@[k as int].at > l.at);
            }
        }
        k = k + 1;
    }
    proof {
        lemma_insert_pos(buf@, l);
        let p = insert_pos(buf@, l);
        if k < p {
            assert(buf@[k as int].at <= l.at);
        }
        assert(k == p);
    }
    buf.insert(k, l);
    proof {
        assert(buf@ =~= insert_sorted(old(buf)@, l));
    }
}

/// Folds a drained batch into the buffer, line by line, skipping any line
/// whose (stamp, text) key is already present.
pub fn merge_lines(buf: &mut Vec<LogLine>, drained: &Vec<LogLine>)
    requires
        lines_wf(old(buf)@),
    ensures
        final(buf)@ == merged(old(buf)@, drained@),
        lines_wf(final(buf)@),
{
    let ghost orig = buf@;
    let mut n: usize = 0;
    while n < drained.len()
        invariant
            0 <= n <= drained@.len(),
            buf@ == merged(orig, drained@.subrange(0, n as int)),
            lines_wf(orig),
        decreases drained@.len() - n,
    {
        proof {
            assert(drained@.subrange(0, n as int).push(drained@[n as int]) =~= drained@.subrange(
                0,
                n as int + 1,
            ));
            lemma_merged_snoc(orig, drained@.subrange(0, n as int), drained@[n as int]);
        }
        let present = line_in_buf(buf, &drained[n]);
        if !present {
            insert_line(buf, drained[n].clone());
            proof {
                assert(buf@ == insert_sorted(
                    merged(orig, drained@.subrange(0, n as int)),
                    drained@[n as int],
                ));
            }
        }
        n = n + 1;
    }
    proof {
        assert(drained@.subrange(0, drained@.len() as int) =~= drained@);
        lemma_merged_wf(orig, drained@);
    }
}

impl EngineState {
    /// Folds output captured outside a health tick — the lines an install or
    /// build subprocess printed — into the snapshot's buffers.
    pub fn absorb_output(&mut self, out_lines: &Vec<LogLine>, err_lines: &Vec<LogLine>)
        requires
            old(self).wf(),
        ensures
            final(self).wf(),
            final(self).stdout@ == merged(old(self).stdout@, out_lines@),
            final(self).stderr@ == merged(old(self).stderr@, err_lines@),
            *final(self) == (EngineState {
                stdout: final(self).stdout,
                stderr: final(self).stderr,
                ..*old(self)
            }),
    {
        merge_lines(&mut self.stdout, out_lines);
        merge_lines(&mut self.stderr, err_lines);
    }
}

} // verus!
