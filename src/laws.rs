//! Properties that relate several operations of the editor.

use crate::editor::{initial_lines, EditorModel, KeyInput};
use crate::text::{joined, scan, strip_cr};
use vstd::prelude::*;

verus! {

/// Clamping the cursor a second time changes nothing, and a clamped cursor
/// lies within the buffer.
pub proof fn lemma_clamp_idempotent(m: EditorModel)
    requires
        m.lines.len() > 0,
        m.row >= 0,
        m.col >= 0,
    ensures
        m.clamped().clamped() == m.clamped(),
        m.clamped().wf(),
{
}

/// Every key, in every mode, takes a session whose cursor lies within a
/// non-empty buffer to another such session.
pub proof fn lemma_key_step_keeps_invariant(m: EditorModel, k: KeyInput)
    requires
        m.wf(),
    ensures
        m.key_step(k).0.wf(),
{
}

/// Inserting a character and then deleting the character before the cursor
/// gives back the buffer and the cursor.
pub proof fn lemma_insert_delete_inverse(m: EditorModel, c: char)
    requires
        m.wf(),
    ensures
        m.with_char(c).without_char_before() == m,
{
    let line = m.line();
    assert(line.insert(m.col, c).remove(m.col) =~= line);
    assert(m.lines.update(m.row, line.insert(m.col, c)).update(m.row, line) =~= m.lines);
}

proof fn lemma_scan_plain_suffix(a: Seq<char>, b: Seq<char>)
    requires
        forall|i: int| 0 <= i < b.len() ==> b[i] != '\n',
    ensures
        scan(a + b) == (scan(a).0, scan(a).1 + b),
    decreases b.len(),
{
    if b.len() == 0 {
        assert(a + b =~= a);
        assert(scan(a).1 + b =~= scan(a).1);
    } else {
        lemma_scan_plain_suffix(a, b.drop_last());
        assert((a + b).drop_last() =~= a + b.drop_last());
        assert((scan(a).1 + b.drop_last()).push(b.last()) =~= scan(a).1 + b);
    }
}

proof fn lemma_scan_newline(a: Seq<char>)
    ensures
        scan(a.push('\n')) == (scan(a).0.push(strip_cr(scan(a).1)), Seq::<char>::empty()),
{
    assert(a.push('\n').drop_last() =~= a);
}

/// Lines that a save and a load give back unchanged: none holds a newline,
/// none but the last ends in a carriage return, and the last is not empty
/// unless it is the only one.
pub open spec fn survives_save(ls: Seq<Seq<char>>) -> bool {
    &&& ls.len() > 0
    &&& forall|i: int, j: int| 0 <= i < ls.len() && 0 <= j < ls[i].len() ==> ls[i][j] != '\n'
    &&& forall|i: int| 0 <= i < ls.len() - 1 ==> ls[i].len() == 0 || ls[i].last() != '\r'
    &&& ls.len() == 1 || ls.last().len() > 0
}

proof fn lemma_scan_joined(ls: Seq<Seq<char>>, k: int)
    requires
        survives_save(ls),
        1 <= k <= ls.len(),
    ensures
        scan(joined(ls.take(k))) == (ls.take(k - 1), ls[k - 1]),
    decreases k,
{
    let line = ls[k - 1];
    assert(forall|j: int| 0 <= j < line.len() ==> line[j] != '\n');
    if k == 1 {
        assert(ls.take(1).len() == 1);
        assert(joined(ls.take(1)) == ls.take(1)[0]);
        lemma_scan_plain_suffix(Seq::<char>::empty(), line);
        assert(Seq::<char>::empty() + line =~= line);
        assert(ls.take(0) =~= Seq::<Seq<char>>::empty());
    } else {
        lemma_scan_joined(ls, k - 1);
        let p = joined(ls.take(k - 1));
        assert(ls.take(k).drop_last() =~= ls.take(k - 1));
        assert(joined(ls.take(k)) == p + seq!['\n'] + line);
        lemma_scan_newline(p);
        assert(strip_cr(ls[k - 2]) == ls[k - 2]);
        assert(ls.take(k - 2).push(ls[k - 2]) =~= ls.take(k - 1));
        lemma_scan_plain_suffix(p.push('\n'), line);
        assert(p + seq!['\n'] + line =~= p.push('\n') + line);
        assert(Seq::<char>::empty() + line =~= line);
    }
}

/// Loading the text that saving a buffer writes gives back the buffer's
/// lines, for lines without the newline edge cases of `survives_save`.
pub proof fn lemma_save_load_round_trip(ls: Seq<Seq<char>>)
    requires
        survives_save(ls),
    ensures
        initial_lines(Some(joined(ls))) == ls,
{
    lemma_scan_joined(ls, ls.len() as int);
    assert(ls.take(ls.len() as int) =~= ls);
    assert(ls.take(ls.len() - 1).push(ls.last()) =~= ls);
    if ls.len() == 1 && ls[0].len() == 0 {
        assert(ls =~= seq![seq![]]);
    }
}

} // verus!
