//! The ledger of the files that were processed: their fingerprints in memory, and
//! the text of the stored ledger that is read when a run starts and added to as the
//! run goes on.
//!
//! The stored ledger is a text of lines, one fingerprint on each. The library never
//! touches the file that holds it: the caller hands in what the file holds, and
//! stores what `take_unsaved` hands out.

use vstd::prelude::*;
use sha2::{Digest, Sha256};
use crate::text::{
    chars_of, hex, hex_digit, hex_string, same_text, string_of, sub_chars, texts,
};
use crate::traits::traits::{
    known_after, newly_stored, record, verdict, LedgerError, ProcessPolicy,
};

verus! {

/// The SHA-256 digest of `data`.
pub uninterp spec fn sha256(data: Seq<u8>) -> Seq<u8>;

/// Calls `Sha256::digest` of the crate sha2. Trusted: the result is the SHA-256
/// digest of `data`, which the contract only names, and it has 32 bytes.
#[verifier::external_body]
fn sha256_digest(data: &[u8]) -> (digest: Vec<u8>)
    ensures
        digest@ == sha256(data@),
        digest@.len() == 32,
{
    Sha256::digest(data).to_vec()
}

/// The fingerprint of a file's content: its SHA-256 digest in lower-case
/// hexadecimal. Files are told apart by it, not by their paths.
pub open spec fn fingerprint(content: Seq<u8>) -> Seq<char> {
    hex(sha256(content))
}

/// The index of the first line feed in `t`, or the length of `t` where it has none.
pub open spec fn line_end(t: Seq<char>) -> int
    decreases t.len(),
{
    if t.len() == 0 || t[0] == '\n' {
        0
    } else {
        1 + line_end(t.drop_first())
    }
}

/// A line without the carriage return at its end, if it has one.
pub open spec fn without_cr(line: Seq<char>) -> Seq<char> {
    if line.len() > 0 && line.last() == '\r' {
        line.drop_last()
    } else {
        line
    }
}

/// The lines of the text `t`. A line ends at a line feed, or at the end of the text
/// if something follows the last line feed; a carriage return before the line feed
/// is not part of the line.
pub open spec fn lines(t: Seq<char>) -> Seq<Seq<char>>
    decreases t.len(),
{
    if t.len() == 0 {
        Seq::empty()
    } else {
        let n = line_end(t);
        let line = without_cr(t.subrange(0, n));
        if 0 <= n < t.len() {
            seq![line] + lines(t.subrange(n + 1, t.len() as int))
        } else {
            seq![line]
        }
    }
}

/// The text that adds the fingerprints `fps` to the stored ledger: each on a line of
/// its own.
pub open spec fn render(fps: Seq<Seq<char>>) -> Seq<char>
    decreases fps.len(),
{
    if fps.len() == 0 {
        Seq::empty()
    } else {
        fps[0] + seq!['\n'] + render(fps.drop_first())
    }
}

/// The fingerprints `known` with those of `fps` recorded one after the other.
pub open spec fn record_all(known: Seq<Seq<char>>, fps: Seq<Seq<char>>) -> Seq<Seq<char>>
    decreases fps.len(),
{
    if fps.len() == 0 {
        known
    } else {
        record(record_all(known, fps.drop_last()), fps.last())
    }
}

/// What a ledger knows that was opened on the stored text `stored`: each of its
/// lines, once.
pub open spec fn opened(stored: Seq<char>) -> Seq<Seq<char>> {
    record_all(Seq::empty(), lines(stored))
}

/// Where the first line of `t` ends.
pub proof fn lemma_line_end(t: Seq<char>)
    ensures
        0 <= line_end(t) <= t.len(),
        line_end(t) < t.len() ==> t[line_end(t)] == '\n',
        forall|j: int| 0 <= j < line_end(t) ==> t[j] != '\n',
    decreases t.len(),
{
    if t.len() > 0 && t[0] != '\n' {
        let rest = t.drop_first();
        lemma_line_end(rest);
        assert forall|j: int| 0 <= j < line_end(t) implies t[j] != '\n' by {
            if j > 0 {
                assert(rest[j - 1] != '\n');
            }
        }
    }
}

/// The lines of the text `text`, as `lines` defines them.
pub fn parse_lines(text: &str) -> (r: Vec<String>)
    ensures
        texts(r@) == lines(text@),
{
    let v = chars_of(text);
    let n = v.len();
    let mut out: Vec<String> = Vec::new();
    let mut pos: usize = 0;
    assert(v@.subrange(0, n as int) == v@);
    assert(texts(out@) =~= Seq::<Seq<char>>::empty());
    while pos < n
        invariant
            pos <= n,
            n == v.len(),
            lines(v@) == texts(out@) + lines(v@.subrange(pos as int, n as int)),
        decreases n - pos,
    {
        let ghost rest = v@.subrange(pos as int, n as int);
        let mut end: usize = pos;
        while end < n && v[end] != '\n'
            invariant
                pos <= end <= n,
                n == v.len(),
                rest == v@.subrange(pos as int, n as int),
                line_end(rest) == (end - pos) + line_end(v@.subrange(end as int, n as int)),
            decreases n - end,
        {
            assert(v@.subrange(end as int, n as int).drop_first() == v@.subrange(end + 1, n as int));
            end += 1;
        }
        assert(line_end(rest) == end - pos);
        assert(rest.subrange(0, end - pos) == v@.subrange(pos as int, end as int));
        let stop = if end > pos && v[end - 1] == '\r' {
            end - 1
        } else {
            end
        };
        let line = sub_chars(&v, pos, stop);
        assert(line@ == without_cr(rest.subrange(0, end - pos)));
        let ghost before = texts(out@);
        out.push(string_of(&line));
        assert(texts(out@) =~= before + seq![line@]);
        if end < n {
            assert(rest.subrange(end - pos + 1, rest.len() as int) == v@.subrange(end + 1, n as int));
            assert(before + (seq![line@] + lines(v@.subrange(end + 1, n as int))) =~= before
                + seq![line@] + lines(v@.subrange(end + 1, n as int)));
            pos = end + 1;
        } else {
            assert(before + seq![line@] =~= before + seq![line@] + lines(
                v@.subrange(n as int, n as int),
            ));
            pos = n;
        }
    }
    assert(texts(out@) + lines(v@.subrange(n as int, n as int)) =~= texts(out@));
    out
}

/// The line break that a stored text lacks: a line feed where the text ends within
/// a line, so that what is added starts a line of its own.
pub open spec fn line_break_owed(stored: Seq<char>) -> Seq<char> {
    if stored.len() > 0 && stored.last() != '\n' {
        seq!['\n']
    } else {
        Seq::empty()
    }
}

/// The ledger: the fingerprints of the files that were let through.
pub struct FileHashHelper {
    /// The fingerprints, oldest first, none twice.
    hashes: Vec<String>,
    /// The text that the stored ledger lacks.
    pending: String,
}

impl FileHashHelper {
    /// The ledger on what the stored ledger holds at the start of a run; the empty
    /// text where nothing was stored yet. It knows each line of the text. The stored
    /// ledger lacks nothing but, where the text ends within a line, a line break.
    pub fn new(stored: &str) -> (r: FileHashHelper)
        ensures
            r.wf(),
            r.known() == opened(stored@),
            r.known().no_duplicates(),
            r.unsaved() == line_break_owed(stored@),
            !r.bypasses(),
    {
        let found = parse_lines(stored);
        let mut hashes: Vec<String> = Vec::new();
        let mut i: usize = 0;
        assert(texts(hashes@) =~= Seq::<Seq<char>>::empty());
        assert(texts(found@).take(0) =~= Seq::<Seq<char>>::empty());
        while i < found.len()
            invariant
                i <= found.len(),
                texts(hashes@) == record_all(Seq::empty(), texts(found@).take(i as int)),
                texts(hashes@).no_duplicates(),
            decreases found.len() - i,
        {
            let ghost before = texts(hashes@);
            assert(texts(found@).take(i + 1).drop_last() == texts(found@).take(i as int));
            if !contains_text(&hashes, found[i].as_str()) {
                hashes.push(found[i].clone());
                assert(texts(hashes@) =~= before.push(found@[i as int]@));
            }
            i += 1;
        }
        assert(texts(found@).take(found.len() as int) == texts(found@));
        let v = chars_of(stored);
        let pending = if v.len() > 0 && v[v.len() - 1] != '\n' {
            proof {
                reveal_strlit("\n");
                assert("\n"@ =~= seq!['\n']);
            }
            String::from_str("\n")
        } else {
            String::new()
        };
        FileHashHelper { hashes, pending }
    }

    /// The fingerprint of a file with this content.
    pub fn hash_file(&self, content: &[u8]) -> (r: String)
        ensures
            r@ == fingerprint(content@),
            r@.len() == 64,
    {
        let digest = sha256_digest(content);
        hex_string(&digest)
    }

    /// Whether the ledger knows the fingerprint `hash`.
    pub fn has_hash(&self, hash: &str) -> (r: bool)
        ensures
            r == self.known().contains(hash@),
    {
        contains_text(&self.hashes, hash)
    }

    /// Records the fingerprint `hash`, unless the ledger knows it. What is recorded
    /// is added, on a line of its own, to the text that the stored ledger lacks.
    pub fn store_hash(&mut self, hash: &str)
        requires
            old(self).wf(),
        ensures
            final(self).wf(),
            final(self).known() == record(old(self).known(), hash@),
            final(self).unsaved() == if old(self).known().contains(hash@) {
                old(self).unsaved()
            } else {
                old(self).unsaved() + hash@ + seq!['\n']
            },
    {
        let ghost before = texts(self.hashes@);
        if !contains_text(&self.hashes, hash) {
            self.hashes.push(String::from_str(hash));
            assert(texts(self.hashes@) =~= before.push(hash@));
            let mut pending = self.pending.clone();
            pending.append(hash);
            proof {
                reveal_strlit("\n");
                assert("\n"@ =~= seq!['\n']);
            }
            pending.append("\n");
            self.pending = pending;
        }
    }
}

/// Whether one of the strings `v` has the text of `s`.
fn contains_text(v: &Vec<String>, s: &str) -> (r: bool)
    ensures
        r == texts(v@).contains(s@),
{
    let mut i: usize = 0;
    while i < v.len()
        invariant
            i <= v.len(),
            forall|j: int| 0 <= j < i ==> texts(v@)[j] != s@,
        decreases v.len() - i,
    {
        if same_text(v[i].as_str(), s) {
            assert(texts(v@)[i as int] == s@);
            return true;
        }
        i += 1;
    }
    false
}

impl ProcessPolicy for FileHashHelper {
    closed spec fn wf(&self) -> bool {
        texts(self.hashes@).no_duplicates()
    }

    open spec fn bypasses(&self) -> bool {
        false
    }

    closed spec fn known(&self) -> Seq<Seq<char>> {
        texts(self.hashes@)
    }

    closed spec fn unsaved(&self) -> Seq<char> {
        self.pending@
    }

    fn should_process(&mut self, content: &Option<Vec<u8>>) -> (r: Result<bool, LedgerError>) {
        match content {
            None => {
                assert(self.unsaved() + Seq::<char>::empty() == self.unsaved());
                Err(LedgerError::InputUnreadable)
            },
            Some(bytes) => {
                let hash = self.hash_file(bytes.as_slice());
                if self.has_hash(hash.as_str()) {
                    assert(self.unsaved() + Seq::<char>::empty() == self.unsaved());
                    Ok(false)
                } else {
                    let ghost before = self.unsaved();
                    self.store_hash(hash.as_str());
                    assert(before + hash@ + seq!['\n'] == before + (hash@ + seq!['\n']));
                    Ok(true)
                }
            },
        }
    }

    fn take_unsaved(&mut self) -> (r: String) {
        let r = self.pending.clone();
        self.pending = String::new();
        r
    }
}

/// To record a fingerprint forgets none and adds none twice.
pub proof fn lemma_record_keeps_order(known: Seq<Seq<char>>, fp: Seq<char>)
    ensures
        record(known, fp).contains(fp),
        forall|other: Seq<char>| known.contains(other) ==> record(known, fp).contains(other),
        known.no_duplicates() ==> record(known, fp).no_duplicates(),
        known =~= record(known, fp).take(known.len() as int),
{
    let after = record(known, fp);
    if !known.contains(fp) {
        assert(after[known.len() as int] == fp);
        assert forall|other: Seq<char>| known.contains(other) implies after.contains(other) by {
            let i = choose|i: int| 0 <= i < known.len() && known[i] == other;
            assert(after[i] == other);
        }
    }
}

/// A text that can stand on a line of the stored ledger and be read back as it is:
/// it holds no line feed and does not end in a carriage return.
pub open spec fn line_safe(fp: Seq<char>) -> bool {
    &&& forall|i: int| 0 <= i < fp.len() ==> fp[i] != '\n'
    &&& !(fp.len() > 0 && fp.last() == '\r')
}

/// Hexadecimal text holds digits and the letters `a` to `f` only, so it can stand on
/// a line.
pub proof fn lemma_hex_is_line_safe(bytes: Seq<u8>)
    ensures
        line_safe(hex(bytes)),
{
    let h = hex(bytes);
    assert forall|i: int| 0 <= i < h.len() implies h[i] != '\n' && h[i] != '\r' by {
        let b = bytes[i / 2] as int;
        let d = if i % 2 == 0 {
            b / 16
        } else {
            b % 16
        };
        assert(0 <= d < 16);
        assert(h[i] == hex_digit(d));
    }
}

/// The first line of a text that holds a line feed ends where it ends in any longer
/// text.
pub proof fn lemma_line_end_of_longer(a: Seq<char>, b: Seq<char>)
    requires
        line_end(a) < a.len(),
    ensures
        line_end(a + b) == line_end(a),
    decreases a.len(),
{
    if a[0] == '\n' {
        assert((a + b)[0] == '\n');
    } else {
        assert((a + b)[0] == a[0]);
        assert((a + b).drop_first() == a.drop_first() + b);
        lemma_line_end_of_longer(a.drop_first(), b);
    }
}

/// The lines of two texts, the first of which ends with its last line, are the lines
/// of the one followed by the lines of the other.
pub proof fn lemma_lines_of_two(a: Seq<char>, b: Seq<char>)
    requires
        a.len() == 0 || a.last() == '\n',
    ensures
        lines(a + b) == lines(a) + lines(b),
    decreases a.len(),
{
    if a.len() == 0 {
        assert(a + b == b);
        assert(lines(a) + lines(b) == lines(b));
    } else {
        let n = line_end(a);
        lemma_line_end(a);
        if n == a.len() {
            assert(a[a.len() - 1] != '\n');
        }
        lemma_line_end_of_longer(a, b);
        let rest = a.subrange(n + 1, a.len() as int);
        assert((a + b).subrange(0, n) == a.subrange(0, n));
        assert((a + b).subrange(n + 1, (a + b).len() as int) == rest + b);
        if rest.len() > 0 {
            assert(rest.last() == a.last());
        }
        lemma_lines_of_two(rest, b);
        let line = without_cr(a.subrange(0, n));
        assert(seq![line] + (lines(rest) + lines(b)) == seq![line] + lines(rest) + lines(b));
    }
}

/// What was written for fingerprints that can stand on a line is read back as those
/// fingerprints.
pub proof fn lemma_lines_of_render(fps: Seq<Seq<char>>)
    requires
        forall|i: int| 0 <= i < fps.len() ==> line_safe(#[trigger] fps[i]),
    ensures
        lines(render(fps)) == fps,
    decreases fps.len(),
{
    if fps.len() > 0 {
        let fp = fps[0];
        let a = fp + seq!['\n'];
        let rest = fps.drop_first();
        assert forall|i: int| 0 <= i < rest.len() implies line_safe(#[trigger] rest[i]) by {
            assert(rest[i] == fps[i + 1]);
        }
        lemma_lines_of_render(rest);
        lemma_lines_of_two(a, render(rest));
        assert(line_safe(fp));
        lemma_line_end(a);
        assert(line_end(a) == fp.len()) by {
            if line_end(a) < fp.len() {
                assert(a[line_end(a)] == fp[line_end(a)]);
            }
            if line_end(a) > fp.len() {
                assert(a[fp.len() as int] == '\n');
            }
        }
        assert(a.subrange(0, fp.len() as int) == fp);
        assert(a.subrange(fp.len() as int + 1, a.len() as int) == Seq::<char>::empty());
        assert(without_cr(fp) == fp);
        assert(lines(Seq::<char>::empty()) == Seq::<Seq<char>>::empty());
        assert(seq![fp] + Seq::<Seq<char>>::empty() == seq![fp]);
        assert(lines(a) == seq![fp]);
        assert(seq![fp] + rest == fps);
    }
}

/// To record two runs of fingerprints is to record the first and then the second.
pub proof fn lemma_record_all_of_two(known: Seq<Seq<char>>, first: Seq<Seq<char>>, second: Seq<Seq<char>>)
    ensures
        record_all(known, first + second) == record_all(record_all(known, first), second),
    decreases second.len(),
{
    if second.len() == 0 {
        assert(first + second == first);
    } else {
        lemma_record_all_of_two(known, first, second.drop_last());
        assert((first + second).drop_last() == first + second.drop_last());
    }
}

/// A line feed behind a text that ends within a line adds no line.
pub proof fn lemma_lines_of_closed(text: Seq<char>)
    requires
        text.len() > 0,
        text.last() != '\n',
    ensures
        lines(text + seq!['\n']) == lines(text),
    decreases text.len(),
{
    let closed = text + seq!['\n'];
    let n = line_end(text);
    lemma_line_end(text);
    if n == text.len() {
        lemma_line_end(closed);
        assert(line_end(closed) == n) by {
            if line_end(closed) < n {
                assert(closed[line_end(closed)] == text[line_end(closed)]);
            }
            if line_end(closed) > n {
                assert(closed[n] == '\n');
            }
        }
        assert(closed.subrange(0, n) == text.subrange(0, n));
        assert(closed.subrange(n + 1, closed.len() as int) == Seq::<char>::empty());
        assert(lines(Seq::<char>::empty()) == Seq::<Seq<char>>::empty());
        assert(seq![without_cr(text.subrange(0, n))] + Seq::<Seq<char>>::empty() == seq![
            without_cr(text.subrange(0, n)),
        ]);
    } else {
        lemma_line_end_of_longer(text, seq!['\n']);
        let rest = text.subrange(n + 1, text.len() as int);
        assert(n < text.len() - 1);
        assert(rest.last() == text.last());
        lemma_lines_of_closed(rest);
        assert(closed.subrange(0, n) == text.subrange(0, n));
        assert(closed.subrange(n + 1, closed.len() as int) == rest + seq!['\n']);
    }
}

/// A ledger opened on a stored text to which the line break that it lacked and the
/// lines of some fingerprints were added knows what a ledger opened on the text
/// before knows once it has recorded those fingerprints.
pub proof fn lemma_reopened(stored: Seq<char>, fps: Seq<Seq<char>>)
    requires
        forall|i: int| 0 <= i < fps.len() ==> line_safe(#[trigger] fps[i]),
    ensures
        opened(stored + line_break_owed(stored) + render(fps)) == record_all(opened(stored), fps),
{
    let closed = stored + line_break_owed(stored);
    if stored.len() > 0 && stored.last() != '\n' {
        lemma_lines_of_closed(stored);
    } else {
        assert(closed == stored);
    }
    lemma_lines_of_two(closed, render(fps));
    lemma_lines_of_render(fps);
    lemma_record_all_of_two(Seq::empty(), lines(stored), fps);
}

/// An input that was let through once is not let through again: neither by the
/// same ledger, nor by a ledger opened later on the stored text, to which the first
/// ledger's unsaved text was added.
pub proof fn lemma_processed_once(stored: Seq<char>, content: Seq<u8>)
    ensures
        ({
            let known = opened(stored);
            let after = known_after(false, known, Some(content));
            let unsaved = line_break_owed(stored) + newly_stored(false, known, Some(content));
            let later = opened(stored + unsaved);
            &&& verdict(false, after, Some(content)) == Ok::<bool, LedgerError>(false)
            &&& later == after
            &&& verdict(false, later, Some(content)) == Ok::<bool, LedgerError>(false)
        }),
{
    let known = opened(stored);
    let fp = fingerprint(content);
    let after = known_after(false, known, Some(content));
    let unsaved = line_break_owed(stored) + newly_stored(false, known, Some(content));
    lemma_hex_is_line_safe(sha256(content));
    lemma_record_keeps_order(known, fp);
    if known.contains(fp) {
        let none = Seq::<Seq<char>>::empty();
        lemma_reopened(stored, none);
        assert(render(none) == Seq::<char>::empty());
        assert(stored + unsaved == stored + line_break_owed(stored) + render(none));
        assert(record_all(known, none) == known);
    } else {
        let added = seq![fp];
        lemma_reopened(stored, added);
        assert(added.drop_first() == Seq::<Seq<char>>::empty());
        assert(render(added.drop_first()) == Seq::<char>::empty());
        assert(render(added) == fp + seq!['\n']);
        assert(stored + unsaved == stored + line_break_owed(stored) + render(added));
        assert(added.drop_last() == Seq::<Seq<char>>::empty());
        assert(record_all(known, added.drop_last()) == known);
        assert(added.last() == fp);
        assert(record_all(known, added) == record(known, fp));
    }
}

/// How many of `n` calls in a row, all for one content, a ledger lets through.
pub open spec fn let_through(known: Seq<Seq<char>>, content: Seq<u8>, n: nat) -> nat
    decreases n,
{
    if n == 0 {
        0
    } else {
        let first: nat = if verdict(false, known, Some(content)) == Ok::<bool, LedgerError>(true) {
            1
        } else {
            0
        };
        first + let_through(known_after(false, known, Some(content)), content, (n - 1) as nat)
    }
}

/// Of any number of calls for one content, a ledger lets through one if the
/// fingerprint was not known, and none if it was. The calls come one after the
/// other: callers that share a ledger take turns.
pub proof fn lemma_one_of_many(known: Seq<Seq<char>>, content: Seq<u8>, n: nat)
    ensures
        let_through(known, content, n) == if n > 0 && !known.contains(fingerprint(content)) {
            1nat
        } else {
            0nat
        },
    decreases n,
{
    if n > 0 {
        let after = known_after(false, known, Some(content));
        lemma_one_of_many(after, content, (n - 1) as nat);
        if !known.contains(fingerprint(content)) {
            assert(after[known.len() as int] == fingerprint(content));
        }
    }
}

/// How many of the calls for the contents `calls`, in this order, a ledger lets
/// through that have the fingerprint `fp`.
pub open spec fn let_through_with(known: Seq<Seq<char>>, calls: Seq<Seq<u8>>, fp: Seq<char>) -> nat
    decreases calls.len(),
{
    if calls.len() == 0 {
        0
    } else {
        let first: nat = if fingerprint(calls[0]) == fp && verdict(false, known, Some(calls[0]))
            == Ok::<bool, LedgerError>(true) {
            1
        } else {
            0
        };
        first + let_through_with(
            known_after(false, known, Some(calls[0])),
            calls.drop_first(),
            fp,
        )
    }
}

/// Whatever else a ledger is asked in between, and in whatever order the calls come,
/// it lets a fingerprint through at most once: once if it did not know the
/// fingerprint and one of the calls has it, and never else.
pub proof fn lemma_at_most_once(known: Seq<Seq<char>>, calls: Seq<Seq<u8>>, fp: Seq<char>)
    ensures
        let_through_with(known, calls, fp) == if !known.contains(fp) && exists|i: int|
            0 <= i < calls.len() && fingerprint(#[trigger] calls[i]) == fp {
            1nat
        } else {
            0nat
        },
    decreases calls.len(),
{
    if calls.len() > 0 {
        let first = fingerprint(calls[0]);
        let after = known_after(false, known, Some(calls[0]));
        let rest = calls.drop_first();
        lemma_at_most_once(after, rest, fp);
        lemma_record_keeps_order(known, first);
        if first == fp {
            assert(fingerprint(calls[0]) == fp);
        } else {
            assert(after.contains(fp) == known.contains(fp)) by {
                if after.contains(fp) && !known.contains(fp) {
                    let i = choose|i: int| 0 <= i < after.len() && after[i] == fp;
                    if i < known.len() {
                        assert(known[i] == fp);
                    }
                }
            }
            if exists|i: int| 0 <= i < calls.len() && fingerprint(#[trigger] calls[i]) == fp {
                let i = choose|i: int| 0 <= i < calls.len() && fingerprint(#[trigger] calls[i]) == fp;
                assert(rest[i - 1] == calls[i]);
            }
            if exists|i: int| 0 <= i < rest.len() && fingerprint(#[trigger] rest[i]) == fp {
                let i = choose|i: int| 0 <= i < rest.len() && fingerprint(#[trigger] rest[i]) == fp;
                assert(calls[i + 1] == rest[i]);
            }
        }
    }
}

} // verus!
