use vstd::prelude::*;

verus! {

/// The line delimiter, `\n`.
pub const NEWLINE: u8 = 0x0a;

/// A carriage return, `\r`, dropped before a delimiter when a line is shown as text.
pub const CARRIAGE_RETURN: u8 = 0x0d;

/// `s` holds no line delimiter.
pub open spec fn has_no_newline(s: Seq<u8>) -> bool {
    forall|i: int| 0 <= i < s.len() ==> s[i] != NEWLINE
}

/// A complete line: bytes that end with the delimiter and hold no other.
pub open spec fn is_line(l: Seq<u8>) -> bool {
    &&& l.len() > 0
    &&& l.last() == NEWLINE
    &&& has_no_newline(l.drop_last())
}

/// The byte contents of a list of buffers.
pub open spec fn views(v: Seq<Vec<u8>>) -> Seq<Seq<u8>> {
    v.map_values(|l: Vec<u8>| l@)
}

/// `input` is cut into the complete `lines`, in order, followed by the
/// unterminated remainder `rest`: nothing is lost, added, merged or reordered.
pub open spec fn is_line_split(input: Seq<u8>, lines: Seq<Seq<u8>>, rest: Seq<u8>) -> bool {
    &&& lines.flatten() + rest == input
    &&& forall|k: int| 0 <= k < lines.len() ==> is_line(#[trigger] lines[k])
    &&& has_no_newline(rest)
}

/// What a line shows as text: without its delimiter, and without a carriage
/// return just before it.
pub open spec fn text_of(l: Seq<u8>) -> Seq<u8> {
    if l.len() > 0 && l.last() == NEWLINE {
        let t = l.drop_last();
        if t.len() > 0 && t.last() == CARRIAGE_RETURN {
            t.drop_last()
        } else {
            t
        }
    } else {
        l
    }
}

proof fn lemma_flatten_concat(a: Seq<Seq<u8>>, b: Seq<Seq<u8>>)
    ensures
        (a + b).flatten() == a.flatten() + b.flatten(),
    decreases a.len(),
{
    if a.len() == 0 {
        assert(a + b =~= b);
        assert(a.flatten() + b.flatten() =~= b.flatten());
    } else {
        assert((a + b).drop_first() =~= a.drop_first() + b);
        lemma_flatten_concat(a.drop_first(), b);
        assert((a + b).first() == a.first());
        assert(a.first() + (a.drop_first().flatten() + b.flatten()) =~= (a.first()
            + a.drop_first().flatten()) + b.flatten());
    }
}

/// A line that starts `s` ends at the first delimiter of `s`.
proof fn lemma_first_line_ends_at_first_newline(s: Seq<u8>, a: Seq<u8>, b: Seq<u8>)
    requires
        is_line(a),
        is_line(b),
        a.len() <= s.len(),
        b.len() <= s.len(),
        s.take(a.len() as int) == a,
        s.take(b.len() as int) == b,
    ensures
        a == b,
{
    if a.len() < b.len() {
        assert(b.drop_last()[a.len() - 1] == s[a.len() - 1]);
        assert(a[a.len() - 1] == s[a.len() - 1]);
    } else if b.len() < a.len() {
        assert(a.drop_last()[b.len() - 1] == s[b.len() - 1]);
        assert(b[b.len() - 1] == s[b.len() - 1]);
    }
}

/// A byte stream has one way only of being cut into lines and a remainder.
pub proof fn lemma_line_split_unique(
    s: Seq<u8>,
    l1: Seq<Seq<u8>>,
    r1: Seq<u8>,
    l2: Seq<Seq<u8>>,
    r2: Seq<u8>,
)
    requires
        is_line_split(s, l1, r1),
        is_line_split(s, l2, r2),
    ensures
        l1 == l2,
        r1 == r2,
    decreases l1.len(),
{
    if l1.len() == 0 {
        assert(l1.flatten() + r1 =~= r1);
        if l2.len() > 0 {
            let b = l2[0];
            assert(is_line(b));
            assert(l2.flatten() == b + l2.drop_first().flatten());
            assert(s[b.len() - 1] == b[b.len() - 1]);
        }
        assert(l2.flatten() + r2 =~= r2);
        assert(l1 =~= l2);
    } else if l2.len() == 0 {
        assert(l2.flatten() + r2 =~= r2);
        let a = l1[0];
        assert(is_line(a));
        assert(l1.flatten() == a + l1.drop_first().flatten());
        assert(s[a.len() - 1] == a[a.len() - 1]);
    } else {
        let a = l1[0];
        let b = l2[0];
        assert(is_line(a));
        assert(is_line(b));
        let t1 = l1.drop_first().flatten() + r1;
        let t2 = l2.drop_first().flatten() + r2;
        assert(l1.flatten() == a + l1.drop_first().flatten());
        assert(l2.flatten() == b + l2.drop_first().flatten());
        assert(s =~= a + t1);
        assert(s =~= b + t2);
        assert(s.take(a.len() as int) =~= a);
        assert(s.take(b.len() as int) =~= b);
        lemma_first_line_ends_at_first_newline(s, a, b);
        let rest = s.skip(a.len() as int);
        assert(rest =~= t1);
        assert(rest =~= t2);
        assert forall|k: int| 0 <= k < l1.drop_first().len() implies is_line(
            #[trigger] l1.drop_first()[k],
        ) by {
            assert(l1.drop_first()[k] == l1[k + 1]);
        }
        assert forall|k: int| 0 <= k < l2.drop_first().len() implies is_line(
            #[trigger] l2.drop_first()[k],
        ) by {
            assert(l2.drop_first()[k] == l2[k + 1]);
        }
        lemma_line_split_unique(rest, l1.drop_first(), r1, l2.drop_first(), r2);
        assert(l1 =~= seq![a] + l1.drop_first());
        assert(l2 =~= seq![b] + l2.drop_first());
    }
}

/// Framing a stream read in two pieces gives the lines of the whole stream:
/// the lines of the first piece, then those of what was left over followed
/// by the second piece. How reads happen to cut the stream never merges or
/// splits a line.
pub proof fn lemma_chunking_keeps_lines(
    a: Seq<u8>,
    b: Seq<u8>,
    l1: Seq<Seq<u8>>,
    r1: Seq<u8>,
    l2: Seq<Seq<u8>>,
    r2: Seq<u8>,
    whole: Seq<Seq<u8>>,
    rest: Seq<u8>,
)
    requires
        is_line_split(a, l1, r1),
        is_line_split(r1 + b, l2, r2),
        is_line_split(a + b, whole, rest),
    ensures
        whole == l1 + l2,
        rest == r2,
{
    lemma_flatten_concat(l1, l2);
    assert(l1.flatten() + l2.flatten() + r2 =~= l1.flatten() + (l2.flatten() + r2));
    assert(l1.flatten() + (r1 + b) =~= (l1.flatten() + r1) + b);
    assert((l1 + l2).flatten() + r2 == a + b);
    assert forall|k: int| 0 <= k < (l1 + l2).len() implies is_line(#[trigger] (l1 + l2)[k]) by {
        if k < l1.len() {
            assert((l1 + l2)[k] == l1[k]);
        } else {
            assert((l1 + l2)[k] == l2[k - l1.len()]);
        }
    }
    lemma_line_split_unique(a + b, whole, rest, l1 + l2, r2);
}

/// The bytes of an unterminated line, kept until its delimiter arrives.
pub struct LineBuffer {
    pending: Vec<u8>,
}

impl View for LineBuffer {
    type V = Seq<u8>;

    closed spec fn view(&self) -> Seq<u8> {
        self.pending@
    }
}

impl LineBuffer {
    /// The buffer holds no complete line.
    pub open spec fn wf(&self) -> bool {
        has_no_newline(self@)
    }

    /// An empty buffer.
    pub fn new() -> (r: LineBuffer)
        ensures
            r@ == Seq::<u8>::empty(),
            r.wf(),
    {
        LineBuffer { pending: Vec::new() }
    }

    /// Whether no bytes are waiting for a delimiter.
    pub fn is_empty(&self) -> (r: bool)
        ensures
            r == (self@.len() == 0),
    {
        self.pending.len() == 0
    }

    /// Appends `chunk` and returns, in order, every line that it completes;
    /// the unterminated tail stays in the buffer.
    pub fn push(&mut self, chunk: &[u8]) -> (lines: Vec<Vec<u8>>)
        requires
            old(self).wf(),
        ensures
            final(self).wf(),
            is_line_split(old(self)@ + chunk@, views(lines@), final(self)@),
    {
        let ghost start = self@;
        let mut lines: Vec<Vec<u8>> = Vec::new();
        let mut i: usize = 0;
        assert(views(lines@).flatten() + self@ =~= start + chunk@.take(0));
        while i < chunk.len()
            invariant
                i <= chunk@.len(),
                is_line_split(start + chunk@.take(i as int), views(lines@), self@),
            decreases chunk@.len() - i,
        {
            let ghost before = views(lines@);
            let ghost p0 = self@;
            let b = chunk[i];
            self.pending.push(b);
            assert(self@ == p0.push(b));
            assert(self@.drop_last() =~= p0);
            if b == NEWLINE {
                let mut line: Vec<u8> = Vec::new();
                core::mem::swap(&mut line, &mut self.pending);
                assert(is_line(line@));
                lines.push(line);
                assert(views(lines@) =~= before.push(line@));
                proof {
                    before.lemma_flatten_push(line@);
                }
                assert(before.push(line@).flatten() + self@ =~= before.flatten() + p0.push(b));
                assert forall|k: int| 0 <= k < views(lines@).len() implies is_line(
                    #[trigger] views(lines@)[k],
                ) by {
                    if k < before.len() {
                        assert(views(lines@)[k] == before[k]);
                    }
                }
            }
            assert(chunk@.take(i + 1) =~= chunk@.take(i as int).push(b));
            i = i + 1;
            assert(before.flatten() + p0.push(b) =~= (before.flatten() + p0).push(b));
            assert(views(lines@).flatten() + self@ =~= start + chunk@.take(i as int));
        }
        assert(chunk@.take(i as int) =~= chunk@);
        lines
    }

    /// Empties the buffer and returns what it held, if anything: the last
    /// line of a stream that ended without a delimiter.
    pub fn take_rest(&mut self) -> (r: Option<Vec<u8>>)
        ensures
            final(self)@ == Seq::<u8>::empty(),
            final(self).wf(),
            old(self)@.len() == 0 ==> r is None,
            old(self)@.len() > 0 ==> r is Some && r->0@ == old(self)@,
    {
        if self.pending.len() == 0 {
            None
        } else {
            let mut rest: Vec<u8> = Vec::new();
            core::mem::swap(&mut rest, &mut self.pending);
            Some(rest)
        }
    }
}

/// The text of a line, without its delimiter and a carriage return before it.
pub fn line_text(line: &[u8]) -> (r: Vec<u8>)
    ensures
        r@ == text_of(line@),
{
    let n: usize = line.len();
    let mut end: usize = n;
    if n > 0 && line[n - 1] == NEWLINE {
        if n > 1 && line[n - 2] == CARRIAGE_RETURN {
            end = n - 2;
            assert(line@.drop_last().last() == line@[n - 2]);
            assert(line@.drop_last().drop_last() =~= line@.take(end as int));
        } else {
            end = n - 1;
            assert(n > 1 ==> line@.drop_last().last() == line@[n - 2]);
            assert(line@.drop_last() =~= line@.take(end as int));
        }
    } else {
        assert(line@ =~= line@.take(end as int));
    }
    let ghost want = line@.take(end as int);
    assert(want == text_of(line@));
    let mut r: Vec<u8> = Vec::new();
    let mut i: usize = 0;
    while i < end
        invariant
            end <= line@.len(),
            i <= end,
            r@ == line@.take(i as int),
        decreases end - i,
    {
        r.push(line[i]);
        i = i + 1;
        assert(r@ =~= line@.take(i as int));
    }
    r
}

} // verus!
