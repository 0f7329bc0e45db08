//! The kill feed: a ring of the most recent lines, shown newest first.
use vstd::prelude::*;
use vstd::string::*;

verus! {

/// What a [`FeedBuffer`] holds, as plain mathematical values.
pub struct FeedState {
    /// How many lines the feed shows at most.
    pub size: nat,
    /// How many lines it shows now.
    pub count: nat,
    /// The slot that the next line goes to.
    pub index: nat,
    /// The stored lines, slot by slot.
    pub buf: Seq<Seq<char>>,
}

/// `x % m` for `0 <= x < 2 * m`.
proof fn lemma_mod_once(x: int, m: int)
    requires
        0 < m,
        0 <= x < 2 * m,
    ensures
        x % m == (if x < m { x } else { x - m }),
{
    if x < m {
        vstd::arithmetic::div_mod::lemma_small_mod(x as nat, m as nat);
    } else {
        vstd::arithmetic::div_mod::lemma_small_mod((x - m) as nat, m as nat);
        vstd::arithmetic::div_mod::lemma_mod_add_multiples_vanish(x - m, m);
    }
}

/// The text of a list of lines: each line followed by a newline.
pub open spec fn lines_text(lines: Seq<Seq<char>>) -> Seq<char>
    decreases lines.len(),
{
    if lines.len() == 0 {
        Seq::empty()
    } else {
        lines_text(lines.drop_last()) + lines.last() + seq!['\n']
    }
}

/// The text of one line is the line and a newline.
pub proof fn lemma_lines_text_one(line: Seq<char>)
    ensures
        lines_text(seq![line]) == line + seq!['\n'],
{
    assert(seq![line].drop_last() =~= Seq::<Seq<char>>::empty());
    assert(seq![line].last() == line);
    assert(lines_text(Seq::<Seq<char>>::empty()) =~= Seq::<char>::empty());
    assert(lines_text(seq![line]) =~= line + seq!['\n']);
}

/// The text of consecutive lists of lines is the text of the first list
/// followed by the text of the second.
pub proof fn lemma_lines_text_concat(a: Seq<Seq<char>>, b: Seq<Seq<char>>)
    ensures
        lines_text(a + b) == lines_text(a) + lines_text(b),
    decreases b.len(),
{
    if b.len() == 0 {
        assert(a + b =~= a);
        assert(lines_text(b) =~= Seq::<char>::empty());
        assert(lines_text(a) + lines_text(b) =~= lines_text(a));
    } else {
        lemma_lines_text_concat(a, b.drop_last());
        assert((a + b).drop_last() =~= a + b.drop_last());
        assert((a + b).last() == b.last());
        assert(lines_text(a + b) =~= lines_text(a) + lines_text(b));
    }
}

/// Every line of a list shows in full, each followed by a newline, in order:
/// the text is the text of the first `i` lines, then line `i` and a newline,
/// then the text of the rest.
pub proof fn lemma_lines_text_has_every_line(lines: Seq<Seq<char>>, i: int)
    requires
        0 <= i < lines.len(),
    ensures
        lines_text(lines) == lines_text(lines.take(i)) + lines[i] + seq!['\n'] + lines_text(
            lines.skip(i + 1),
        ),
        lines_text(lines).len() == lines_text(lines.take(i)).len() + lines[i].len() + 1
            + lines_text(lines.skip(i + 1)).len(),
{
    assert(lines =~= lines.take(i) + (seq![lines[i]] + lines.skip(i + 1)));
    lemma_lines_text_concat(lines.take(i), seq![lines[i]] + lines.skip(i + 1));
    lemma_lines_text_concat(seq![lines[i]], lines.skip(i + 1));
    lemma_lines_text_one(lines[i]);
    assert(lines_text(lines) =~= lines_text(lines.take(i)) + lines[i] + seq!['\n'] + lines_text(
        lines.skip(i + 1),
    ));
}

/// The rendered feed is each shown line, newest first, followed by a newline.
pub proof fn lemma_rendered_lists_shown(st: FeedState, i: int)
    requires
        0 <= i < st.count,
    ensures
        st.rendered() == lines_text(st.shown().take(i)) + st.shown()[i] + seq!['\n'] + lines_text(
            st.shown().skip(i + 1),
        ),
{
    lemma_lines_text_has_every_line(st.shown(), i);
}

impl FeedState {
    /// The state that `FeedBuffer::new(size)` starts in.
    pub open spec fn empty(size: nat) -> FeedState {
        FeedState { size, count: 0, index: 0, buf: Seq::empty() }
    }

    /// The invariant that every buffer keeps.
    pub open spec fn wf(self) -> bool {
        &&& self.size <= usize::MAX / 2
        &&& self.count <= self.size
        &&& self.count <= self.buf.len()
        &&& (if self.size == 0 { self.index == 0 } else { self.index < self.size })
        &&& self.count < self.size ==> self.index == self.count
    }

    /// No slot beyond the shown lines holds an old line: true from `new` on,
    /// until the first `clear` of a non-empty buffer.
    pub open spec fn fresh(self) -> bool {
        self.buf.len() == self.count
    }

    /// The slot of the `i`-th shown line (0 is the newest).
    pub open spec fn slot(self, i: int) -> int {
        (self.size - 1 + self.index - i) % (self.size as int)
    }

    /// The lines shown, newest first.
    pub open spec fn shown(self) -> Seq<Seq<char>> {
        Seq::new(self.count, |i: int| self.buf[self.slot(i)])
    }

    /// The text that `render` gives.
    pub open spec fn rendered(self) -> Seq<char> {
        lines_text(self.shown())
    }

    /// The state after adding line `s`.
    pub open spec fn add(self, s: Seq<char>) -> FeedState {
        if self.count < self.size {
            FeedState {
                size: self.size,
                count: self.count + 1,
                index: ((self.index + 1) as int % (self.size as int)) as nat,
                buf: self.buf.push(s),
            }
        } else {
            FeedState {
                size: self.size,
                count: self.count,
                index: ((self.index + 1) as int % (self.size as int)) as nat,
                buf: self.buf.update(self.index as int, s),
            }
        }
    }

    /// The state after `clear`: nothing shown, the stored lines kept.
    pub open spec fn cleared(self) -> FeedState {
        FeedState { size: self.size, count: 0, index: 0, buf: self.buf }
    }

    /// The state after adding the lines of `h`, first to last.
    pub open spec fn add_all(self, h: Seq<Seq<char>>) -> FeedState
        decreases h.len(),
    {
        if h.len() == 0 {
            self
        } else {
            self.add_all(h.drop_last()).add(h.last())
        }
    }
}

/// Adding a line keeps the invariant.
pub proof fn lemma_add_wf(st: FeedState, s: Seq<char>)
    requires
        st.wf(),
        st.size > 0,
    ensures
        st.add(s).wf(),
        st.fresh() ==> st.add(s).fresh(),
{
    lemma_mod_once(st.index + 1int, st.size as int);
}

/// In a buffer with no stale slot, an added line is shown first, and the lines
/// shown before follow it, the oldest dropping out once `size` are shown.
pub proof fn lemma_add_shows_newest_first(st: FeedState, s: Seq<char>)
    requires
        st.wf(),
        st.fresh(),
        st.size > 0,
    ensures
        st.add(s).wf(),
        st.add(s).fresh(),
        st.add(s).count == (if st.count < st.size { st.count + 1 } else { st.count }),
        st.add(s).shown() == seq![s] + st.shown().take(st.add(s).count - 1),
{
    lemma_add_wf(st, s);
    let nx = st.add(s);
    let m = st.size as int;
    lemma_mod_once(st.index + 1int, m);
    assert(nx.index == (if st.index + 1 < m { st.index + 1 } else { 0 }));
    // the newest line sits in the slot just written
    lemma_mod_once(m - 1 + nx.index, m);
    assert(nx.slot(0) == st.index);
    assert(nx.buf[nx.slot(0)] == s);
    assert forall|i: int| 1 <= i < nx.count implies #[trigger] nx.buf[nx.slot(i)] == st.buf[st.slot(
        i - 1,
    )] by {
        lemma_mod_once(m - 1 + nx.index - i, m);
        lemma_mod_once(m - 1 + st.index - (i - 1), m);
        assert(nx.slot(i) == st.slot(i - 1));
        assert(st.slot(i - 1) != st.index);
        assert(0 <= st.slot(i - 1) < st.buf.len());
    }
    assert(nx.shown() =~= seq![s] + st.shown().take(nx.count - 1));
}

/// From a new buffer, after adding the lines of `h`, the feed shows the last
/// `min(h.len(), size)` of them, newest first.
pub proof fn lemma_feed_shows_recent(size: nat, h: Seq<Seq<char>>)
    requires
        0 < size <= usize::MAX / 2,
    ensures
        FeedState::empty(size).add_all(h).wf(),
        FeedState::empty(size).add_all(h).fresh(),
        FeedState::empty(size).add_all(h).size == size,
        FeedState::empty(size).add_all(h).count == (if h.len() < size { h.len() } else { size }),
        forall|i: int|
            0 <= i < FeedState::empty(size).add_all(h).count ==> #[trigger] FeedState::empty(
                size,
            ).add_all(h).shown()[i] == h[h.len() - 1 - i],
    decreases h.len(),
{
    if h.len() > 0 {
        let prev = FeedState::empty(size).add_all(h.drop_last());
        lemma_feed_shows_recent(size, h.drop_last());
        lemma_add_shows_newest_first(prev, h.last());
        let cur = FeedState::empty(size).add_all(h);
        assert(cur == prev.add(h.last()));
        assert forall|i: int| 0 <= i < cur.count implies #[trigger] cur.shown()[i] == h[h.len()
            - 1 - i] by {
            if i > 0 {
                assert(cur.shown()[i] == prev.shown()[i - 1]);
                assert(prev.shown()[i - 1] == h.drop_last()[h.drop_last().len() - 1 - (i - 1)]);
            }
        }
    }
}

/// A clear leaves nothing shown.
pub proof fn lemma_clear_shows_nothing(st: FeedState)
    ensures
        st.cleared().shown() == Seq::<Seq<char>>::empty(),
        st.cleared().rendered() == Seq::<char>::empty(),
{
    assert(st.cleared().shown() =~= Seq::<Seq<char>>::empty());
}

/// A ring of the most recent feed lines, shown newest first.
pub struct FeedBuffer {
    size: usize,
    count: usize,
    index: usize,
    buf: Vec<String>,
}

impl View for FeedBuffer {
    type V = FeedState;

    closed spec fn view(&self) -> FeedState {
        FeedState {
            size: self.size as nat,
            count: self.count as nat,
            index: self.index as nat,
            buf: self.buf@.map_values(|s: String| s@),
        }
    }
}

impl FeedBuffer {
    /// An empty feed that shows at most `size` lines. (A ring of more than
    /// `usize::MAX / 2` slots cannot be allocated.)
    pub fn new(size: usize) -> (r: FeedBuffer)
        requires
            size <= usize::MAX / 2,
        ensures
            r@ == FeedState::empty(size as nat),
            r@.wf(),
    {
        let r = FeedBuffer { size: size, count: 0, index: 0, buf: Vec::with_capacity(size) };
        assert(r@.buf =~= Seq::<Seq<char>>::empty());
        r
    }

    /// Adds a line: it is shown first, and once `size` lines are shown the
    /// oldest one drops out.
    pub fn add_string(&mut self, s: String)
        requires
            old(self)@.wf(),
            old(self)@.size > 0,
        ensures
            final(self)@ == old(self)@.add(s@),
            final(self)@.wf(),
    {
        proof {
            lemma_add_wf(self@, s@);
        }
        let ghost sv = s@;
        if self.count < self.size {
            self.buf.push(s);
            self.count = self.count + 1;
        } else {
            self.buf.set(self.index, s);
        }
        self.index = (self.index + 1) % self.size;
        assert(self@.buf =~= old(self)@.add(sv).buf);
    }

    /// The shown lines, newest first, each followed by a newline.
    pub fn render(&mut self) -> (r: String)
        requires
            old(self)@.wf(),
        ensures
            final(self)@ == old(self)@,
            r@ == old(self)@.rendered(),
    {
        let mut string = String::new();
        let ghost st = self@;
        let mut i: usize = 0;
        while i < self.count
            invariant
                st == self@,
                st.wf(),
                i <= self.count,
                string@ == lines_text(st.shown().take(i as int)),
            decreases self.count - i,
        {
            let ghost m = self.size as int;
            proof {
                lemma_mod_once(m - 1 + self.index - i, m);
            }
            let slot = (self.size - 1 + self.index - i) % self.size;
            assert(slot == st.slot(i as int));
            string.append(self.buf[slot].as_str());
            proof {
                reveal_strlit("\n");
            }
            string.append("\n");
            assert(st.shown().take(i + 1).drop_last() =~= st.shown().take(i as int));
            i = i + 1;
        }
        assert(st.shown().take(i as int) =~= st.shown());
        string
    }

    /// Shows nothing until lines are added again.
    pub fn clear(&mut self)
        requires
            old(self)@.wf(),
        ensures
            final(self)@ == old(self)@.cleared(),
            final(self)@.wf(),
    {
        self.count = 0;
        self.index = 0;
    }
}

} // verus!
