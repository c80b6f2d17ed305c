use vstd::prelude::*;

verus! {

#[verifier::external_type_specification]
#[verifier::external_body]
pub struct ExRusttypeFont<'a>(rusttype::Font<'a>);

/// Whether `data` is a TrueType or OpenType font that `rusttype` can read (the
/// first face of a collection).
pub uninterp spec fn parses_as_font(data: Seq<u8>) -> bool;

/// Calls `rusttype::Font::try_from_vec` on a copy of `data`, which parses the
/// font's first face. Claimed: the result is present exactly when the data
/// parses as a font; which font comes back is not stated.
#[verifier::external_body]
fn try_from_vec(data: &[u8]) -> (r: Option<rusttype::Font<'static>>)
    ensures
        r is Some == parses_as_font(data@),
{
    rusttype::Font::try_from_vec(data.to_vec())
}

/// A TrueType font for text rendering, loaded from memory.
pub struct TrueTypeFont {
    font: rusttype::Font<'static>,
    /// The bytes the font was read from.
    source: Ghost<Seq<u8>>,
}

impl TrueTypeFont {
    /// The bytes the font was read from.
    pub closed spec fn source(&self) -> Seq<u8> {
        self.source@
    }

    /// The `rusttype` font held.
    pub closed spec fn rusttype_font(&self) -> rusttype::Font<'static> {
        self.font
    }

    /// Loads a TrueType font from a byte slice in memory: `None` when the
    /// data is not a font.
    pub fn from_bytes(memory: &[u8]) -> (r: Option<TrueTypeFont>)
        ensures
            r is Some == parses_as_font(memory@),
            r matches Some(f) ==> f.source() == memory@,
    {
        match try_from_vec(memory) {
            Some(font) => Some(TrueTypeFont { font, source: Ghost(memory@) }),
            None => None,
        }
    }

    /// Loads a TrueType font from a byte slice in memory, or `None` when the
    /// data is not a font; the same as [`TrueTypeFont::from_bytes`].
    pub fn try_from_bytes(memory: &[u8]) -> (r: Option<TrueTypeFont>)
        ensures
            r is Some == parses_as_font(memory@),
            r matches Some(f) ==> f.source() == memory@,
    {
        TrueTypeFont::from_bytes(memory)
    }

    /// The underlying `rusttype` font.
    pub fn font(&self) -> (r: &rusttype::Font<'static>)
        ensures
            *r == self.rusttype_font(),
    {
        &self.font
    }
}

/// Text typed on a platform keyboard that reaches the app through the event
/// stream.
#[derive(Debug, Clone, Copy, PartialEq, Eq, Structural)]
pub enum TextEvent {
    /// A character was typed.
    Char(char),
    /// The character before the cursor was deleted.
    Backspace,
}

/// The text events of typing the characters `chars`, in order.
pub open spec fn typed_text(chars: Seq<char>) -> Seq<TextEvent>
    decreases chars.len(),
{
    if chars.len() == 0 {
        Seq::empty()
    } else {
        typed_text(chars.drop_last()).push(TextEvent::Char(chars.last()))
    }
}

fn char_at(chars: &Vec<char>, j: usize) -> (c: char)
    requires
        j < chars.len(),
    ensures
        c == chars@[j as int],
{
    chars[j]
}

/// The text events the system keyboard produced and the app has not taken
/// yet, oldest first.
pub struct TextEventQueue {
    events: Vec<TextEvent>,
}

impl TextEventQueue {
    /// The events waiting, oldest first.
    pub closed spec fn view(&self) -> Seq<TextEvent> {
        self.events@
    }

    /// An empty queue.
    pub fn new() -> (r: TextEventQueue)
        ensures
            r.view().len() == 0,
    {
        TextEventQueue { events: Vec::new() }
    }

    /// Records the characters of a text the keyboard inserted.
    pub fn insert_text(&mut self, chars: &Vec<char>)
        ensures
            final(self).view() == old(self).view() + typed_text(chars@),
    {
        let ghost base = self.events@;
        let mut j: usize = 0;
        while j < chars.len()
            invariant
                j <= chars@.len(),
                self.events@ == base + typed_text(chars@.take(j as int)),
            decreases chars@.len() - j,
        {
            let c = char_at(chars, j);
            self.events.push(TextEvent::Char(c));
            assert(chars@.take(j as int + 1).drop_last() =~= chars@.take(j as int));
            j = j + 1;
        }
        assert(chars@.take(chars@.len() as int) =~= chars@);
    }

    /// Records a deletion of the character before the cursor.
    pub fn delete_backward(&mut self)
        ensures
            final(self).view() == old(self).view().push(TextEvent::Backspace),
    {
        self.events.push(TextEvent::Backspace);
    }

    /// Takes the waiting events, oldest first, leaving none.
    pub fn take_text_events(&mut self) -> (r: Vec<TextEvent>)
        ensures
            r@ == old(self).view(),
            final(self).view().len() == 0,
    {
        let mut r: Vec<TextEvent> = Vec::new();
        std::mem::swap(&mut r, &mut self.events);
        r
    }
}

/// Whether `x` is a power of two.
pub open spec fn is_power_of_two(x: nat) -> bool
    decreases x,
{
    if x == 1 {
        true
    } else if x < 2 || x % 2 == 1 {
        false
    } else {
        is_power_of_two(x / 2)
    }
}

/// The smallest power of two at least `n`.
pub fn next_power_of_two(n: usize) -> (r: usize)
    requires
        n <= usize::MAX / 2 + 1,
    ensures
        is_power_of_two(r as nat),
        n <= r,
        r == 1 || r / 2 < n,
{
    let mut p: usize = 1;
    while p < n
        invariant
            is_power_of_two(p as nat),
            1 <= p,
            p == 1 || p / 2 < n,
            n <= usize::MAX / 2 + 1,
        decreases usize::MAX - p,
    {
        assert((2 * p) / 2 == p);
        p = 2 * p;
    }
    p
}

/// The number of vertices the text vertex buffer holds after a frame needs
/// `needed`: kept when large enough, otherwise grown to the next power of two.
pub fn vertex_capacity(needed: usize, capacity: usize) -> (r: usize)
    requires
        needed <= usize::MAX / 2 + 1,
    ensures
        needed <= r,
        needed <= capacity ==> r == capacity,
        needed > capacity ==> is_power_of_two(r as nat) && (r == 1 || r / 2 < needed),
{
    if needed > capacity {
        next_power_of_two(needed)
    } else {
        capacity
    }
}

/// The six corners, two triangles, of the quad from `min` to `max` a glyph is
/// drawn with: (min, min), (min, max), (max, min), then (max, min), (min, max),
/// (max, max).
pub fn glyph_quad<T: Copy>(min: (T, T), max: (T, T)) -> (r: [(T, T); 6])
    ensures
        r@ == seq![
            (min.0, min.1),
            (min.0, max.1),
            (max.0, min.1),
            (max.0, min.1),
            (min.0, max.1),
            (max.0, max.1),
        ],
{
    let r = [
        (min.0, min.1),
        (min.0, max.1),
        (max.0, min.1),
        (max.0, min.1),
        (min.0, max.1),
        (max.0, max.1),
    ];
    assert(r@ =~= seq![
        (min.0, min.1),
        (min.0, max.1),
        (max.0, min.1),
        (max.0, min.1),
        (min.0, max.1),
        (max.0, max.1),
    ]);
    r
}


/// The texts queued for drawing in a frame, kept end to end in one buffer,
/// each with its drawing style (position, scale, color and font, which the
/// renderer reads). Queued texts are not kept from one frame to the next.
pub struct TextBatch<S> {
    text: String,
    ends: Vec<usize>,
    styles: Vec<S>,
}

/// Where the `i`-th text starts in the buffer.
pub open spec fn segment_start(ends: Seq<usize>, i: int) -> int {
    if i == 0 {
        0
    } else {
        ends[i - 1] as int
    }
}

impl<S> TextBatch<S> {
    /// The texts queued, in order.
    pub closed spec fn texts(&self) -> Seq<Seq<char>> {
        Seq::new(
            self.ends@.len(),
            |i: int| self.text@.subrange(segment_start(self.ends@, i), self.ends@[i] as int),
        )
    }

    /// The styles of the texts queued, in order.
    pub closed spec fn styles(&self) -> Seq<S> {
        self.styles@
    }

    /// The number of characters queued in all.
    pub closed spec fn char_count(&self) -> nat {
        self.text@.len()
    }

    /// The buffer is the texts end to end.
    pub closed spec fn wf(&self) -> bool {
        &&& self.styles@.len() == self.ends@.len()
        &&& forall|i: int, j: int| 0 <= i <= j < self.ends@.len() ==> self.ends@[i] <= self.ends@[j]
        &&& self.ends@.len() == 0 ==> self.text@.len() == 0
        &&& self.ends@.len() > 0 ==> self.ends@.last() == self.text@.len()
    }

    /// No text queued.
    pub fn new() -> (r: TextBatch<S>)
        ensures
            r.wf(),
            r.texts().len() == 0,
            r.styles().len() == 0,
            r.char_count() == 0,
    {
        TextBatch { text: String::new(), ends: Vec::new(), styles: Vec::new() }
    }

    /// The number of texts queued.
    pub fn len(&self) -> (r: usize)
        requires
            self.wf(),
        ensures
            r == self.texts().len(),
    {
        self.ends.len()
    }

    /// Queues `text` to be drawn in the next frame with `style`.
    pub fn draw_text(&mut self, text: &str, style: S)
        requires
            old(self).wf(),
            old(self).char_count() + text@.len() <= usize::MAX,
        ensures
            final(self).wf(),
            final(self).texts() == old(self).texts().push(text@),
            final(self).styles() == old(self).styles().push(style),
            final(self).char_count() == old(self).char_count() + text@.len(),
    {
        let n = text.unicode_len();
        let start: usize = if self.ends.len() == 0 { 0 } else { self.ends[self.ends.len() - 1] };
        let ghost old_text = self.text@;
        self.text.append(text);
        self.ends.push(start + n);
        self.styles.push(style);
        proof {
            assert(self.text@ == old_text + text@);
            let k = old(self).ends@.len() as int;
            assert forall|i: int| 0 <= i < k + 1 implies #[trigger] self.texts()[i] == old(self).texts().push(text@)[i] by {
                if i < k {
                    assert(self.ends@[i] <= old_text.len());
                    assert(self.text@.subrange(segment_start(self.ends@, i), self.ends@[i] as int) =~= old_text.subrange(
                        segment_start(old(self).ends@, i),
                        old(self).ends@[i] as int,
                    ));
                } else {
                    assert(segment_start(self.ends@, i) == old_text.len());
                    assert(self.text@.subrange(segment_start(self.ends@, i), self.ends@[i] as int) =~= text@);
                }
            }
            assert(self.texts() =~= old(self).texts().push(text@));
        }
    }

    /// The `i`-th text queued and its style.
    pub fn segment(&self, i: usize) -> (r: (&str, &S))
        requires
            self.wf(),
            i < self.texts().len(),
        ensures
            r.0@ == self.texts()[i as int],
            *r.1 == self.styles()[i as int],
    {
        let start: usize = if i == 0 { 0 } else { self.ends[i - 1] };
        let end = self.ends[i];
        proof {
            assert(start <= end);
            assert(end <= self.text@.len()) by {
                assert(self.ends@[i as int] <= self.ends@[self.ends@.len() - 1]);
            }
        }
        let t = self.text.as_str().substring_char(start, end);
        (t, &self.styles[i])
    }

    /// Forgets every text queued, once they are drawn.
    pub fn clear(&mut self)
        ensures
            final(self).wf(),
            final(self).texts().len() == 0,
            final(self).styles().len() == 0,
            final(self).char_count() == 0,
    {
        self.text = String::new();
        self.ends = Vec::new();
        self.styles = Vec::new();
    }
}

/// A line without the carriage return that ends it, if any.
pub open spec fn strip_cr(s: Seq<char>, start: int, end: int) -> (int, int) {
    if end > start && s[end - 1] == '\r' {
        (start, end - 1)
    } else {
        (start, end)
    }
}

/// The position of the first line feed of `s` at or after `from`, or the
/// length of `s` when there is none.
pub open spec fn next_newline(s: Seq<char>, from: int) -> int
    decreases s.len() - from,
{
    if from >= s.len() {
        s.len() as int
    } else if s[from] == '\n' {
        from
    } else {
        next_newline(s, from + 1)
    }
}

/// The lines of `s` from position `from` on, as ranges of positions: lines end
/// at a line feed or at a carriage return and line feed, neither included; a
/// carriage return not followed by a line feed stays in its line; the last line
/// needs no ending, and a text that ends with a line ending has no empty line
/// after it.
pub open spec fn line_ranges(s: Seq<char>, from: int) -> Seq<(int, int)>
    decreases s.len() - from,
{
    if from >= s.len() {
        Seq::empty()
    } else {
        let nl = next_newline(s, from);
        if nl >= s.len() {
            seq![(from, s.len() as int)]
        } else {
            proof {
                lemma_next_newline_ge(s, from);
            }
            seq![strip_cr(s, from, nl)] + line_ranges(s, nl + 1)
        }
    }
}

/// A line that starts before the end of a text ends at or after its start.
pub proof fn lemma_next_newline_ge(s: Seq<char>, from: int)
    requires
        from < s.len(),
    ensures
        next_newline(s, from) >= from,
    decreases s.len() - from,
{
    reveal_with_fuel(next_newline, 2);
    if s[from] != '\n' && from + 1 < s.len() {
        lemma_next_newline_ge(s, from + 1);
    }
}

proof fn lemma_next_newline(s: Seq<char>, from: int)
    requires
        0 <= from <= s.len(),
    ensures
        from <= next_newline(s, from) <= s.len(),
        next_newline(s, from) < s.len() ==> s[next_newline(s, from)] == '\n',
        forall|k: int| from <= k < next_newline(s, from) ==> s[k] != '\n',
    decreases s.len() - from,
{
    if from < s.len() && s[from] != '\n' {
        lemma_next_newline(s, from + 1);
    }
}

/// The lines of `text`, as ranges of character positions, the way the
/// renderer lays them out one below the other.
pub fn lines(text: &str) -> (r: Vec<(usize, usize)>)
    ensures
        r@.len() == line_ranges(text@, 0).len(),
        forall|k: int|
            0 <= k < r@.len() ==> (#[trigger] r@[k]).0 as int == line_ranges(text@, 0)[k].0 && r@[k].1 as int
                == line_ranges(text@, 0)[k].1,
{
    let n = text.unicode_len();
    let ghost s = text@;
    let mut r: Vec<(usize, usize)> = Vec::new();
    let mut from: usize = 0;
    let ghost mut acc: Seq<(int, int)> = Seq::empty();
    while from < n
        invariant
            n == s.len(),
            s == text@,
            from <= n,
            acc + line_ranges(s, from as int) == line_ranges(s, 0),
            r@.len() == acc.len(),
            forall|k: int| 0 <= k < r@.len() ==> (#[trigger] r@[k]).0 as int == acc[k].0 && r@[k].1 as int == acc[k].1,
        decreases n - from,
    {
        // find the end of the line
        let mut end = from;
        while end < n && text.get_char(end) != '\n'
            invariant
                n == s.len(),
                s == text@,
                from <= end <= n,
                forall|k: int| from <= k < end ==> s[k] != '\n',
            decreases n - end,
        {
            end = end + 1;
        }
        proof {
            lemma_next_newline(s, from as int);
            assert(next_newline(s, from as int) == end) by {
                if end < n {
                    assert(s[end as int] == '\n');
                }
                if next_newline(s, from as int) < end {
                    assert(s[next_newline(s, from as int)] == '\n');
                }
            }
        }
        if end >= n {
            r.push((from, n));
            proof {
                assert(line_ranges(s, from as int) == seq![(from as int, n as int)]);
                acc = acc + seq![(from as int, n as int)];
                assert(line_ranges(s, n as int) == Seq::<(int, int)>::empty());
                assert(acc + line_ranges(s, n as int) =~= line_ranges(s, 0));
            }
            from = n;
        } else {
            let line_end = if end > from && text.get_char(end - 1) == '\r' { end - 1 } else { end };
            r.push((from, line_end));
            proof {
                assert(strip_cr(s, from as int, end as int) == (from as int, line_end as int));
                assert(line_ranges(s, from as int) == seq![(from as int, line_end as int)] + line_ranges(s, end + 1));
                let acc2 = acc + seq![(from as int, line_end as int)];
                assert(acc2 + line_ranges(s, end + 1) =~= acc + line_ranges(s, from as int));
                acc = acc2;
            }
            from = end + 1;
        }
    }
    proof {
        assert(line_ranges(s, from as int) == Seq::<(int, int)>::empty());
        assert(acc =~= acc + line_ranges(s, from as int));
    }
    r
}


/// The lines of a text lie within it, in order without overlapping, and none
/// holds a line feed.
pub proof fn lemma_lines_well_formed(s: Seq<char>, from: int)
    requires
        0 <= from <= s.len(),
    ensures
        ({
            let r = line_ranges(s, from);
            &&& forall|k: int| 0 <= k < r.len() ==> from <= (#[trigger] r[k]).0 <= r[k].1 <= s.len()
            &&& forall|k: int| 0 <= k < r.len() - 1 ==> (#[trigger] r[k]).1 < r[k + 1].0
            &&& forall|k: int, c: int| 0 <= k < r.len() && (#[trigger] r[k]).0 <= c < r[k].1 ==> #[trigger] s[c] != '\n'
        }),
    decreases s.len() - from,
{
    if from < s.len() {
        lemma_next_newline(s, from);
        let nl = next_newline(s, from);
        if nl < s.len() {
            lemma_lines_well_formed(s, nl + 1);
            let rest = line_ranges(s, nl + 1);
            let r = line_ranges(s, from);
            assert(r == seq![strip_cr(s, from, nl)] + rest);
            assert forall|k: int| 0 <= k < r.len() - 1 implies (#[trigger] r[k]).1 < r[k + 1].0 by {
                if k == 0 {
                    assert(r[1] == rest[0]);
                } else {
                    assert(r[k] == rest[k - 1]);
                    assert(r[k + 1] == rest[k]);
                }
            }
            assert forall|k: int| 0 <= k < r.len() implies from <= (#[trigger] r[k]).0 <= r[k].1 <= s.len() by {
                if k > 0 {
                    assert(r[k] == rest[k - 1]);
                }
            }
            assert forall|k: int, c: int| 0 <= k < r.len() && (#[trigger] r[k]).0 <= c < r[k].1 implies #[trigger] s[c] != '\n' by {
                if k > 0 {
                    assert(r[k] == rest[k - 1]);
                }
            }
        }
    }
}

} // verus!
