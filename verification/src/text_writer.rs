use vstd::prelude::*;

verus! {

/// One step of a layout document: literal text, a line break, or a change of the
/// indentation level.
pub enum Piece {
    Text(Seq<char>),
    Line,
    Indent,
    Dedent,
}

/// The observable state of a text writer.
pub struct WriterState {
    pub text: Seq<char>,
    pub indent: nat,
    pub line_start: bool,
    pub new_line: Seq<char>,
}

/// Number of spaces written for one level of indentation.
pub const INDENT_SIZE: usize = 4;

/// The text written in front of the first token of a line at `level`.
pub open spec fn indent_text(level: nat) -> Seq<char>
    decreases level,
{
    if level == 0 {
        Seq::empty()
    } else {
        indent_text((level - 1) as nat) + seq![' ', ' ', ' ', ' ']
    }
}

/// The text a write of `s` appends at state `ws`: the indentation first when the
/// writer stands at the start of a line, nothing at all for an empty `s`.
pub open spec fn written_text(ws: WriterState, s: Seq<char>) -> Seq<char> {
    if s.len() == 0 {
        Seq::empty()
    } else if ws.line_start {
        indent_text(ws.indent) + s
    } else {
        s
    }
}

/// What a writer does with one piece.
pub open spec fn step(ws: WriterState, p: Piece) -> WriterState {
    match p {
        Piece::Text(s) => if s.len() == 0 {
            ws
        } else {
            WriterState { text: ws.text + written_text(ws, s), line_start: false, ..ws }
        },
        Piece::Line => if ws.line_start {
            ws
        } else {
            WriterState { text: ws.text + ws.new_line, line_start: true, ..ws }
        },
        Piece::Indent => if ws.indent < usize::MAX {
            WriterState { indent: ws.indent + 1, ..ws }
        } else {
            ws
        },
        Piece::Dedent => if ws.indent > 0 {
            WriterState { indent: (ws.indent - 1) as nat, ..ws }
        } else {
            ws
        },
    }
}

/// What a writer does with a whole document, piece by piece from the front.
pub open spec fn apply(ws: WriterState, d: Seq<Piece>) -> WriterState
    decreases d.len(),
{
    if d.len() == 0 {
        ws
    } else {
        step(apply(ws, d.drop_last()), d.last())
    }
}

/// Whether `after` is `before` with `d` written after it.
pub open spec fn appends(before: Seq<Piece>, after: Seq<Piece>, d: Seq<Piece>) -> bool {
    after == before + d
}

/// Concatenating documents is associative.
pub broadcast proof fn lemma_doc_concat_assoc(a: Seq<Piece>, b: Seq<Piece>, c: Seq<Piece>)
    ensures
        #[trigger] (a + (b + c)) == (a + b) + c,
{
    assert(a + (b + c) =~= (a + b) + c);
}

/// The empty document is a unit of concatenation.
pub broadcast proof fn lemma_doc_concat_empty(a: Seq<Piece>)
    ensures
        #[trigger] (a + Seq::<Piece>::empty()) == a,
        #[trigger] (Seq::<Piece>::empty() + a) == a,
{
    assert(a + Seq::<Piece>::empty() =~= a);
    assert(Seq::<Piece>::empty() + a =~= a);
}

/// How a piece moves the indentation level: one in, one out, or not at all.
pub open spec fn piece_nesting(p: Piece) -> int {
    match p {
        Piece::Indent => 1,
        Piece::Dedent => -1,
        _ => 0,
    }
}

/// How far a document moves the indentation level in all.
pub open spec fn nesting(d: Seq<Piece>) -> int
    decreases d.len(),
{
    if d.len() == 0 {
        0
    } else {
        nesting(d.drop_last()) + piece_nesting(d.last())
    }
}

/// The lowest level the indentation reaches, relative to where it started,
/// while a document is written: zero or less.
pub open spec fn lowest_nesting(d: Seq<Piece>) -> int
    decreases d.len(),
{
    if d.len() == 0 {
        0
    } else {
        let l = lowest_nesting(d.drop_last());
        if nesting(d) < l {
            nesting(d)
        } else {
            l
        }
    }
}

/// The highest level the indentation reaches, relative to where it started,
/// while a document is written: zero or more.
pub open spec fn highest_nesting(d: Seq<Piece>) -> int
    decreases d.len(),
{
    if d.len() == 0 {
        0
    } else {
        let h = highest_nesting(d.drop_last());
        if nesting(d) > h {
            nesting(d)
        } else {
            h
        }
    }
}

/// Whether a document returns the indentation to where it started and never
/// moves it further out than that.
pub open spec fn well_nested(d: Seq<Piece>) -> bool {
    nesting(d) == 0 && lowest_nesting(d) == 0
}

/// The nesting of two documents written one after the other.
pub proof fn lemma_nesting_concat(a: Seq<Piece>, b: Seq<Piece>)
    ensures
        nesting(a + b) == nesting(a) + nesting(b),
        lowest_nesting(a + b) == if nesting(a) + lowest_nesting(b) < lowest_nesting(a) {
            nesting(a) + lowest_nesting(b)
        } else {
            lowest_nesting(a)
        },
        highest_nesting(a + b) == if nesting(a) + highest_nesting(b) > highest_nesting(a) {
            nesting(a) + highest_nesting(b)
        } else {
            highest_nesting(a)
        },
    decreases b.len(),
{
    if b.len() == 0 {
        assert(a + b =~= a);
    } else {
        lemma_nesting_concat(a, b.drop_last());
        assert((a + b).drop_last() =~= a + b.drop_last());
        assert((a + b).last() == b.last());
    }
}

/// The nesting of a concatenation is the sum of the nestings.
pub broadcast proof fn lemma_nesting_of_concat(a: Seq<Piece>, b: Seq<Piece>)
    ensures
        #[trigger] nesting(a + b) == nesting(a) + nesting(b),
{
    lemma_nesting_concat(a, b);
}

/// The lowest level of a concatenation.
pub broadcast proof fn lemma_lowest_nesting_of_concat(a: Seq<Piece>, b: Seq<Piece>)
    ensures
        #[trigger] lowest_nesting(a + b) == if nesting(a) + lowest_nesting(b) < lowest_nesting(a) {
            nesting(a) + lowest_nesting(b)
        } else {
            lowest_nesting(a)
        },
{
    lemma_nesting_concat(a, b);
}

/// The nesting of the pieces that are documents of their own.
pub proof fn lemma_piece_nesting()
    ensures
        nesting(seq![Piece::Indent]) == 1,
        lowest_nesting(seq![Piece::Indent]) == 0,
        highest_nesting(seq![Piece::Indent]) == 1,
        nesting(seq![Piece::Dedent]) == -1,
        lowest_nesting(seq![Piece::Dedent]) == -1,
        highest_nesting(seq![Piece::Dedent]) == 0,
        well_nested(seq![Piece::Line]),
        highest_nesting(seq![Piece::Line]) == 0,
        nesting(seq![Piece::Indent, Piece::Line]) == 1,
        lowest_nesting(seq![Piece::Indent, Piece::Line]) == 0,
        highest_nesting(seq![Piece::Indent, Piece::Line]) == 1,
        well_nested(Seq::<Piece>::empty()),
        highest_nesting(Seq::<Piece>::empty()) == 0,
{
    assert(nesting(Seq::<Piece>::empty()) == 0);
    assert(lowest_nesting(Seq::<Piece>::empty()) == 0);
    assert(highest_nesting(Seq::<Piece>::empty()) == 0);
    assert(seq![Piece::Indent].drop_last() =~= Seq::<Piece>::empty());
    assert(seq![Piece::Indent].last() == Piece::Indent);
    assert(nesting(seq![Piece::Indent]) == 1);
    assert(seq![Piece::Dedent].drop_last() =~= Seq::<Piece>::empty());
    assert(seq![Piece::Indent, Piece::Line].drop_last() =~= seq![Piece::Indent]);
    assert(seq![Piece::Indent, Piece::Line].last() == Piece::Line);
    assert(lowest_nesting(seq![Piece::Indent]) == 0);
    assert(highest_nesting(seq![Piece::Indent]) == 1);
    assert(nesting(seq![Piece::Indent, Piece::Line]) == 1);
    lemma_flat_well_nested(seq![Piece::Line]);
}

/// A document with no indentation change is well nested.
pub proof fn lemma_flat_well_nested(d: Seq<Piece>)
    requires
        forall|i: int| 0 <= i < d.len() ==> !(#[trigger] d[i] is Indent) && !(d[i] is Dedent),
    ensures
        well_nested(d),
        highest_nesting(d) == 0,
    decreases d.len(),
{
    if d.len() > 0 {
        let init = d.drop_last();
        assert forall|i: int| 0 <= i < init.len() implies !(#[trigger] init[i] is Indent) && !(
        init[i] is Dedent) by {
            assert(init[i] == d[i]);
        }
        lemma_flat_well_nested(init);
        assert(d[d.len() - 1] == d.last());
    }
}

/// Text is well nested.
pub broadcast proof fn lemma_text_well_nested(s: Seq<char>)
    ensures
        #[trigger] well_nested(text_doc(s)),
        highest_nesting(text_doc(s)) == 0,
{
    lemma_flat_well_nested(text_doc(s));
}

/// Documents that are well nested stay so written one after the other.
pub broadcast proof fn lemma_well_nested_concat(a: Seq<Piece>, b: Seq<Piece>)
    requires
        well_nested(a),
        well_nested(b),
    ensures
        #[trigger] well_nested(a + b),
        highest_nesting(a + b) == if highest_nesting(b) > highest_nesting(a) {
            highest_nesting(b)
        } else {
            highest_nesting(a)
        },
{
    lemma_nesting_concat(a, b);
}

/// Written from a state whose level leaves room for the deepest indentation
/// of a document, the document moves the level by exactly its nesting, as long
/// as it never moves further out than where the level started.
pub proof fn lemma_apply_indent(ws: WriterState, d: Seq<Piece>)
    requires
        ws.indent + highest_nesting(d) <= usize::MAX,
        ws.indent + lowest_nesting(d) >= 0,
    ensures
        apply(ws, d).indent == ws.indent + nesting(d),
    decreases d.len(),
{
    if d.len() > 0 {
        let init = d.drop_last();
        lemma_apply_indent(ws, init);
    }
}

/// No document reaches further in than it has pieces.
pub proof fn lemma_highest_nesting_at_most_len(d: Seq<Piece>)
    ensures
        nesting(d) <= d.len(),
        highest_nesting(d) <= d.len(),
    decreases d.len(),
{
    if d.len() > 0 {
        lemma_highest_nesting_at_most_len(d.drop_last());
    }
}

/// Whether a writer standing at the start of a line has written nothing or
/// text that ends with its line ending.
pub open spec fn line_start_after_line_break(ws: WriterState) -> bool {
    ws.line_start ==> (ws.text.len() == 0 || (ws.text.len() >= ws.new_line.len() && ws.text.subrange(
        ws.text.len() - ws.new_line.len(),
        ws.text.len() as int,
    ) == ws.new_line))
}

/// Writing keeps a writer that stands at the start of a line only after a line
/// break (or before any text); a document that ends with a line break leaves
/// the writer at the start of a line.
pub proof fn lemma_apply_line_start(ws: WriterState, d: Seq<Piece>)
    requires
        line_start_after_line_break(ws),
    ensures
        line_start_after_line_break(apply(ws, d)),
        apply(ws, d).new_line == ws.new_line,
        d.len() > 0 && d.last() is Line ==> apply(ws, d).line_start,
    decreases d.len(),
{
    if d.len() > 0 {
        lemma_apply_line_start(ws, d.drop_last());
        let prev = apply(ws, d.drop_last());
        if d.last() is Line && !prev.line_start {
            let t = prev.text + prev.new_line;
            assert(t.subrange(t.len() - prev.new_line.len(), t.len() as int) =~= prev.new_line);
        }
    }
}

/// A document made of one text piece.
pub open spec fn text_doc(s: Seq<char>) -> Seq<Piece> {
    seq![Piece::Text(s)]
}

/// The state of a fresh writer.
pub open spec fn initial_state(new_line: Seq<char>) -> WriterState {
    WriterState { text: Seq::empty(), indent: 0, line_start: true, new_line }
}

/// Writing two documents one after the other is writing their concatenation.
pub proof fn lemma_apply_concat(ws: WriterState, a: Seq<Piece>, b: Seq<Piece>)
    ensures
        apply(ws, a + b) == apply(apply(ws, a), b),
    decreases b.len(),
{
    if b.len() == 0 {
        assert(a + b =~= a);
    } else {
        lemma_apply_concat(ws, a, b.drop_last());
        assert((a + b).drop_last() =~= a + b.drop_last());
        assert((a + b).last() == b.last());
    }
}

/// Whether a document holds no line break and no indentation change.
pub open spec fn is_flat(d: Seq<Piece>) -> bool {
    forall|i: int| 0 <= i < d.len() ==> (#[trigger] d[i]) is Text
}

/// The text of a flat document, its pieces joined.
pub open spec fn flat_text(d: Seq<Piece>) -> Seq<char>
    decreases d.len(),
{
    if d.len() == 0 {
        Seq::empty()
    } else {
        flat_text(d.drop_last()) + d.last()->Text_0
    }
}

/// A flat document appends its joined text, preceded by the indentation when the
/// writer stood at the start of a line and the text is not empty; the indentation
/// level and the line break are unchanged.
pub proof fn lemma_apply_flat(ws: WriterState, d: Seq<Piece>)
    requires
        is_flat(d),
    ensures
        apply(ws, d).text == ws.text + written_text(ws, flat_text(d)),
        apply(ws, d).indent == ws.indent,
        apply(ws, d).new_line == ws.new_line,
        apply(ws, d).line_start == (ws.line_start && flat_text(d).len() == 0),
    decreases d.len(),
{
    if d.len() > 0 {
        let init = d.drop_last();
        assert(is_flat(init)) by {
            assert forall|i: int| 0 <= i < init.len() implies (#[trigger] init[i]) is Text by {
                assert(init[i] == d[i]);
            }
        }
        assert(d[d.len() - 1] is Text);
        lemma_apply_flat(ws, init);
        let prev = apply(ws, init);
        let s = d.last()->Text_0;
        let ft = flat_text(init);
        if s.len() > 0 {
            if ft.len() == 0 {
                assert(flat_text(d) =~= s);
            } else {
                if ws.line_start {
                    assert(ws.text + (indent_text(ws.indent) + ft) + s =~= ws.text + (
                    indent_text(ws.indent) + (ft + s)));
                } else {
                    assert(ws.text + ft + s =~= ws.text + (ft + s));
                }
            }
        } else {
            assert(flat_text(d) =~= ft);
        }
    }
}

/// Builds text the way the printer lays it out: indentation at the start of each
/// line, line breaks only where a line holds text.
pub struct TextWriter {
    text: String,
    indent: usize,
    line_start: bool,
    new_line: String,
    start: Ghost<WriterState>,
    trace: Ghost<Seq<Piece>>,
}

impl View for TextWriter {
    type V = WriterState;

    closed spec fn view(&self) -> WriterState {
        WriterState {
            text: self.text@,
            indent: self.indent as nat,
            line_start: self.line_start,
            new_line: self.new_line@,
        }
    }
}

impl TextWriter {
    /// The state the writer had when it was made or last cleared.
    pub closed spec fn start(&self) -> WriterState {
        self.start@
    }

    /// Everything written since the writer was made or last cleared.
    pub closed spec fn trace(&self) -> Seq<Piece> {
        self.trace@
    }

    /// The writer's state is its start state with its trace written.
    pub closed spec fn wf(&self) -> bool {
        &&& self@ == apply(self.start@, self.trace@)
        &&& self.indent <= usize::MAX
    }

    /// A well-formed writer's state is its start state with its trace written.
    pub proof fn lemma_state(&self)
        requires
            self.wf(),
        ensures
            self@ == apply(self.start(), self.trace()),
    {
    }

    /// A fresh writer that ends lines with `new_line`.
    pub fn new(new_line: &str) -> (w: TextWriter)
        ensures
            w.wf(),
            w@ == initial_state(new_line@),
            w.start() == initial_state(new_line@),
            w.trace() == Seq::<Piece>::empty(),
    {
        let w = TextWriter {
            text: String::new(),
            indent: 0,
            line_start: true,
            new_line: String::from_str(new_line),
            start: Ghost(initial_state(new_line@)),
            trace: Ghost(Seq::empty()),
        };
        proof {
            assert(w@ =~= initial_state(new_line@));
        }
        w
    }

    /// Forgets everything written; the line ending is kept.
    pub fn clear(&mut self)
        ensures
            final(self).wf(),
            final(self)@ == initial_state(old(self)@.new_line),
            final(self).start() == initial_state(old(self)@.new_line),
            final(self).trace() == Seq::<Piece>::empty(),
    {
        self.text = String::new();
        self.indent = 0;
        self.line_start = true;
        self.start = Ghost(initial_state(self.new_line@));
        self.trace = Ghost(Seq::empty());
        proof {
            assert(self@ =~= initial_state(self.new_line@));
        }
    }

    proof fn lemma_push(&self, p: Piece)
        ensures
            apply(self.start@, self.trace@ + seq![p]) == step(apply(self.start@, self.trace@), p),
    {
        assert((self.trace@ + seq![p]).drop_last() =~= self.trace@);
        assert((self.trace@ + seq![p]).last() == p);
    }

    fn append_indent(&mut self, level: usize)
        ensures
            final(self).text@ == old(self).text@ + indent_text(level as nat),
            final(self).indent == old(self).indent,
            final(self).line_start == old(self).line_start,
            final(self).new_line == old(self).new_line,
            final(self).start == old(self).start,
            final(self).trace == old(self).trace,
    {
        let mut i: usize = 0;
        while i < level
            invariant
                i <= level,
                self.text@ == old(self).text@ + indent_text(i as nat),
                self.indent == old(self).indent,
                self.line_start == old(self).line_start,
                self.new_line == old(self).new_line,
                self.start == old(self).start,
                self.trace == old(self).trace,
            decreases level - i,
        {
            let four = "    ";
            proof {
                reveal_strlit("    ");
                assert(four@ =~= seq![' ', ' ', ' ', ' ']);
            }
            self.text.append(four);
            i += 1;
            proof {
                assert(self.text@ =~= old(self).text@ + indent_text(i as nat));
            }
        }
    }

    /// Writes `s`, indenting first when at the start of a line; an empty `s`
    /// writes nothing.
    pub fn write(&mut self, s: &str)
        requires
            old(self).wf(),
        ensures
            final(self).wf(),
            final(self).start() == old(self).start(),
            appends(old(self).trace(), final(self).trace(), text_doc(s@)),
            final(self)@ == step(old(self)@, Piece::Text(s@)),
    {
        proof {
            self.lemma_push(Piece::Text(s@));
        }
        let ghost old_state = self@;
        if !s.is_empty() {
            if self.line_start {
                self.append_indent(self.indent);
                self.line_start = false;
            }
            self.text.append(s);
            self.line_start = false;
            proof {
                if old_state.line_start {
                    assert(self.text@ =~= old_state.text + (indent_text(old_state.indent) + s@));
                }
            }
        }
        self.trace = Ghost(self.trace@ + seq![Piece::Text(s@)]);
        proof {
            assert(self@ =~= step(old_state, Piece::Text(s@)));
        }
    }

    /// Ends the current line; nothing happens at the start of a line.
    pub fn write_line(&mut self)
        requires
            old(self).wf(),
        ensures
            final(self).wf(),
            final(self).start() == old(self).start(),
            appends(old(self).trace(), final(self).trace(), seq![Piece::Line]),
            final(self)@ == step(old(self)@, Piece::Line),
    {
        proof {
            self.lemma_push(Piece::Line);
        }
        let ghost old_state = self@;
        if !self.line_start {
            self.text.append(self.new_line.as_str());
            self.line_start = true;
        }
        self.trace = Ghost(self.trace@ + seq![Piece::Line]);
        proof {
            assert(self@ =~= step(old_state, Piece::Line));
        }
    }

    /// Moves following lines one level further in.
    pub fn increase_indent(&mut self)
        requires
            old(self).wf(),
        ensures
            final(self).wf(),
            final(self).start() == old(self).start(),
            appends(old(self).trace(), final(self).trace(), seq![Piece::Indent]),
            final(self)@ == step(old(self)@, Piece::Indent),
    {
        proof {
            self.lemma_push(Piece::Indent);
        }
        let ghost old_state = self@;
        if self.indent < usize::MAX {
            self.indent = self.indent + 1;
        }
        self.trace = Ghost(self.trace@ + seq![Piece::Indent]);
        proof {
            assert(self@ =~= step(old_state, Piece::Indent));
        }
    }

    /// Moves following lines one level back out; nothing happens at level 0.
    pub fn decrease_indent(&mut self)
        requires
            old(self).wf(),
        ensures
            final(self).wf(),
            final(self).start() == old(self).start(),
            appends(old(self).trace(), final(self).trace(), seq![Piece::Dedent]),
            final(self)@ == step(old(self)@, Piece::Dedent),
    {
        proof {
            self.lemma_push(Piece::Dedent);
        }
        let ghost old_state = self@;
        if self.indent > 0 {
            self.indent = self.indent - 1;
        }
        self.trace = Ghost(self.trace@ + seq![Piece::Dedent]);
        proof {
            assert(self@ =~= step(old_state, Piece::Dedent));
        }
    }

    /// The current indentation level.
    pub fn get_indent(&self) -> (r: usize)
        ensures
            r as nat == self@.indent,
    {
        self.indent
    }

    /// Whether nothing has been written on the current line.
    pub fn is_at_start_of_line(&self) -> (r: bool)
        ensures
            r == self@.line_start,
    {
        self.line_start
    }

    /// The text written so far.
    pub fn string(&self) -> (r: String)
        ensures
            r@ == self@.text,
    {
        self.text.clone()
    }

    /// Writes a keyword.
    pub fn write_keyword(&mut self, s: &str)
        requires
            old(self).wf(),
        ensures
            final(self).wf(),
            final(self).start() == old(self).start(),
            appends(old(self).trace(), final(self).trace(), text_doc(s@)),
    {
        self.write(s)
    }

    /// Writes an operator.
    pub fn write_operator(&mut self, s: &str)
        requires
            old(self).wf(),
        ensures
            final(self).wf(),
            final(self).start() == old(self).start(),
            appends(old(self).trace(), final(self).trace(), text_doc(s@)),
    {
        self.write(s)
    }

    /// Writes punctuation.
    pub fn write_punctuation(&mut self, s: &str)
        requires
            old(self).wf(),
        ensures
            final(self).wf(),
            final(self).start() == old(self).start(),
            appends(old(self).trace(), final(self).trace(), text_doc(s@)),
    {
        self.write(s)
    }

    /// Writes white space.
    pub fn write_space(&mut self, s: &str)
        requires
            old(self).wf(),
        ensures
            final(self).wf(),
            final(self).start() == old(self).start(),
            appends(old(self).trace(), final(self).trace(), text_doc(s@)),
    {
        self.write(s)
    }

    /// Writes the semicolon that ends a statement.
    pub fn write_trailing_semicolon(&mut self, s: &str)
        requires
            old(self).wf(),
        ensures
            final(self).wf(),
            final(self).start() == old(self).start(),
            appends(old(self).trace(), final(self).trace(), text_doc(s@)),
    {
        self.write(s)
    }

    /// Writes the text of a literal.
    pub fn write_literal(&mut self, s: &str)
        requires
            old(self).wf(),
        ensures
            final(self).wf(),
            final(self).start() == old(self).start(),
            appends(old(self).trace(), final(self).trace(), text_doc(s@)),
    {
        self.write(s)
    }

    /// Writes the text of a name.
    pub fn write_symbol(&mut self, s: &str)
        requires
            old(self).wf(),
        ensures
            final(self).wf(),
            final(self).start() == old(self).start(),
            appends(old(self).trace(), final(self).trace(), text_doc(s@)),
    {
        self.write(s)
    }
}

/// The pieces `write_lines_and_indent_to_writer` writes.
pub open spec fn lines_and_indent_doc(line_count: int, write_space_if_not_indenting: bool) -> Seq<
    Piece,
> {
    if line_count > 0 {
        seq![Piece::Indent] + Seq::new(line_count as nat, |i: int| Piece::Line)
    } else if write_space_if_not_indenting {
        text_doc(seq![' '])
    } else {
        Seq::empty()
    }
}

/// Indents and breaks `line_count` lines, or writes one space (when asked) where
/// no line is broken.
pub fn write_lines_and_indent_to_writer(
    writer: &mut TextWriter,
    line_count: i32,
    write_space_if_not_indenting: bool,
)
    requires
        old(writer).wf(),
    ensures
        final(writer).wf(),
        final(writer).start() == old(writer).start(),
        appends(old(writer).trace(), final(writer).trace(), lines_and_indent_doc(
            line_count as int,
            write_space_if_not_indenting,
        )),
{
    if line_count > 0 {
        writer.increase_indent();
        let mut i: i32 = 0;
        while i < line_count
            invariant
                0 <= i <= line_count,
                writer.wf(),
                writer.start() == old(writer).start(),
                writer.trace() == old(writer).trace() + seq![Piece::Indent] + Seq::new(
                    i as nat,
                    |k: int| Piece::Line,
                ),
            decreases line_count - i,
        {
            writer.write_line();
            i += 1;
            proof {
                assert(writer.trace() =~= old(writer).trace() + seq![Piece::Indent] + Seq::new(
                    i as nat,
                    |k: int| Piece::Line,
                ));
            }
        }
        proof {
            assert(writer.trace() =~= old(writer).trace() + lines_and_indent_doc(
                line_count as int,
                write_space_if_not_indenting,
            ));
        }
    } else if write_space_if_not_indenting {
        let space = " ";
        proof {
            reveal_strlit(" ");
        }
        writer.write_space(space);
        proof {
            assert(space@ =~= seq![' ']);
            assert(writer.trace() =~= old(writer).trace() + lines_and_indent_doc(
                line_count as int,
                write_space_if_not_indenting,
            ));
        }
    } else {
        proof {
            assert(writer.trace() =~= old(writer).trace() + lines_and_indent_doc(
                line_count as int,
                write_space_if_not_indenting,
            ));
        }
    }
}

} // verus!
