use vstd::prelude::*;

verus! {

/// A span of source text; a negative `pos` marks a span that has no place in any
/// source (a synthesized node).
#[derive(Clone, Copy, Debug, PartialEq, Eq)]
pub struct TextRange {
    pub pos: i32,
    pub end: i32,
}

impl TextRange {
    /// A range from `pos` to `end`.
    pub fn new(pos: i32, end: i32) -> (r: TextRange)
        ensures
            r.pos == pos,
            r.end == end,
    {
        TextRange { pos, end }
    }
}

/// Whether a position stands for no place in the source.
pub open spec fn position_is_synthesized(pos: int) -> bool {
    pos < 0
}

/// Characters that end a line.
pub open spec fn is_line_break(c: char) -> bool {
    c == '\n' || c == '\r' || c == '\u{2028}' || c == '\u{2029}'
}

/// White space that does not end a line.
pub open spec fn is_white_space_single_line(c: char) -> bool {
    ||| c == ' '
    ||| c == '\t'
    ||| c == '\u{000B}'
    ||| c == '\u{000C}'
    ||| c == '\u{00A0}'
    ||| c == '\u{0085}'
    ||| c == '\u{1680}'
    ||| ('\u{2000}' <= c && c <= '\u{200B}')
    ||| c == '\u{202F}'
    ||| c == '\u{205F}'
    ||| c == '\u{3000}'
    ||| c == '\u{FEFF}'
}

/// White space of any kind, line breaks included.
pub open spec fn is_white_space_like(c: char) -> bool {
    is_white_space_single_line(c) || is_line_break(c)
}

/// Whether `c` ends a line.
pub fn char_is_line_break(c: char) -> (r: bool)
    ensures
        r == is_line_break(c),
{
    c == '\n' || c == '\r' || c == '\u{2028}' || c == '\u{2029}'
}

/// Whether `c` is white space that does not end a line.
pub fn char_is_white_space_single_line(c: char) -> (r: bool)
    ensures
        r == is_white_space_single_line(c),
{
    c == ' ' || c == '\t' || c == '\u{000B}' || c == '\u{000C}' || c == '\u{00A0}' || c
        == '\u{0085}' || c == '\u{1680}' || ('\u{2000}' <= c && c <= '\u{200B}') || c
        == '\u{202F}' || c == '\u{205F}' || c == '\u{3000}' || c == '\u{FEFF}'
}

/// Whether `c` is white space of any kind.
pub fn char_is_white_space_like(c: char) -> (r: bool)
    ensures
        r == is_white_space_like(c),
{
    char_is_white_space_single_line(c) || char_is_line_break(c)
}

/// Whether a line starts at `p`: at 0, and after each line break, a carriage
/// return followed by a line feed counting as one break.
pub open spec fn is_line_start(text: Seq<char>, p: int) -> bool {
    ||| p == 0
    ||| {
        &&& 0 < p <= text.len()
        &&& is_line_break(text[p - 1])
        &&& !(text[p - 1] == '\r' && p < text.len() && text[p] == '\n')
    }
}

/// The line starts among the positions `0..=n`, in order.
pub open spec fn line_starts_upto(text: Seq<char>, n: nat) -> Seq<usize>
    decreases n,
{
    if n == 0 {
        seq![0usize]
    } else if is_line_start(text, n as int) {
        line_starts_upto(text, (n - 1) as nat).push(n as usize)
    } else {
        line_starts_upto(text, (n - 1) as nat)
    }
}

/// The positions at which the lines of `text` start, in order.
pub open spec fn line_starts(text: Seq<char>) -> Seq<usize> {
    line_starts_upto(text, text.len())
}

/// Whether `s` is strictly increasing and starts with 0.
pub open spec fn is_line_map(s: Seq<usize>) -> bool {
    &&& s.len() > 0
    &&& s[0] == 0
    &&& forall|i: int, j: int| 0 <= i < j < s.len() ==> s[i] < s[j]
}

/// The line that holds `pos`: the last index whose line start is at or before
/// `pos` (-1 when there is none).
pub open spec fn line_of(starts: Seq<usize>, pos: int) -> int
    decreases starts.len(),
{
    if starts.len() == 0 {
        -1
    } else if starts.last() <= pos {
        starts.len() - 1
    } else {
        line_of(starts.drop_last(), pos)
    }
}

proof fn lemma_line_starts_upto(text: Seq<char>, n: nat)
    requires
        n <= text.len(),
        text.len() < usize::MAX,
    ensures
        is_line_map(line_starts_upto(text, n)),
        forall|i: int|
            0 <= i < line_starts_upto(text, n).len() ==> #[trigger] line_starts_upto(text, n)[i]
                <= n,
        line_starts_upto(text, n).len() <= n + 1,
    decreases n,
{
    if n > 0 {
        lemma_line_starts_upto(text, (n - 1) as nat);
    }
}

/// Characterizes `line_of` on a line map.
proof fn lemma_line_of(starts: Seq<usize>, pos: int, i: int)
    requires
        is_line_map(starts),
        0 <= i < starts.len(),
        starts[i] <= pos,
        i + 1 == starts.len() || pos < starts[i + 1],
    ensures
        line_of(starts, pos) == i,
    decreases starts.len(),
{
    if i + 1 < starts.len() {
        let init = starts.drop_last();
        assert(starts.last() > pos) by {
            if i + 1 < starts.len() - 1 {
                assert(starts[i + 1] < starts[starts.len() - 1]);
            }
        }
        assert(is_line_map(init)) by {
            assert forall|a: int, b: int| 0 <= a < b < init.len() implies init[a] < init[b] by {
                assert(init[a] == starts[a] && init[b] == starts[b]);
            }
        }
        lemma_line_of(init, pos, i);
    }
}

/// The line of any position at or after 0 is a line of the map.
proof fn lemma_line_of_bounds(starts: Seq<usize>, pos: int)
    requires
        is_line_map(starts),
        pos >= 0,
    ensures
        0 <= line_of(starts, pos) < starts.len(),
    decreases starts.len(),
{
    if starts.len() > 1 && starts.last() > pos {
        let init = starts.drop_last();
        assert(is_line_map(init)) by {
            assert forall|a: int, b: int| 0 <= a < b < init.len() implies init[a] < init[b] by {
                assert(init[a] == starts[a] && init[b] == starts[b]);
            }
        }
        lemma_line_of_bounds(init, pos);
    }
}

/// `line_of` never decreases as the position grows.
pub proof fn lemma_line_of_monotonic(starts: Seq<usize>, p: int, q: int)
    requires
        p <= q,
    ensures
        line_of(starts, p) <= line_of(starts, q),
    decreases starts.len(),
{
    if starts.len() > 0 {
        if starts.last() <= p {
        } else if starts.last() <= q {
            lemma_line_of_le_len(starts.drop_last(), p);
        } else {
            lemma_line_of_monotonic(starts.drop_last(), p, q);
        }
    }
}

proof fn lemma_line_of_le_len(starts: Seq<usize>, p: int)
    ensures
        line_of(starts, p) < starts.len(),
    decreases starts.len(),
{
    if starts.len() > 0 {
        lemma_line_of_le_len(starts.drop_last(), p);
    }
}

/// Finds the line that holds `pos` by binary search over the line starts.
pub fn compute_line_of_position(line_starts: &Vec<usize>, pos: usize) -> (r: usize)
    requires
        is_line_map(line_starts@),
    ensures
        r as int == line_of(line_starts@, pos as int),
        r < line_starts@.len(),
{
    let mut low: usize = 0;
    let mut high: usize = line_starts.len();
    while low + 1 < high
        invariant
            is_line_map(line_starts@),
            low < high <= line_starts@.len(),
            line_starts@[low as int] <= pos,
            high == line_starts@.len() || pos < line_starts@[high as int],
        decreases high - low,
    {
        let mid = low + (high - low) / 2;
        if line_starts[mid] <= pos {
            low = mid;
        } else {
            high = mid;
        }
    }
    proof {
        lemma_line_of(line_starts@, pos as int, low as int);
    }
    low
}


/// Where a trivia scan stands: in code, in a `//` comment, or in a `/* */` comment.
pub open spec fn skip_trivia_from(
    text: Seq<char>,
    pos: int,
    mode: u8,
    stop_after_line_break: bool,
    stop_at_comments: bool,
) -> int
    decreases text.len() - pos, mode,
{
    if pos < 0 || pos >= text.len() {
        pos
    } else if mode == 1 {
        if is_line_break(text[pos]) {
            skip_trivia_from(text, pos, 0, stop_after_line_break, stop_at_comments)
        } else {
            skip_trivia_from(text, pos + 1, 1, stop_after_line_break, stop_at_comments)
        }
    } else if mode == 2 {
        if text[pos] == '*' && pos + 1 < text.len() && text[pos + 1] == '/' {
            skip_trivia_from(text, pos + 2, 0, stop_after_line_break, stop_at_comments)
        } else {
            skip_trivia_from(text, pos + 1, 2, stop_after_line_break, stop_at_comments)
        }
    } else {
        let c = text[pos];
        if c == '\r' || c == '\n' {
            let next = if c == '\r' && pos + 1 < text.len() && text[pos + 1] == '\n' {
                pos + 2
            } else {
                pos + 1
            };
            if stop_after_line_break {
                next
            } else {
                skip_trivia_from(text, next, 0, stop_after_line_break, stop_at_comments)
            }
        } else if c == '\t' || c == '\u{000B}' || c == '\u{000C}' || c == ' ' {
            skip_trivia_from(text, pos + 1, 0, stop_after_line_break, stop_at_comments)
        } else if c == '/' && !stop_at_comments && pos + 1 < text.len() && text[pos + 1] == '/' {
            skip_trivia_from(text, pos + 2, 1, stop_after_line_break, stop_at_comments)
        } else if c == '/' && !stop_at_comments && pos + 1 < text.len() && text[pos + 1] == '*' {
            skip_trivia_from(text, pos + 2, 2, stop_after_line_break, stop_at_comments)
        } else if c > '\u{7F}' && is_white_space_like(c) {
            skip_trivia_from(text, pos + 1, 0, stop_after_line_break, stop_at_comments)
        } else {
            pos
        }
    }
}

/// The first position at or after `pos` that is not white space, a line break or
/// a comment; `stop_after_line_break` stops just past the first line break, and
/// `stop_at_comments` treats comments as text.
pub open spec fn skip_trivia_spec(
    text: Seq<char>,
    pos: int,
    stop_after_line_break: bool,
    stop_at_comments: bool,
) -> int {
    skip_trivia_from(text, pos, 0, stop_after_line_break, stop_at_comments)
}

proof fn lemma_skip_trivia_from_bounds(
    text: Seq<char>,
    pos: int,
    mode: u8,
    a: bool,
    b: bool,
)
    requires
        0 <= pos,
    ensures
        pos <= skip_trivia_from(text, pos, mode, a, b),
        pos <= text.len() ==> skip_trivia_from(text, pos, mode, a, b) <= text.len(),
    decreases text.len() - pos, mode,
{
    if pos < text.len() {
        let c = text[pos];
        if mode == 1 {
            if is_line_break(c) {
                lemma_skip_trivia_from_bounds(text, pos, 0, a, b);
            } else {
                lemma_skip_trivia_from_bounds(text, pos + 1, 1, a, b);
            }
        } else if mode == 2 {
            if c == '*' && pos + 1 < text.len() && text[pos + 1] == '/' {
                lemma_skip_trivia_from_bounds(text, pos + 2, 0, a, b);
            } else {
                lemma_skip_trivia_from_bounds(text, pos + 1, 2, a, b);
            }
        } else if c == '\r' || c == '\n' {
            let next = if c == '\r' && pos + 1 < text.len() && text[pos + 1] == '\n' {
                pos + 2
            } else {
                pos + 1
            };
            if !a {
                lemma_skip_trivia_from_bounds(text, next, 0, a, b);
            }
        } else if c == '\t' || c == '\u{000B}' || c == '\u{000C}' || c == ' ' {
            lemma_skip_trivia_from_bounds(text, pos + 1, 0, a, b);
        } else if c == '/' && !b && pos + 1 < text.len() && text[pos + 1] == '/' {
            lemma_skip_trivia_from_bounds(text, pos + 2, 1, a, b);
        } else if c == '/' && !b && pos + 1 < text.len() && text[pos + 1] == '*' {
            lemma_skip_trivia_from_bounds(text, pos + 2, 2, a, b);
        } else if c > '\u{7F}' && is_white_space_like(c) {
            lemma_skip_trivia_from_bounds(text, pos + 1, 0, a, b);
        }
    }
}

/// Skips white space, line breaks and comments from `pos`, as `skip_trivia_spec`
/// states.
pub fn skip_trivia(
    text: &Vec<char>,
    pos: usize,
    stop_after_line_break: bool,
    stop_at_comments: bool,
) -> (r: usize)
    requires
        text@.len() < usize::MAX,
    ensures
        r as int == skip_trivia_spec(text@, pos as int, stop_after_line_break, stop_at_comments),
        pos <= r,
        pos <= text@.len() ==> r <= text@.len(),
{
    proof {
        lemma_skip_trivia_from_bounds(text@, pos as int, 0, stop_after_line_break, stop_at_comments);
    }
    let len = text.len();
    let mut p = pos;
    let mut mode: u8 = 0;
    loop
        invariant
            len == text@.len(),
            len < usize::MAX,
            mode <= 2,
            pos <= p,
            pos <= len ==> skip_trivia_spec(text@, pos as int, stop_after_line_break, stop_at_comments)
                <= len,
            skip_trivia_from(text@, p as int, mode, stop_after_line_break, stop_at_comments)
                == skip_trivia_spec(text@, pos as int, stop_after_line_break, stop_at_comments),
        decreases len - p, mode,
    {
        if p >= len {
            return p;
        }
        let c = text[p];
        if mode == 1 {
            if char_is_line_break(c) {
                mode = 0;
            } else {
                p = p + 1;
            }
        } else if mode == 2 {
            if c == '*' && p + 1 < len && text[p + 1] == '/' {
                p = p + 2;
                mode = 0;
            } else {
                p = p + 1;
            }
        } else if c == '\r' || c == '\n' {
            let next = if c == '\r' && p + 1 < len && text[p + 1] == '\n' {
                p + 2
            } else {
                p + 1
            };
            if stop_after_line_break {
                return next;
            }
            p = next;
        } else if c == '\t' || c == '\u{000B}' || c == '\u{000C}' || c == ' ' {
            p = p + 1;
        } else if c == '/' && !stop_at_comments && p + 1 < len && text[p + 1] == '/' {
            p = p + 2;
            mode = 1;
        } else if c == '/' && !stop_at_comments && p + 1 < len && text[p + 1] == '*' {
            p = p + 2;
            mode = 2;
        } else if c > '\u{7F}' && char_is_white_space_like(c) {
            p = p + 1;
        } else {
            return p;
        }
    }
}

/// A source text with the start position of each of its lines.
pub struct SourceFile {
    file_name: String,
    text: Vec<char>,
    line_map: Vec<usize>,
}

impl SourceFile {
    #[verifier::type_invariant]
    spec fn well_formed(self) -> bool {
        &&& self.text@.len() < i32::MAX
        &&& self.line_map@ == line_starts(self.text@)
    }

    /// The characters of the source.
    pub closed spec fn spec_text(&self) -> Seq<char> {
        self.text@
    }

    /// The name the source was given.
    pub closed spec fn spec_file_name(&self) -> Seq<char> {
        self.file_name@
    }

    /// Reads `text` under `file_name`, finding where its lines start.
    pub fn new(file_name: &str, text: Vec<char>) -> (r: SourceFile)
        requires
            text@.len() < i32::MAX,
        ensures
            r.spec_text() == text@,
            r.spec_file_name() == file_name@,
            r.spec_line_map() == line_starts(text@),
    {
        let len = text.len();
        let mut line_map: Vec<usize> = Vec::new();
        line_map.push(0);
        let mut p: usize = 1;
        while p <= len
            invariant
                len == text@.len(),
                len < i32::MAX,
                1 <= p <= len + 1,
                line_map@ == line_starts_upto(text@, (p - 1) as nat),
            decreases len + 1 - p,
        {
            let prev = text[p - 1];
            let breaks = char_is_line_break(prev) && !(prev == '\r' && p < len && text[p] == '\n');
            if breaks {
                line_map.push(p);
            }
            p = p + 1;
        }
        SourceFile { file_name: String::from_str(file_name), text, line_map }
    }

    /// The positions at which the lines of the source start.
    pub closed spec fn spec_line_map(&self) -> Seq<usize> {
        self.line_map@
    }

    /// The characters of the source.
    pub fn text(&self) -> (r: &Vec<char>)
        ensures
            r@ == self.spec_text(),
            r@.len() < i32::MAX,
    {
        proof {
            use_type_invariant(self);
        }
        &self.text
    }

    /// The name the source was given.
    pub fn file_name(&self) -> (r: &String)
        ensures
            r@ == self.spec_file_name(),
    {
        &self.file_name
    }

    /// The positions at which the lines of the source start.
    pub fn ecma_line_map(&self) -> (r: &Vec<usize>)
        ensures
            r@ == self.spec_line_map(),
            r@ == line_starts(self.spec_text()),
            is_line_map(r@),
            r@.len() <= self.spec_text().len() + 1,
            self.spec_text().len() < i32::MAX,
    {
        proof {
            use_type_invariant(self);
            lemma_line_starts_upto(self.text@, self.text@.len());
        }
        &self.line_map
    }

}

/// Where the text of a range starts once leading trivia is skipped; -1 for a
/// synthesized range.
pub open spec fn start_position_of_range(text: Seq<char>, r: TextRange, include_comments: bool) -> int {
    if position_is_synthesized(r.pos as int) {
        -1
    } else {
        skip_trivia_spec(text, r.pos as int, false, include_comments)
    }
}

/// Two positions whose line distance is defined: equal, or both in the source.
pub open spec fn positions_comparable(p1: int, p2: int) -> bool {
    p1 == p2 || (p1 >= 0 && p2 >= 0)
}

/// How many lines lie between `p1` and `p2`: positive when `p2` is on a later
/// line, negative when on an earlier one.
pub open spec fn lines_between(starts: Seq<usize>, p1: int, p2: int) -> int {
    if p1 == p2 {
        0
    } else {
        line_of(starts, p2) - line_of(starts, p1)
    }
}

/// Counts the lines between two positions of `source_file`.
pub fn get_lines_between_positions(source_file: &SourceFile, pos1: i32, pos2: i32) -> (r: i32)
    requires
        positions_comparable(pos1 as int, pos2 as int),
    ensures
        r as int == lines_between(source_file.spec_line_map(), pos1 as int, pos2 as int),
{
    if pos1 == pos2 {
        return 0;
    }
    let line_starts = source_file.ecma_line_map();
    let lower = if pos1 < pos2 {
        pos1
    } else {
        pos2
    };
    let is_negative = lower == pos2;
    let upper = if is_negative {
        pos1
    } else {
        pos2
    };
    let lower_line = compute_line_of_position(line_starts, lower as usize);
    let upper_line = compute_line_of_position(line_starts, upper as usize);
    if is_negative {
        lower_line as i32 - upper_line as i32
    } else {
        upper_line as i32 - lower_line as i32
    }
}

/// Whether two positions of `source_file` are on one line.
pub fn positions_are_on_same_line(pos1: i32, pos2: i32, source_file: &SourceFile) -> (r: bool)
    requires
        positions_comparable(pos1 as int, pos2 as int),
    ensures
        r == (lines_between(source_file.spec_line_map(), pos1 as int, pos2 as int) == 0),
{
    get_lines_between_positions(source_file, pos1, pos2) == 0
}

/// Where the text of `r` starts in `source_file`, past its leading trivia (and
/// past comments unless `include_comments`); -1 for a synthesized range.
pub fn get_start_position_of_range(r: TextRange, source_file: &SourceFile, include_comments: bool) -> (res: i32)
    ensures
        res as int == start_position_of_range(source_file.spec_text(), r, include_comments),
        res >= -1,
{
    if r.pos < 0 {
        return -1;
    }
    let text = source_file.text();
    let p = skip_trivia(text, r.pos as usize, false, include_comments);
    proof {
        if r.pos as int > text@.len() {
            assert(skip_trivia_spec(text@, r.pos as int, false, include_comments) == r.pos as int);
        }
    }
    p as i32
}

/// Whether the text of `r` starts and ends on one line.
pub fn range_is_on_single_line(r: TextRange, source_file: &SourceFile) -> (res: bool)
    requires
        positions_comparable(
            start_position_of_range(source_file.spec_text(), r, false),
            r.end as int,
        ),
    ensures
        res == (lines_between(
            source_file.spec_line_map(),
            start_position_of_range(source_file.spec_text(), r, false),
            r.end as int,
        ) == 0),
{
    range_start_is_on_same_line_as_range_end(r, r, source_file)
}

/// Whether the texts of two ranges start on one line.
pub fn range_start_positions_are_on_same_line(
    range1: TextRange,
    range2: TextRange,
    source_file: &SourceFile,
) -> (res: bool)
    requires
        positions_comparable(
            start_position_of_range(source_file.spec_text(), range1, false),
            start_position_of_range(source_file.spec_text(), range2, false),
        ),
    ensures
        res == (lines_between(
            source_file.spec_line_map(),
            start_position_of_range(source_file.spec_text(), range1, false),
            start_position_of_range(source_file.spec_text(), range2, false),
        ) == 0),
{
    positions_are_on_same_line(
        get_start_position_of_range(range1, source_file, false),
        get_start_position_of_range(range2, source_file, false),
        source_file,
    )
}

/// Whether two ranges end on one line.
pub fn range_end_positions_are_on_same_line(
    range1: TextRange,
    range2: TextRange,
    source_file: &SourceFile,
) -> (res: bool)
    requires
        positions_comparable(range1.end as int, range2.end as int),
    ensures
        res == (lines_between(source_file.spec_line_map(), range1.end as int, range2.end as int)
            == 0),
{
    positions_are_on_same_line(range1.end, range2.end, source_file)
}

/// Whether the text of `range1` starts on the line where `range2` ends.
pub fn range_start_is_on_same_line_as_range_end(
    range1: TextRange,
    range2: TextRange,
    source_file: &SourceFile,
) -> (res: bool)
    requires
        positions_comparable(
            start_position_of_range(source_file.spec_text(), range1, false),
            range2.end as int,
        ),
    ensures
        res == (lines_between(
            source_file.spec_line_map(),
            start_position_of_range(source_file.spec_text(), range1, false),
            range2.end as int,
        ) == 0),
{
    positions_are_on_same_line(
        get_start_position_of_range(range1, source_file, false),
        range2.end,
        source_file,
    )
}

/// Whether `range1` ends on the line where the text of `range2` starts.
pub fn range_end_is_on_same_line_as_range_start(
    range1: TextRange,
    range2: TextRange,
    source_file: &SourceFile,
) -> (res: bool)
    requires
        positions_comparable(
            range1.end as int,
            start_position_of_range(source_file.spec_text(), range2, false),
        ),
    ensures
        res == (lines_between(
            source_file.spec_line_map(),
            range1.end as int,
            start_position_of_range(source_file.spec_text(), range2, false),
        ) == 0),
{
    positions_are_on_same_line(
        range1.end,
        get_start_position_of_range(range2, source_file, false),
        source_file,
    )
}

/// Counts the lines from the end of `range1` to the start of the text of `range2`.
pub fn get_lines_between_range_end_and_range_start(
    range1: TextRange,
    range2: TextRange,
    source_file: &SourceFile,
    include_second_range_comments: bool,
) -> (res: i32)
    requires
        positions_comparable(
            range1.end as int,
            start_position_of_range(source_file.spec_text(), range2, include_second_range_comments),
        ),
    ensures
        res as int == lines_between(
            source_file.spec_line_map(),
            range1.end as int,
            start_position_of_range(source_file.spec_text(), range2, include_second_range_comments),
        ),
{
    let range2_start = get_start_position_of_range(range2, source_file, include_second_range_comments);
    get_lines_between_positions(source_file, range1.end, range2_start)
}

/// The last position from `pos` down to `stop_pos` that holds a character other
/// than white space; -1 when there is none.
pub open spec fn previous_non_whitespace_position(text: Seq<char>, pos: int, stop_pos: int) -> int
    decreases pos - stop_pos + 1,
{
    if pos < stop_pos {
        -1
    } else if 0 <= pos < text.len() && !is_white_space_like(text[pos]) {
        pos
    } else {
        previous_non_whitespace_position(text, pos - 1, stop_pos)
    }
}

proof fn lemma_previous_non_whitespace_bounds(text: Seq<char>, pos: int, stop_pos: int)
    ensures
        previous_non_whitespace_position(text, pos, stop_pos) == -1 || (stop_pos
            <= previous_non_whitespace_position(text, pos, stop_pos) <= pos
            && 0 <= previous_non_whitespace_position(text, pos, stop_pos)),
    decreases pos - stop_pos + 1,
{
    if pos >= stop_pos && !(0 <= pos < text.len() && !is_white_space_like(text[pos])) {
        lemma_previous_non_whitespace_bounds(text, pos - 1, stop_pos);
    }
}

/// Walks back from `pos` to `stop_pos` to the first character that is not white
/// space.
pub fn get_previous_non_whitespace_position(pos: i32, stop_pos: i32, source_file: &SourceFile) -> (r: i32)
    requires
        stop_pos > i32::MIN,
    ensures
        r as int == previous_non_whitespace_position(source_file.spec_text(), pos as int, stop_pos as int),
{
    let text = source_file.text();
    let mut p = pos;
    while p >= stop_pos
        invariant
            text@ == source_file.spec_text(),
            stop_pos > i32::MIN,
            previous_non_whitespace_position(text@, p as int, stop_pos as int)
                == previous_non_whitespace_position(text@, pos as int, stop_pos as int),
        decreases p - stop_pos + 1,
    {
        if p >= 0 && (p as usize) < text.len() {
            if !char_is_white_space_like(text[p as usize]) {
                return p;
            }
        }
        p = p - 1;
    }
    -1
}

/// Counts the lines between the first character before `pos` (not before
/// `stop_pos`) that is not white space and the start of the text at `pos`.
pub fn get_lines_between_position_and_preceding_non_whitespace_character(
    pos: i32,
    stop_pos: i32,
    source_file: &SourceFile,
    include_comments: bool,
) -> (r: i32)
    requires
        pos >= 0,
        stop_pos >= 0,
    ensures
        ({
            let text = source_file.spec_text();
            let start = skip_trivia_spec(text, pos as int, false, include_comments);
            let prev = previous_non_whitespace_position(text, start, stop_pos as int);
            r as int == lines_between(
                source_file.spec_line_map(),
                if prev >= 0 {
                    prev
                } else {
                    stop_pos as int
                },
                start,
            )
        }),
{
    let text = source_file.text();
    let start = skip_trivia(text, pos as usize, false, include_comments);
    proof {
        if pos as int > text@.len() {
            assert(skip_trivia_spec(text@, pos as int, false, include_comments) == pos as int);
        }
    }
    let start_pos = start as i32;
    let prev_pos = get_previous_non_whitespace_position(start_pos, stop_pos, source_file);
    proof {
        lemma_previous_non_whitespace_bounds(text@, start_pos as int, stop_pos as int);
    }
    get_lines_between_positions(
        source_file,
        if prev_pos >= 0 {
            prev_pos
        } else {
            stop_pos
        },
        start_pos,
    )
}

/// Counts the lines between `pos` and the next character that is not white
/// space, looking no further than `stop_pos`.
pub fn get_lines_between_position_and_next_non_whitespace_character(
    pos: i32,
    stop_pos: i32,
    source_file: &SourceFile,
    include_comments: bool,
) -> (r: i32)
    requires
        pos >= 0,
        stop_pos >= 0,
    ensures
        ({
            let next = skip_trivia_spec(source_file.spec_text(), pos as int, false, include_comments);
            r as int == lines_between(
                source_file.spec_line_map(),
                pos as int,
                if stop_pos < next {
                    stop_pos as int
                } else {
                    next
                },
            )
        }),
{
    let text = source_file.text();
    let next = skip_trivia(text, pos as usize, false, include_comments);
    proof {
        if pos as int > text@.len() {
            assert(skip_trivia_spec(text@, pos as int, false, include_comments) == pos as int);
        }
    }
    let next_pos = next as i32;
    get_lines_between_positions(
        source_file,
        pos,
        if stop_pos < next_pos {
            stop_pos
        } else {
            next_pos
        },
    )
}

/// The largest of `end` and the ends of `ranges`.
pub open spec fn greatest_end_spec(end: int, ranges: Seq<TextRange>) -> int
    decreases ranges.len(),
{
    if ranges.len() == 0 {
        end
    } else {
        let rest = greatest_end_spec(end, ranges.drop_last());
        if ranges.last().end as int > rest {
            ranges.last().end as int
        } else {
            rest
        }
    }
}

/// The largest of `end` and the ends of `ranges`.
pub fn greatest_end(end: i32, ranges: &Vec<TextRange>) -> (r: i32)
    ensures
        r as int == greatest_end_spec(end as int, ranges@),
{
    let mut result = end;
    let mut i: usize = 0;
    while i < ranges.len()
        invariant
            i <= ranges@.len(),
            result as int == greatest_end_spec(end as int, ranges@.take(i as int)),
        decreases ranges@.len() - i,
    {
        proof {
            assert(ranges@.take(i + 1).drop_last() =~= ranges@.take(i as int));
        }
        if ranges[i].end > result {
            result = ranges[i].end;
        }
        i += 1;
    }
    proof {
        assert(ranges@.take(ranges@.len() as int) =~= ranges@);
    }
    result
}

/// Counting lines the other way round gives the negated count.
pub proof fn lemma_lines_between_antisymmetric(starts: Seq<usize>, p1: int, p2: int)
    ensures
        lines_between(starts, p1, p2) == -lines_between(starts, p2, p1),
{
}

/// Counting from an earlier position to a later one gives no negative count.
pub proof fn lemma_lines_between_forward(starts: Seq<usize>, p1: int, p2: int)
    requires
        p1 <= p2,
    ensures
        lines_between(starts, p1, p2) >= 0,
{
    lemma_line_of_monotonic(starts, p1, p2);
}

/// Two positions on one line are on one line whichever is named first.
pub proof fn lemma_same_line_symmetric(starts: Seq<usize>, p1: int, p2: int)
    ensures
        (lines_between(starts, p1, p2) == 0) == (lines_between(starts, p2, p1) == 0),
{
}

} // verus!
