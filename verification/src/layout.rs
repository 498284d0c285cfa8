use vstd::prelude::*;
use crate::list_format::{
    ListFormat, LF_AMPERSAND_DELIMITED, LF_ANGLE_BRACKETS, LF_ASTERISK_DELIMITED, LF_BAR_DELIMITED,
    LF_BRACES, LF_BRACKETS_MASK, LF_COMMA_DELIMITED, LF_DELIMITERS_MASK, LF_MULTI_LINE, LF_NONE,
    LF_NO_TRAILING_NEW_LINE, LF_OPTIONAL_IF_EMPTY, LF_PARENTHESIS, LF_PREFER_NEW_LINE, LF_PRESERVE_LINES,
    LF_SQUARE_BRACKETS,
};
use crate::text_writer::{Piece, text_doc};

verus! {

/// What the printer knows of its surroundings while it lays out nodes: whether
/// it prints a whole source file, whether it keeps the line breaks of the
/// source, and whether numeric literals keep their separators.
#[derive(Clone, Copy, Debug, PartialEq, Eq)]
pub struct PrintContext {
    pub in_source_file: bool,
    pub preserve_source_newlines: bool,
    pub numeric_separators: bool,
}

/// `count` line breaks.
pub open spec fn lines_doc(count: int) -> Seq<Piece> {
    Seq::new(if count > 0 { count as nat } else { 0 }, |i: int| Piece::Line)
}

/// Whether the format names at most one delimiter.
pub open spec fn has_valid_delimiter(format: ListFormat) -> bool {
    ||| format.delimiters() == LF_NONE
    ||| format.delimiters() == LF_COMMA_DELIMITED
    ||| format.delimiters() == LF_BAR_DELIMITED
    ||| format.delimiters() == LF_ASTERISK_DELIMITED
    ||| format.delimiters() == LF_AMPERSAND_DELIMITED
}

/// Whether a set of list flags names at most one delimiter and at most one kind
/// of bracket: the formats the printer can lay a list out with.
pub open spec fn valid_list_flags(f: u32) -> bool {
    let d = f & LF_DELIMITERS_MASK;
    let b = f & LF_BRACKETS_MASK;
    &&& (d == LF_NONE || d == LF_COMMA_DELIMITED || d == LF_BAR_DELIMITED || d
        == LF_ASTERISK_DELIMITED || d == LF_AMPERSAND_DELIMITED)
    &&& (b == LF_NONE || b == LF_BRACES || b == LF_PARENTHESIS || b == LF_ANGLE_BRACKETS || b
        == LF_SQUARE_BRACKETS)
}

/// Whether a list format names at most one delimiter and at most one kind of
/// bracket.
#[verifier::opaque]
pub open spec fn is_valid_list_format(format: ListFormat) -> bool {
    valid_list_flags(format.0)
}

/// A valid format has a delimiter the printer can write, and one bracket
/// wherever it has brackets.
pub proof fn lemma_valid_list_format(format: ListFormat)
    requires
        is_valid_list_format(format),
    ensures
        has_valid_delimiter(format),
        format.has(LF_BRACKETS_MASK) ==> format.has_one_bracket(),
{
    reveal(is_valid_list_format);
}

/// Whether a list of `count` items of this format writes only delimiters the
/// printer knows: it writes one before each item but the first, and one before
/// every item where the delimiter is an asterisk.
pub open spec fn delimiters_fit(format: ListFormat, count: int) -> bool {
    (count > 1 || (count > 0 && format.has(LF_ASTERISK_DELIMITED))) ==> has_valid_delimiter(format)
}

/// Whether a list of `count` items of this format writes brackets only where
/// the format names one kind of them: an empty list that is left out when empty
/// writes none.
pub open spec fn brackets_fit(format: ListFormat, count: int) -> bool {
    (format.has(LF_BRACKETS_MASK) && !(count == 0 && format.has(LF_OPTIONAL_IF_EMPTY)))
        ==> format.has_one_bracket()
}

/// A list of a valid format writes only delimiters the printer knows.
pub broadcast proof fn lemma_valid_format_delimiters_fit(format: ListFormat, count: int)
    requires
        is_valid_list_format(format),
    ensures
        #[trigger] delimiters_fit(format, count),
{
    lemma_valid_list_format(format);
}

/// A list of a valid format writes brackets only where it names one kind.
pub broadcast proof fn lemma_valid_format_brackets_fit(format: ListFormat, count: int)
    requires
        is_valid_list_format(format),
    ensures
        #[trigger] brackets_fit(format, count),
{
    lemma_valid_list_format(format);
}

/// What separates two items of a list of this format.
pub open spec fn delimiter_doc(format: ListFormat) -> Seq<Piece> {
    if format.delimiters() == LF_COMMA_DELIMITED {
        text_doc(","@)
    } else if format.delimiters() == LF_BAR_DELIMITED {
        text_doc(" "@) + text_doc("|"@)
    } else if format.delimiters() == LF_ASTERISK_DELIMITED {
        text_doc(" "@) + text_doc("*"@) + text_doc(" "@)
    } else if format.delimiters() == LF_AMPERSAND_DELIMITED {
        text_doc(" "@) + text_doc("&"@)
    } else {
        Seq::empty()
    }
}

/// Whether the list keeps line breaks: by its format or by the printer's options.
pub open spec fn preserves_lines(format: ListFormat, c: PrintContext) -> bool {
    format.has(LF_PRESERVE_LINES) || c.preserve_source_newlines
}

/// How many line breaks come before the first item of a list. `first` is
/// whether the first item asks to start on a new line, `None` for an empty
/// list; items of a printed tree have no place in the source.
pub open spec fn leading_line_terminator_count(
    format: ListFormat,
    first: Option<bool>,
    c: PrintContext,
) -> int {
    if preserves_lines(format, c) && format.has(LF_PREFER_NEW_LINE) {
        1
    } else if preserves_lines(format, c) && first is None {
        if c.in_source_file {
            0
        } else {
            1
        }
    } else if preserves_lines(format, c) && first == Some(true) {
        1
    } else if format.has(LF_MULTI_LINE) {
        1
    } else {
        0
    }
}

/// How many line breaks separate two items of a list; `previous` and `next`
/// say whether each asks to start on a new line.
pub open spec fn separating_line_terminator_count(
    format: ListFormat,
    previous: Option<bool>,
    next: Option<bool>,
    c: PrintContext,
) -> int {
    if preserves_lines(format, c) {
        if previous is None || next is None {
            0
        } else if format.has(LF_PREFER_NEW_LINE) {
            1
        } else if !c.in_source_file && (previous == Some(true) || next == Some(true)) {
            1
        } else if format.has(LF_MULTI_LINE) {
            1
        } else {
            0
        }
    } else if next == Some(true) {
        1
    } else if format.has(LF_MULTI_LINE) {
        1
    } else {
        0
    }
}

/// How many line breaks follow the last item of a list; `last` is whether the
/// last item asks to start on a new line, `None` for an empty list.
pub open spec fn closing_line_terminator_count(
    format: ListFormat,
    last: Option<bool>,
    c: PrintContext,
) -> int {
    if preserves_lines(format, c) && format.has(LF_PREFER_NEW_LINE) {
        1
    } else if preserves_lines(format, c) && last is None {
        if c.in_source_file {
            0
        } else {
            1
        }
    } else if preserves_lines(format, c) && last == Some(true) {
        1
    } else if format.has(LF_MULTI_LINE) && !format.has(LF_NO_TRAILING_NEW_LINE) {
        1
    } else {
        0
    }
}

/// Counts the line breaks before the first item of a list, as
/// `leading_line_terminator_count` states.
pub fn get_leading_line_terminator_count(
    format: ListFormat,
    first: Option<bool>,
    c: PrintContext,
) -> (r: i32)
    ensures
        r as int == leading_line_terminator_count(format, first, c),
{
    if format.contains(ListFormat(LF_PRESERVE_LINES)) || c.preserve_source_newlines {
        if format.contains(ListFormat(LF_PREFER_NEW_LINE)) {
            return 1;
        }
        match first {
            Option::None => {
                return if c.in_source_file {
                    0
                } else {
                    1
                };
            },
            Option::Some(starts_on_new_line) => {
                if starts_on_new_line {
                    return 1;
                }
            },
        }
    }
    if format.contains(ListFormat(LF_MULTI_LINE)) {
        1
    } else {
        0
    }
}

/// Counts the line breaks between two items of a list, as
/// `separating_line_terminator_count` states.
pub fn get_separating_line_terminator_count(
    format: ListFormat,
    previous: Option<bool>,
    next: Option<bool>,
    c: PrintContext,
) -> (r: i32)
    ensures
        r as int == separating_line_terminator_count(format, previous, next, c),
{
    if format.contains(ListFormat(LF_PRESERVE_LINES)) || c.preserve_source_newlines {
        let (previous_flag, next_flag) = match (previous, next) {
            (Option::Some(p), Option::Some(n)) => (p, n),
            _ => {
                return 0;
            },
        };
        if format.contains(ListFormat(LF_PREFER_NEW_LINE)) {
            return 1;
        } else if !c.in_source_file && (previous_flag || next_flag) {
            return 1;
        }
    } else if let Option::Some(next_flag) = next {
        if next_flag {
            return 1;
        }
    }
    if format.contains(ListFormat(LF_MULTI_LINE)) {
        1
    } else {
        0
    }
}

/// Counts the line breaks after the last item of a list, as
/// `closing_line_terminator_count` states.
pub fn get_closing_line_terminator_count(
    format: ListFormat,
    last: Option<bool>,
    c: PrintContext,
) -> (r: i32)
    ensures
        r as int == closing_line_terminator_count(format, last, c),
{
    if format.contains(ListFormat(LF_PRESERVE_LINES)) || c.preserve_source_newlines {
        if format.contains(ListFormat(LF_PREFER_NEW_LINE)) {
            return 1;
        }
        match last {
            Option::None => {
                return if c.in_source_file {
                    0
                } else {
                    1
                };
            },
            Option::Some(starts_on_new_line) => {
                if starts_on_new_line {
                    return 1;
                }
            },
        }
    }
    if format.contains(ListFormat(LF_MULTI_LINE)) && !format.contains(
        ListFormat(LF_NO_TRAILING_NEW_LINE),
    ) {
        1
    } else {
        0
    }
}

} // verus!
