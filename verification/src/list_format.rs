use vstd::prelude::*;

verus! {

/// The kind of text a write carries, as the printer reports it to a writer.
#[derive(Clone, Copy, Debug, PartialEq, Eq)]
pub enum WriteKind {
    Plain,
    Keyword,
    Operator,
    Punctuation,
    StringLiteral,
    Parameter,
    Property,
    Comment,
    Literal,
}

/// How the printer lays out a list of nodes: lines, delimiters, spacing,
/// brackets and optionality, as a set of bit flags.
#[derive(Clone, Copy, Debug, PartialEq, Eq)]
pub struct ListFormat(pub u32);

pub const LF_NONE: u32 = 0;
pub const LF_SINGLE_LINE: u32 = 0;
pub const LF_MULTI_LINE: u32 = 1;
pub const LF_PRESERVE_LINES: u32 = 2;
pub const LF_LINES_MASK: u32 = 3;
pub const LF_BAR_DELIMITED: u32 = 4;
pub const LF_AMPERSAND_DELIMITED: u32 = 8;
pub const LF_COMMA_DELIMITED: u32 = 16;
pub const LF_ASTERISK_DELIMITED: u32 = 32;
pub const LF_DELIMITERS_MASK: u32 = 60;
pub const LF_ALLOW_TRAILING_COMMA: u32 = 64;
pub const LF_INDENTED: u32 = 128;
pub const LF_SPACE_BETWEEN_BRACES: u32 = 256;
pub const LF_SPACE_BETWEEN_SIBLINGS: u32 = 512;
pub const LF_BRACES: u32 = 1024;
pub const LF_PARENTHESIS: u32 = 2048;
pub const LF_ANGLE_BRACKETS: u32 = 4096;
pub const LF_SQUARE_BRACKETS: u32 = 8192;
pub const LF_BRACKETS_MASK: u32 = 15360;
pub const LF_OPTIONAL_IF_NIL: u32 = 16384;
pub const LF_OPTIONAL_IF_EMPTY: u32 = 32768;
pub const LF_OPTIONAL: u32 = 49152;
pub const LF_PREFER_NEW_LINE: u32 = 65536;
pub const LF_NO_TRAILING_NEW_LINE: u32 = 131072;
pub const LF_NO_INTERVENING_COMMENTS: u32 = 262144;
pub const LF_NO_SPACE_IF_EMPTY: u32 = 524288;
pub const LF_SINGLE_ELEMENT: u32 = 1048576;
pub const LF_SPACE_AFTER_LIST: u32 = 2097152;

impl ListFormat {
    /// Whether the two flag sets share a flag.
    pub open spec fn has(self, rhs: u32) -> bool {
        self.0 & rhs != 0
    }

    /// The bracket flags of the format.
    pub open spec fn brackets(self) -> u32 {
        self.0 & LF_BRACKETS_MASK
    }

    /// The delimiter flags of the format.
    pub open spec fn delimiters(self) -> u32 {
        self.0 & LF_DELIMITERS_MASK
    }

    /// Whether the format names exactly one kind of bracket.
    pub open spec fn has_one_bracket(self) -> bool {
        ||| self.brackets() == LF_BRACES
        ||| self.brackets() == LF_PARENTHESIS
        ||| self.brackets() == LF_ANGLE_BRACKETS
        ||| self.brackets() == LF_SQUARE_BRACKETS
    }

    /// The text that opens a list of this format.
    pub open spec fn spec_opening_bracket(self) -> Seq<char> {
        if self.brackets() == LF_BRACES {
            seq!['{']
        } else if self.brackets() == LF_PARENTHESIS {
            seq!['(']
        } else if self.brackets() == LF_ANGLE_BRACKETS {
            seq!['<']
        } else {
            seq!['[']
        }
    }

    /// The text that closes a list of this format.
    pub open spec fn spec_closing_bracket(self) -> Seq<char> {
        if self.brackets() == LF_BRACES {
            seq!['}']
        } else if self.brackets() == LF_PARENTHESIS {
            seq![')']
        } else if self.brackets() == LF_ANGLE_BRACKETS {
            seq!['>']
        } else {
            seq![']']
        }
    }

    /// Whether `self` and `rhs` share a flag.
    pub fn contains(self, rhs: ListFormat) -> (r: bool)
        ensures
            r == self.has(rhs.0),
    {
        self.0 & rhs.0 != 0
    }

    /// Whether `self` and `rhs` share a flag.
    pub fn intersects(self, rhs: ListFormat) -> (r: bool)
        ensures
            r == self.has(rhs.0),
    {
        self.0 & rhs.0 != 0
    }

    /// Whether the flags of `self` under `mask` are exactly `expected`.
    pub fn mask_eq(self, mask: ListFormat, expected: ListFormat) -> (r: bool)
        ensures
            r == (self.0 & mask.0 == expected.0),
    {
        self.0 & mask.0 == expected.0
    }

    /// The union of two formats.
    pub fn union(self, rhs: ListFormat) -> (r: ListFormat)
        ensures
            r.0 == self.0 | rhs.0,
    {
        ListFormat(self.0 | rhs.0)
    }

    /// The flags the two formats share.
    pub fn intersection(self, rhs: ListFormat) -> (r: ListFormat)
        ensures
            r.0 == self.0 & rhs.0,
    {
        ListFormat(self.0 & rhs.0)
    }

    /// The flags the format lacks.
    pub fn complement(self) -> (r: ListFormat)
        ensures
            r.0 == !self.0,
    {
        ListFormat(!self.0)
    }

    /// The bracket that opens a list of this format.
    pub fn opening_bracket(self) -> (r: &'static str)
        requires
            self.has_one_bracket(),
        ensures
            r@ == self.spec_opening_bracket(),
    {
        let b = self.0 & LF_BRACKETS_MASK;
        if b == LF_BRACES {
            proof {
                reveal_strlit("{");
            }
            "{"
        } else if b == LF_PARENTHESIS {
            proof {
                reveal_strlit("(");
            }
            "("
        } else if b == LF_ANGLE_BRACKETS {
            proof {
                reveal_strlit("<");
            }
            "<"
        } else {
            proof {
                reveal_strlit("[");
            }
            "["
        }
    }

    /// The bracket that closes a list of this format.
    pub fn closing_bracket(self) -> (r: &'static str)
        requires
            self.has_one_bracket(),
        ensures
            r@ == self.spec_closing_bracket(),
    {
        let b = self.0 & LF_BRACKETS_MASK;
        if b == LF_BRACES {
            proof {
                reveal_strlit("}");
            }
            "}"
        } else if b == LF_PARENTHESIS {
            proof {
                reveal_strlit(")");
            }
            ")"
        } else if b == LF_ANGLE_BRACKETS {
            proof {
                reveal_strlit(">");
            }
            ">"
        } else {
            proof {
                reveal_strlit("]");
            }
            "]"
        }
    }
}

/// Flags that switch off the comments or source-map positions of a token.
#[derive(Clone, Copy, Debug, PartialEq, Eq)]
pub struct TokenEmitFlags(pub u32);

pub const TOKEN_EMIT_NONE: u32 = 0;
pub const TOKEN_EMIT_NO_COMMENTS: u32 = 1;
pub const TOKEN_EMIT_INDENT_LEADING_COMMENTS: u32 = 2;
pub const TOKEN_EMIT_NO_SOURCE_MAPS: u32 = 4;

impl TokenEmitFlags {
    /// Whether `self` and `rhs` share a flag.
    pub fn contains(self, rhs: TokenEmitFlags) -> (r: bool)
        ensures
            r == (self.0 & rhs.0 != 0),
    {
        self.0 & rhs.0 != 0
    }
}

} // verus!
