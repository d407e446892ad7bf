//! Which templates are handed to the renderer. On some templates the
//! renderer's work has no bound: a partial may call itself without end, and
//! blocks, round brackets, or the lists and objects of a literal may nest
//! deeper than the stack reaches. A plain template holds none of that: no
//! partial, no decorator, no opening brace among the arguments of a tag,
//! nothing between square brackets that could open a literal there (a
//! quote, a brace, another bracket), and blocks and round brackets nested up
//! to a fixed limit. Comments, escaped tags, tags in three braces, raw blocks
//! and names in square brackets are followed as the renderer's grammar takes
//! them, so that a reader of the characters knows where the tags are and how
//! deep they nest. A long comment has to end: without its end the grammar
//! takes it for a short one, and the reader cannot know that before the end
//! of the text.

use crate::paths::chars_of;
use vstd::prelude::*;

verus! {

/// How deep blocks may nest, and round brackets inside one tag.
pub const NESTING_LIMIT: usize = 32;

/// Where in a template a reader stands.
#[derive(Clone, Copy, Debug, PartialEq, Eq, Structural)]
pub enum Mode {
    /// In text, outside any tag.
    Text,
    /// In text, after one backslash.
    Slash,
    /// In text, after two backslashes or more.
    Slashes,
    /// In text, after one backslash and one opening brace.
    SlashBrace,
    /// In text, after an escaped pair of opening braces.
    Escaped,
    /// In text, after an escaped pair of opening braces and one more.
    EscapedBrace,
    /// In text, after one opening brace.
    Brace,
    /// In a tag, right after its two opening braces.
    Opened,
    /// In a tag, right after its three opening braces.
    Third,
    /// In a tag, where nothing but blanks, `~` and `#` came since its
    /// opening braces.
    Head,
    /// In a tag, further on.
    Tag,
    /// In a tag, inside a string in double quotes.
    Double,
    /// In a string in double quotes, after a backslash.
    DoubleEscape,
    /// In a tag, inside a string in single quotes.
    Single,
    /// In a string in single quotes, after a backslash.
    SingleEscape,
    /// In a tag, inside square brackets.
    Bracket,
    /// In a tag, after one closing brace.
    Closing,
    /// In a comment, where nothing but blanks came since its `!`.
    Bang,
    /// In a comment, after its `!`, blanks and one dash.
    BangDash,
    /// In a short comment.
    Compact,
    /// In a short comment, after one closing brace.
    CompactBrace,
    /// In a long comment.
    Long,
    /// In a long comment, after one dash.
    LongDash,
    /// In a long comment, after two dashes or more.
    LongDashes,
    /// In a long comment, after two dashes and one closing brace.
    LongBrace,
    /// In the text of a raw block.
    Raw,
    /// In the text of a raw block, after one backslash.
    RawSlash,
    /// In the text of a raw block, after two backslashes or more.
    RawSlashes,
    /// In the text of a raw block, after one backslash and one opening
    /// brace.
    RawSlashBrace,
    /// In the text of a raw block, after an escaped pair of opening braces.
    RawEscaped,
    /// In the text of a raw block, after an escaped pair of opening braces
    /// and one more.
    RawEscapedBrace,
    /// In the text of a raw block, after one opening brace.
    RawBrace,
    /// In the text of a raw block, after two opening braces.
    RawBraces,
    /// In the text of a raw block, after three opening braces.
    RawThird,
}

/// What a reader knows after a part of a template.
#[derive(Clone, Copy, Debug, PartialEq, Eq, Structural)]
pub struct Scan {
    pub mode: Mode,
    /// How many round brackets are open in the tag at hand.
    pub parens: usize,
    /// How many blocks are open.
    pub blocks: usize,
    /// Whether the tag at hand opens a raw block.
    pub raw: bool,
    /// Whether the part is plain so far.
    pub plain: bool,
}

/// Before the first character: in text, nothing open.
pub open spec fn start() -> Scan {
    Scan { mode: Mode::Text, parens: 0, blocks: 0, raw: false, plain: true }
}

/// A blank: what may stand between the pieces of a tag.
pub open spec fn is_blank(c: char) -> bool {
    c == ' ' || c == '\t' || c == '\n' || c == '\r'
}

/// The reader goes over to `mode`.
pub open spec fn turned(s: Scan, mode: Mode) -> Scan {
    Scan { mode, ..s }
}

/// The template is not plain.
pub open spec fn refused(s: Scan) -> Scan {
    Scan { plain: false, ..s }
}

/// A character of the text: a brace may open a tag, a backslash may stand in
/// front of one.
pub open spec fn in_text(s: Scan, c: char) -> Scan {
    if c == '{' {
        turned(s, Mode::Brace)
    } else if c == '\\' {
        turned(s, Mode::Slash)
    } else {
        turned(s, Mode::Text)
    }
}

/// A character of the text of a raw block: four braces end the text, a
/// backslash may stand in front of them.
pub open spec fn in_raw(s: Scan, c: char) -> Scan {
    if c == '{' {
        turned(s, Mode::RawBrace)
    } else if c == '\\' {
        turned(s, Mode::RawSlash)
    } else {
        turned(s, Mode::Raw)
    }
}

/// A character of a tag, outside its strings: a quote opens a string, a
/// closing brace may end the tag, a round bracket opens or closes a nested
/// call, a square bracket opens a name or a list in brackets, and an opening
/// brace would open a literal.
pub open spec fn in_tag(s: Scan, c: char) -> Scan {
    if c == '"' {
        turned(s, Mode::Double)
    } else if c == '\'' {
        turned(s, Mode::Single)
    } else if c == '}' {
        turned(s, Mode::Closing)
    } else if c == '[' {
        turned(s, Mode::Bracket)
    } else if c == '{' {
        refused(s)
    } else if c == '(' {
        if s.parens < NESTING_LIMIT {
            Scan { mode: Mode::Tag, parens: (s.parens + 1) as usize, ..s }
        } else {
            refused(s)
        }
    } else if c == ')' {
        Scan {
            mode: Mode::Tag,
            parens: if s.parens > 0 {
                (s.parens - 1) as usize
            } else {
                0
            },
            ..s
        }
    } else {
        turned(s, Mode::Tag)
    }
}

/// A character between square brackets: the closing bracket ends them, and
/// a quote, a brace or another opening bracket would make a literal that
/// nests.
pub open spec fn in_bracket(s: Scan, c: char) -> Scan {
    if c == ']' {
        turned(s, Mode::Tag)
    } else if c == '[' || c == '{' || c == '"' || c == '\'' {
        refused(s)
    } else {
        s
    }
}

/// A character at the head of a tag: `#` opens a block, `/` closes one, a
/// brace makes the tag one in three braces, and `>` or `*` would make it a
/// partial or a decorator.
pub open spec fn in_head(s: Scan, c: char) -> Scan {
    if is_blank(c) || c == '~' {
        turned(s, Mode::Head)
    } else if c == '#' {
        if s.blocks < NESTING_LIMIT {
            Scan { mode: Mode::Head, blocks: (s.blocks + 1) as usize, ..s }
        } else {
            refused(s)
        }
    } else if c == '/' {
        Scan {
            mode: Mode::Tag,
            blocks: if s.blocks > 0 {
                (s.blocks - 1) as usize
            } else {
                0
            },
            ..s
        }
    } else if c == '>' || c == '*' {
        refused(s)
    } else if c == '{' {
        turned(s, Mode::Tag)
    } else {
        in_tag(s, c)
    }
}

/// The character right after the two opening braces of a tag: `!` makes it
/// a comment, a third brace may make it a raw block.
pub open spec fn in_opened(s: Scan, c: char) -> Scan {
    if c == '!' {
        turned(s, Mode::Bang)
    } else if c == '{' {
        turned(s, Mode::Third)
    } else {
        in_head(s, c)
    }
}

/// A character of a short comment: two closing braces end it.
pub open spec fn in_compact(s: Scan, c: char) -> Scan {
    if c == '}' {
        turned(s, Mode::CompactBrace)
    } else {
        turned(s, Mode::Compact)
    }
}

/// A character of a long comment: two dashes and two closing braces end
/// it.
pub open spec fn in_long(s: Scan, c: char) -> Scan {
    if c == '-' {
        turned(s, Mode::LongDash)
    } else {
        turned(s, Mode::Long)
    }
}

/// The end of a tag: the text goes on, that of a raw block after the tag
/// that opens one.
pub open spec fn closed(s: Scan) -> Scan {
    if s.raw {
        Scan { mode: Mode::Raw, raw: false, ..s }
    } else {
        turned(s, Mode::Text)
    }
}

/// What the reader knows one character on. What is not plain stays so.
pub open spec fn after(s: Scan, c: char) -> Scan {
    if !s.plain {
        s
    } else {
        match s.mode {
            Mode::Text => in_text(s, c),
            Mode::Slash => if c == '{' {
                turned(s, Mode::SlashBrace)
            } else if c == '\\' {
                turned(s, Mode::Slashes)
            } else {
                turned(s, Mode::Text)
            },
            Mode::Slashes => if c == '\\' {
                s
            } else {
                in_text(s, c)
            },
            Mode::SlashBrace => if c == '{' {
                turned(s, Mode::Escaped)
            } else {
                in_text(s, c)
            },
            Mode::Escaped => if c == '{' {
                turned(s, Mode::EscapedBrace)
            } else {
                in_text(s, c)
            },
            Mode::EscapedBrace => if c == '{' {
                turned(s, Mode::Text)
            } else {
                in_text(s, c)
            },
            Mode::Brace => if c == '{' {
                Scan { mode: Mode::Opened, parens: 0, raw: false, ..s }
            } else {
                in_text(s, c)
            },
            Mode::Opened => in_opened(s, c),
            Mode::Third => if c == '{' {
                Scan { mode: Mode::Tag, raw: true, ..s }
            } else {
                in_tag(s, c)
            },
            Mode::Head => in_head(s, c),
            Mode::Tag => in_tag(s, c),
            Mode::Double => if c == '"' {
                turned(s, Mode::Tag)
            } else if c == '\\' {
                turned(s, Mode::DoubleEscape)
            } else {
                s
            },
            Mode::DoubleEscape => turned(s, Mode::Double),
            Mode::Single => if c == '\'' {
                turned(s, Mode::Tag)
            } else if c == '\\' {
                turned(s, Mode::SingleEscape)
            } else {
                s
            },
            Mode::SingleEscape => turned(s, Mode::Single),
            Mode::Bracket => in_bracket(s, c),
            Mode::Closing => if c == '}' {
                closed(s)
            } else {
                in_tag(s, c)
            },
            Mode::Bang => if is_blank(c) {
                s
            } else if c == '-' {
                turned(s, Mode::BangDash)
            } else {
                in_compact(s, c)
            },
            Mode::BangDash => if c == '-' {
                turned(s, Mode::Long)
            } else {
                in_compact(s, c)
            },
            Mode::Compact => in_compact(s, c),
            Mode::CompactBrace => if c == '}' {
                turned(s, Mode::Text)
            } else {
                turned(s, Mode::Compact)
            },
            Mode::Long => in_long(s, c),
            Mode::LongDash => if c == '-' {
                turned(s, Mode::LongDashes)
            } else {
                turned(s, Mode::Long)
            },
            Mode::LongDashes => if c == '-' {
                s
            } else if c == '}' {
                turned(s, Mode::LongBrace)
            } else {
                turned(s, Mode::Long)
            },
            Mode::LongBrace => if c == '}' {
                turned(s, Mode::Text)
            } else {
                in_long(s, c)
            },
            Mode::Raw => in_raw(s, c),
            Mode::RawSlash => if c == '{' {
                turned(s, Mode::RawSlashBrace)
            } else if c == '\\' {
                turned(s, Mode::RawSlashes)
            } else {
                turned(s, Mode::Raw)
            },
            Mode::RawSlashes => if c == '\\' {
                s
            } else {
                in_raw(s, c)
            },
            Mode::RawSlashBrace => if c == '{' {
                turned(s, Mode::RawEscaped)
            } else {
                in_raw(s, c)
            },
            Mode::RawEscaped => if c == '{' {
                turned(s, Mode::RawEscapedBrace)
            } else {
                in_raw(s, c)
            },
            Mode::RawEscapedBrace => if c == '{' {
                turned(s, Mode::Raw)
            } else {
                in_raw(s, c)
            },
            Mode::RawBrace => if c == '{' {
                turned(s, Mode::RawBraces)
            } else {
                in_raw(s, c)
            },
            Mode::RawBraces => if c == '{' {
                turned(s, Mode::RawThird)
            } else {
                in_raw(s, c)
            },
            Mode::RawThird => if c == '{' {
                Scan { mode: Mode::Tag, parens: 0, raw: false, ..s }
            } else {
                in_raw(s, c)
            },
        }
    }
}

/// Whether a long comment is open: one that has not ended yet.
pub open spec fn in_long_comment(mode: Mode) -> bool {
    mode == Mode::Long || mode == Mode::LongDash || mode == Mode::LongDashes || mode
        == Mode::LongBrace
}

/// What the reader knows at the end of `text`.
pub open spec fn scanned(text: Seq<char>) -> Scan
    decreases text.len(),
{
    if text.len() == 0 {
        start()
    } else {
        after(scanned(text.drop_last()), text.last())
    }
}

/// Whether a template is plain: the reader met nothing that is refused,
/// and no long comment is left open at the end.
pub open spec fn plain_template(template: Seq<char>) -> bool {
    scanned(template).plain && !in_long_comment(scanned(template).mode)
}

/// In a plain part nothing nests deeper than the limit.
pub proof fn lemma_nesting_is_bounded(text: Seq<char>)
    ensures
        scanned(text).parens <= NESTING_LIMIT,
        scanned(text).blocks <= NESTING_LIMIT,
    decreases text.len(),
{
    if text.len() > 0 {
        lemma_nesting_is_bounded(text.drop_last());
    }
}

/// What is refused up to some point is not plain as a whole.
pub proof fn lemma_refusal_is_final(text: Seq<char>, k: int)
    requires
        0 <= k <= text.len(),
        !scanned(text.take(k)).plain,
    ensures
        !scanned(text).plain,
        !plain_template(text),
    decreases text.len() - k,
{
    if k < text.len() {
        assert(text.take(k + 1).drop_last() =~= text.take(k));
        lemma_refusal_is_final(text, k + 1);
    } else {
        assert(text.take(k) =~= text);
    }
}

fn turn(s: Scan, mode: Mode) -> (r: Scan)
    ensures
        r == turned(s, mode),
{
    Scan { mode, parens: s.parens, blocks: s.blocks, raw: s.raw, plain: s.plain }
}

fn refuse(s: Scan) -> (r: Scan)
    ensures
        r == refused(s),
{
    Scan { mode: s.mode, parens: s.parens, blocks: s.blocks, raw: s.raw, plain: false }
}

fn text_step(s: Scan, c: char) -> (r: Scan)
    ensures
        r == in_text(s, c),
{
    if c == '{' {
        turn(s, Mode::Brace)
    } else if c == '\\' {
        turn(s, Mode::Slash)
    } else {
        turn(s, Mode::Text)
    }
}

fn raw_step(s: Scan, c: char) -> (r: Scan)
    ensures
        r == in_raw(s, c),
{
    if c == '{' {
        turn(s, Mode::RawBrace)
    } else if c == '\\' {
        turn(s, Mode::RawSlash)
    } else {
        turn(s, Mode::Raw)
    }
}

fn tag_step(s: Scan, c: char) -> (r: Scan)
    ensures
        r == in_tag(s, c),
{
    if c == '"' {
        turn(s, Mode::Double)
    } else if c == '\'' {
        turn(s, Mode::Single)
    } else if c == '}' {
        turn(s, Mode::Closing)
    } else if c == '[' {
        turn(s, Mode::Bracket)
    } else if c == '{' {
        refuse(s)
    } else if c == '(' {
        if s.parens < NESTING_LIMIT {
            Scan {
                mode: Mode::Tag,
                parens: s.parens + 1,
                blocks: s.blocks,
                raw: s.raw,
                plain: s.plain,
            }
        } else {
            refuse(s)
        }
    } else if c == ')' {
        let parens: usize = if s.parens > 0 {
            s.parens - 1
        } else {
            0
        };
        Scan { mode: Mode::Tag, parens, blocks: s.blocks, raw: s.raw, plain: s.plain }
    } else {
        turn(s, Mode::Tag)
    }
}

fn head_step(s: Scan, c: char) -> (r: Scan)
    ensures
        r == in_head(s, c),
{
    if c == ' ' || c == '\t' || c == '\n' || c == '\r' || c == '~' {
        turn(s, Mode::Head)
    } else if c == '#' {
        if s.blocks < NESTING_LIMIT {
            Scan {
                mode: Mode::Head,
                parens: s.parens,
                blocks: s.blocks + 1,
                raw: s.raw,
                plain: s.plain,
            }
        } else {
            refuse(s)
        }
    } else if c == '/' {
        let blocks: usize = if s.blocks > 0 {
            s.blocks - 1
        } else {
            0
        };
        Scan { mode: Mode::Tag, parens: s.parens, blocks, raw: s.raw, plain: s.plain }
    } else if c == '>' || c == '*' {
        refuse(s)
    } else if c == '{' {
        turn(s, Mode::Tag)
    } else {
        tag_step(s, c)
    }
}

fn compact_step(s: Scan, c: char) -> (r: Scan)
    ensures
        r == in_compact(s, c),
{
    if c == '}' {
        turn(s, Mode::CompactBrace)
    } else {
        turn(s, Mode::Compact)
    }
}

fn long_step(s: Scan, c: char) -> (r: Scan)
    ensures
        r == in_long(s, c),
{
    if c == '-' {
        turn(s, Mode::LongDash)
    } else {
        turn(s, Mode::Long)
    }
}

/// One character on in the text outside the tags.
fn advance_text(s: Scan, c: char) -> (r: Scan)
    requires
        s.plain,
        s.mode == Mode::Text || s.mode == Mode::Slash || s.mode == Mode::Slashes || s.mode
            == Mode::SlashBrace || s.mode == Mode::Escaped || s.mode == Mode::EscapedBrace
            || s.mode == Mode::Brace,
    ensures
        r == after(s, c),
{
    match s.mode {
        Mode::Slash => if c == '{' {
            turn(s, Mode::SlashBrace)
        } else if c == '\\' {
            turn(s, Mode::Slashes)
        } else {
            turn(s, Mode::Text)
        },
        Mode::Slashes => if c == '\\' {
            s
        } else {
            text_step(s, c)
        },
        Mode::SlashBrace => if c == '{' {
            turn(s, Mode::Escaped)
        } else {
            text_step(s, c)
        },
        Mode::Escaped => if c == '{' {
            turn(s, Mode::EscapedBrace)
        } else {
            text_step(s, c)
        },
        Mode::EscapedBrace => if c == '{' {
            turn(s, Mode::Text)
        } else {
            text_step(s, c)
        },
        Mode::Brace => if c == '{' {
            Scan { mode: Mode::Opened, parens: 0, blocks: s.blocks, raw: false, plain: s.plain }
        } else {
            text_step(s, c)
        },
        _ => text_step(s, c),
    }
}

/// One character on in a tag.
fn advance_tag(s: Scan, c: char) -> (r: Scan)
    requires
        s.plain,
        s.mode == Mode::Opened || s.mode == Mode::Third || s.mode == Mode::Head || s.mode
            == Mode::Tag || s.mode == Mode::Double || s.mode == Mode::DoubleEscape || s.mode
            == Mode::Single || s.mode == Mode::SingleEscape || s.mode == Mode::Bracket || s.mode
            == Mode::Closing,
    ensures
        r == after(s, c),
{
    match s.mode {
        Mode::Opened => if c == '!' {
            turn(s, Mode::Bang)
        } else if c == '{' {
            turn(s, Mode::Third)
        } else {
            head_step(s, c)
        },
        Mode::Third => if c == '{' {
            Scan { mode: Mode::Tag, parens: s.parens, blocks: s.blocks, raw: true, plain: s.plain }
        } else {
            tag_step(s, c)
        },
        Mode::Head => head_step(s, c),
        Mode::Double => if c == '"' {
            turn(s, Mode::Tag)
        } else if c == '\\' {
            turn(s, Mode::DoubleEscape)
        } else {
            s
        },
        Mode::DoubleEscape => turn(s, Mode::Double),
        Mode::Single => if c == '\'' {
            turn(s, Mode::Tag)
        } else if c == '\\' {
            turn(s, Mode::SingleEscape)
        } else {
            s
        },
        Mode::SingleEscape => turn(s, Mode::Single),
        Mode::Bracket => if c == ']' {
            turn(s, Mode::Tag)
        } else if c == '[' || c == '{' || c == '"' || c == '\'' {
            refuse(s)
        } else {
            s
        },
        Mode::Closing => if c == '}' {
            if s.raw {
                Scan {
                    mode: Mode::Raw,
                    parens: s.parens,
                    blocks: s.blocks,
                    raw: false,
                    plain: s.plain,
                }
            } else {
                turn(s, Mode::Text)
            }
        } else {
            tag_step(s, c)
        },
        _ => tag_step(s, c),
    }
}

/// One character on in a comment.
fn advance_comment(s: Scan, c: char) -> (r: Scan)
    requires
        s.plain,
        s.mode == Mode::Bang || s.mode == Mode::BangDash || s.mode == Mode::Compact || s.mode
            == Mode::CompactBrace || s.mode == Mode::Long || s.mode == Mode::LongDash || s.mode
            == Mode::LongDashes || s.mode == Mode::LongBrace,
    ensures
        r == after(s, c),
{
    match s.mode {
        Mode::Bang => if c == ' ' || c == '\t' || c == '\n' || c == '\r' {
            s
        } else if c == '-' {
            turn(s, Mode::BangDash)
        } else {
            compact_step(s, c)
        },
        Mode::BangDash => if c == '-' {
            turn(s, Mode::Long)
        } else {
            compact_step(s, c)
        },
        Mode::CompactBrace => if c == '}' {
            turn(s, Mode::Text)
        } else {
            turn(s, Mode::Compact)
        },
        Mode::Long => long_step(s, c),
        Mode::LongDash => if c == '-' {
            turn(s, Mode::LongDashes)
        } else {
            turn(s, Mode::Long)
        },
        Mode::LongDashes => if c == '-' {
            s
        } else if c == '}' {
            turn(s, Mode::LongBrace)
        } else {
            turn(s, Mode::Long)
        },
        Mode::LongBrace => if c == '}' {
            turn(s, Mode::Text)
        } else {
            long_step(s, c)
        },
        _ => compact_step(s, c),
    }
}

/// One character on in the text of a raw block.
fn advance_raw(s: Scan, c: char) -> (r: Scan)
    requires
        s.plain,
        s.mode == Mode::Raw || s.mode == Mode::RawSlash || s.mode == Mode::RawSlashes || s.mode
            == Mode::RawSlashBrace || s.mode == Mode::RawEscaped || s.mode
            == Mode::RawEscapedBrace || s.mode == Mode::RawBrace || s.mode == Mode::RawBraces
            || s.mode == Mode::RawThird,
    ensures
        r == after(s, c),
{
    match s.mode {
        Mode::RawSlash => if c == '{' {
            turn(s, Mode::RawSlashBrace)
        } else if c == '\\' {
            turn(s, Mode::RawSlashes)
        } else {
            turn(s, Mode::Raw)
        },
        Mode::RawSlashes => if c == '\\' {
            s
        } else {
            raw_step(s, c)
        },
        Mode::RawSlashBrace => if c == '{' {
            turn(s, Mode::RawEscaped)
        } else {
            raw_step(s, c)
        },
        Mode::RawEscaped => if c == '{' {
            turn(s, Mode::RawEscapedBrace)
        } else {
            raw_step(s, c)
        },
        Mode::RawEscapedBrace => if c == '{' {
            turn(s, Mode::Raw)
        } else {
            raw_step(s, c)
        },
        Mode::RawBrace => if c == '{' {
            turn(s, Mode::RawBraces)
        } else {
            raw_step(s, c)
        },
        Mode::RawBraces => if c == '{' {
            turn(s, Mode::RawThird)
        } else {
            raw_step(s, c)
        },
        Mode::RawThird => if c == '{' {
            Scan { mode: Mode::Tag, parens: 0, blocks: s.blocks, raw: false, plain: s.plain }
        } else {
            raw_step(s, c)
        },
        _ => raw_step(s, c),
    }
}

/// Reads one character more.
pub fn advance(s: Scan, c: char) -> (r: Scan)
    ensures
        r == after(s, c),
{
    if !s.plain {
        return s;
    }
    match s.mode {
        Mode::Text | Mode::Slash | Mode::Slashes | Mode::SlashBrace | Mode::Escaped
        | Mode::EscapedBrace | Mode::Brace => advance_text(s, c),
        Mode::Opened | Mode::Third | Mode::Head | Mode::Tag | Mode::Double | Mode::DoubleEscape
        | Mode::Single | Mode::SingleEscape | Mode::Bracket | Mode::Closing => advance_tag(s, c),
        Mode::Bang | Mode::BangDash | Mode::Compact | Mode::CompactBrace | Mode::Long
        | Mode::LongDash | Mode::LongDashes | Mode::LongBrace => advance_comment(s, c),
        _ => advance_raw(s, c),
    }
}

/// Whether a template is plain.
pub fn is_plain_template(template: &str) -> (r: bool)
    ensures
        r == plain_template(template@),
{
    let chars: Vec<char> = chars_of(template);
    let n: usize = chars.len();
    let mut s = Scan { mode: Mode::Text, parens: 0, blocks: 0, raw: false, plain: true };
    let mut i: usize = 0;
    proof {
        assert(chars@.take(0) =~= Seq::empty());
    }
    while i < n
        invariant
            i <= n,
            n == chars@.len(),
            chars@ == template@,
            s == scanned(chars@.take(i as int)),
        decreases n - i,
    {
        proof {
            assert(chars@.take(i + 1).drop_last() =~= chars@.take(i as int));
            assert(chars@.take(i + 1).last() == chars@[i as int]);
        }
        s = advance(s, chars[i]);
        i += 1;
    }
    proof {
        assert(chars@.take(n as int) =~= chars@);
    }
    s.plain && match s.mode {
        Mode::Long | Mode::LongDash | Mode::LongDashes | Mode::LongBrace => false,
        _ => true,
    }
}

} // verus!
