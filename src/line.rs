use vstd::prelude::*;
use vstd::utf8::encode_utf8;

use crate::config::{grow, get_set_max_module_len, ConfigView, StyleConfig, TimestampPrecision};
use crate::level::{level_glyph, level_name, Level};

verus! {

/// One log record, as the line formatter reads it.
#[derive(Clone, Debug)]
pub struct LogRecord {
    pub level: Level,
    /// The module the record comes from; a missing path counts as empty.
    pub module: Option<String>,
    /// The message, already rendered to text.
    pub message: String,
}

/// One piece of a formatted line, with the style the sink should give it.
#[derive(Clone, Debug)]
pub enum Segment {
    /// The current time at the given precision (never `Disable`), dimmed.
    Timestamp(TimestampPrecision),
    /// Unstyled text.
    Plain(String),
    /// Text in the colour of the level.
    Level(Level, String),
    /// Dimmed text.
    Dimmed(String),
    /// Bold text.
    Bold(String),
}

/// The abstract value of a `Segment`.
pub enum Piece {
    Timestamp(TimestampPrecision),
    Plain(Seq<char>),
    Level(Level, Seq<char>),
    Dimmed(Seq<char>),
    Bold(Seq<char>),
}

impl View for Segment {
    type V = Piece;

    open spec fn view(&self) -> Piece {
        match self {
            Segment::Timestamp(p) => Piece::Timestamp(*p),
            Segment::Plain(t) => Piece::Plain(t@),
            Segment::Level(l, t) => Piece::Level(*l, t@),
            Segment::Dimmed(t) => Piece::Dimmed(t@),
            Segment::Bold(t) => Piece::Bold(t@),
        }
    }
}

/// The pieces that a sequence of segments stands for.
pub open spec fn pieces_of(segs: Seq<Segment>) -> Seq<Piece> {
    segs.map_values(|s: Segment| s@)
}

/// `n` spaces.
pub open spec fn spaces(n: nat) -> Seq<char> {
    Seq::new(n, |i: int| ' ')
}

/// `s` followed by spaces up to `width` characters; `s` itself when it is
/// at least that long.
pub open spec fn pad_right(s: Seq<char>, width: nat) -> Seq<char> {
    if s.len() < width {
        s + spaces((width - s.len()) as nat)
    } else {
        s
    }
}

/// The record's module path, or the empty text when it has none.
pub open spec fn module_text(r: LogRecord) -> Seq<char> {
    match r.module {
        Some(m) => m@,
        None => Seq::empty(),
    }
}

/// The length of the record's module path in bytes, as `str::len` gives it.
pub open spec fn module_len(r: LogRecord) -> nat {
    (encode_utf8(module_text(r)).len() as usize) as nat
}

/// The timestamp and the space after it; nothing when timestamps are off.
pub open spec fn timestamp_pieces(p: TimestampPrecision) -> Seq<Piece> {
    if p == TimestampPrecision::Disable {
        Seq::empty()
    } else {
        seq![Piece::Timestamp(p), Piece::Plain(" "@)]
    }
}

/// The glyph, the level name padded to five characters, and a space.
pub open spec fn level_pieces(level: Level, emoji: bool) -> Seq<Piece> {
    seq![
        Piece::Plain(level_glyph(level, emoji) + " "@),
        Piece::Level(level, pad_right(level_name(level), 5)),
        Piece::Plain(" "@),
    ]
}

/// The module path padded to `width`, then the ` > ` separator.
pub open spec fn module_pieces(module: Seq<char>, width: nat) -> Seq<Piece> {
    seq![
        Piece::Dimmed(pad_right(module, width)),
        Piece::Plain(" "@),
        Piece::Bold(">"@),
        Piece::Plain(" "@),
    ]
}

/// The message and the line end.
pub open spec fn message_pieces(message: Seq<char>) -> Seq<Piece> {
    seq![Piece::Plain(message + "\n"@)]
}

/// Everything the formatter itself writes before the message.
pub open spec fn head_pieces<A>(v: ConfigView<A>, r: LogRecord) -> Seq<Piece> {
    timestamp_pieces(v.precision) + level_pieces(r.level, v.show_emoji) + if v.show_module {
        module_pieces(module_text(r), v.max_module_len)
    } else {
        Seq::empty()
    }
}

/// The line for record `r` under settings `v`; the message is left to the
/// installed formatter when there is one.
pub open spec fn line_pieces<A>(v: ConfigView<A>, r: LogRecord) -> Seq<Piece> {
    head_pieces(v, r) + if v.arg_formatter is Some {
        Seq::empty()
    } else {
        message_pieces(r.message@)
    }
}

/// The settings after formatting `r`: the module width grows to the
/// record's module when modules are shown.
pub open spec fn after_line<A>(v: ConfigView<A>, r: LogRecord) -> ConfigView<A> {
    if v.show_module {
        ConfigView { max_module_len: grow(v.max_module_len, module_len(r)), ..v }
    } else {
        v
    }
}

/// `s` padded with spaces to `width` characters.
fn pad_to(s: &str, width: usize) -> (r: String)
    ensures
        r@ == pad_right(s@, width as nat),
{
    let len = s.unicode_len();
    let mut out = String::from_str(s);
    let mut n: usize = len;
    proof {
        reveal_strlit(" ");
        assert(s@ + spaces(0) =~= s@);
    }
    while n < width
        invariant
            len == s@.len(),
            len <= n,
            n <= width || n == len,
            out@ == s@ + spaces((n - len) as nat),
        decreases width - n,
    {
        out.append(" ");
        proof {
            reveal_strlit(" ");
            assert(spaces((n - len) as nat) + " "@ =~= spaces((n + 1 - len) as nat));
            assert(s@ + spaces((n - len) as nat) + " "@ =~= s@ + spaces((n + 1 - len) as nat));
        }
        n = n + 1;
    }
    out
}

/// Lays out the line for `record`: timestamp, level, module and message,
/// each present as the settings say.
///
/// Raises the module width to the record's module path when modules are
/// shown; the path is padded to the width seen before this record.
pub fn format<A>(cfg: &mut StyleConfig<A>, record: &LogRecord) -> (segs: Vec<Segment>)
    ensures
        pieces_of(segs@) == line_pieces(old(cfg)@, *record),
        final(cfg)@ == after_line(old(cfg)@, *record),
{
    let ghost v = cfg@;
    let mut segs: Vec<Segment> = Vec::new();
    proof {
        reveal_strlit(" ");
        reveal_strlit(">");
        reveal_strlit("\n");
    }

    let precision = cfg.timestamp_precision();
    if precision != TimestampPrecision::Disable {
        segs.push(Segment::Timestamp(precision));
        segs.push(Segment::Plain(String::from_str(" ")));
    }
    assert(pieces_of(segs@) =~= timestamp_pieces(v.precision));

    let mut glyph = String::from_str(record.level.glyph(cfg.emoji_shown()));
    glyph.append(" ");
    segs.push(Segment::Plain(glyph));
    segs.push(Segment::Level(record.level, pad_to(record.level.as_str(), 5)));
    segs.push(Segment::Plain(String::from_str(" ")));
    assert(pieces_of(segs@) =~= timestamp_pieces(v.precision) + level_pieces(record.level, v.show_emoji));

    if cfg.module_shown() {
        let empty = String::new();
        let module: &str = match &record.module {
            Some(m) => m.as_str(),
            None => empty.as_str(),
        };
        assert(module@ == module_text(*record));
        let width = get_set_max_module_len(cfg, module.len());
        segs.push(Segment::Dimmed(pad_to(module, width)));
        segs.push(Segment::Plain(String::from_str(" ")));
        segs.push(Segment::Bold(String::from_str(">")));
        segs.push(Segment::Plain(String::from_str(" ")));
    }
    assert(pieces_of(segs@) =~= head_pieces(v, *record));

    if cfg.arg_formatter().is_none() {
        let mut message = record.message.clone();
        message.append("\n");
        segs.push(Segment::Plain(message));
    }
    assert(pieces_of(segs@) =~= line_pieces(v, *record));
    segs
}

/// The text of one piece, with `stamp` standing for the time.
pub open spec fn piece_text(p: Piece, stamp: Seq<char>) -> Seq<char> {
    match p {
        Piece::Timestamp(_) => stamp,
        Piece::Plain(t) => t,
        Piece::Level(_, t) => t,
        Piece::Dimmed(t) => t,
        Piece::Bold(t) => t,
    }
}

/// The text of a line of pieces, styles left out.
pub open spec fn text_of(ps: Seq<Piece>, stamp: Seq<char>) -> Seq<char>
    decreases ps.len(),
{
    if ps.len() == 0 {
        Seq::empty()
    } else {
        text_of(ps.drop_last(), stamp) + piece_text(ps.last(), stamp)
    }
}

/// Writes a laid-out line without styles, for a sink that shows none;
/// `stamp` is the rendered time for the timestamp segment.
pub fn plain_text(segs: &Vec<Segment>, stamp: &str) -> (r: String)
    ensures
        r@ == text_of(pieces_of(segs@), stamp@),
{
    let mut out = String::new();
    let mut i: usize = 0;
    assert(pieces_of(segs@.take(0)) =~= Seq::empty());
    while i < segs.len()
        invariant
            i <= segs@.len(),
            out@ == text_of(pieces_of(segs@.take(i as int)), stamp@),
        decreases segs@.len() - i,
    {
        match &segs[i] {
            Segment::Timestamp(_) => out.append(stamp),
            Segment::Plain(t) => out.append(t.as_str()),
            Segment::Level(_, t) => out.append(t.as_str()),
            Segment::Dimmed(t) => out.append(t.as_str()),
            Segment::Bold(t) => out.append(t.as_str()),
        }
        assert(pieces_of(segs@.take(i + 1)).drop_last() =~= pieces_of(segs@.take(i as int)));
        i = i + 1;
    }
    assert(segs@.take(segs@.len() as int) =~= segs@);
    out
}

} // verus!
