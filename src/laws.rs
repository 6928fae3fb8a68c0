use vstd::prelude::*;

use crate::config::{grow, install, ConfigView, TimestampPrecision};
use crate::level::{level_glyph, level_name};
use crate::line::{
    after_line, head_pieces, level_pieces, line_pieces, message_pieces, pad_right, text_of,
    timestamp_pieces, LogRecord, Piece,
};

verus! {

/// The module width after `get_set_max_module_len` is called with each of
/// `lens` in turn, starting from `width`.
pub open spec fn width_after(width: nat, lens: Seq<nat>) -> nat
    decreases lens.len(),
{
    if lens.len() == 0 {
        width
    } else {
        grow(width_after(width, lens.drop_last()), lens.last())
    }
}

/// The width reached is the largest of the starting width and all lengths
/// offered: at least each of them, and equal to one of them.
pub proof fn lemma_width_is_max(width: nat, lens: Seq<nat>)
    ensures
        width <= width_after(width, lens),
        forall|i: int| 0 <= i < lens.len() ==> lens[i] <= width_after(width, lens),
        width_after(width, lens) == width || exists|i: int|
            0 <= i < lens.len() && lens[i] == width_after(width, lens),
    decreases lens.len(),
{
    if lens.len() > 0 {
        let init = lens.drop_last();
        lemma_width_is_max(width, init);
        assert forall|i: int| 0 <= i < lens.len() implies lens[i] <= width_after(width, lens) by {
            if i < lens.len() - 1 {
                assert(lens[i] == init[i]);
            }
        }
        if width_after(width, lens) != width && width_after(width, lens) != lens.last() {
            let i = choose|i: int| 0 <= i < init.len() && init[i] == width_after(width, init);
            assert(lens[i] == width_after(width, lens));
        }
    }
}

/// The width never decreases: after more calls it is at least what it was
/// after fewer.
pub proof fn lemma_width_monotonic(width: nat, lens: Seq<nat>, i: int, j: int)
    requires
        0 <= i <= j <= lens.len(),
    ensures
        width <= width_after(width, lens.take(i)),
        width_after(width, lens.take(i)) <= width_after(width, lens.take(j)),
    decreases j - i,
{
    lemma_width_is_max(width, lens.take(i));
    if i < j {
        lemma_width_monotonic(width, lens, i, j - 1);
        assert(lens.take(j).drop_last() =~= lens.take(j - 1));
    }
}

/// Lengths that never increase change the width at most once, on the first
/// call.
pub proof fn lemma_width_non_increasing(width: nat, lens: Seq<nat>)
    requires
        lens.len() > 0,
        forall|i: int, j: int| 0 <= i <= j < lens.len() ==> lens[j] <= lens[i],
    ensures
        width_after(width, lens) == grow(width, lens[0]),
    decreases lens.len(),
{
    if lens.len() > 1 {
        let init = lens.drop_last();
        assert forall|i: int, j: int| 0 <= i <= j < init.len() implies init[j] <= init[i] by {
            assert(init[i] == lens[i] && init[j] == lens[j]);
        }
        lemma_width_non_increasing(width, init);
        assert(init[0] == lens[0]);
        assert(lens.last() <= lens[0]);
    } else {
        assert(lens.drop_last() =~= Seq::<nat>::empty());
        assert(width_after(width, lens.drop_last()) == width);
    }
}

/// Strictly increasing lengths leave the width at the last one, unless the
/// width was already larger.
pub proof fn lemma_width_increasing(width: nat, lens: Seq<nat>)
    requires
        lens.len() > 0,
        forall|i: int, j: int| 0 <= i < j < lens.len() ==> lens[i] < lens[j],
    ensures
        width_after(width, lens) == grow(width, lens.last()),
{
    lemma_width_is_max(width, lens);
    if width_after(width, lens) != width {
        let i = choose|i: int| 0 <= i < lens.len() && lens[i] == width_after(width, lens);
        assert(lens[lens.len() - 1] <= width_after(width, lens));
        if i < lens.len() - 1 {
            assert(lens[i] < lens[lens.len() - 1]);
        }
    }
}

/// The formatter slot after `set_arg_formatter` is called with each of `fs`
/// in turn.
pub open spec fn slot_after<A>(slot: Option<A>, fs: Seq<A>) -> Option<A>
    decreases fs.len(),
{
    if fs.len() == 0 {
        slot
    } else {
        install(slot_after(slot, fs.drop_last()), fs.last())
    }
}

/// How many of those calls return `Ok`.
pub open spec fn install_successes<A>(slot: Option<A>, fs: Seq<A>) -> nat
    decreases fs.len(),
{
    if fs.len() == 0 {
        0
    } else {
        install_successes(slot, fs.drop_last()) + if slot_after(slot, fs.drop_last()) is None {
            1nat
        } else {
            0nat
        }
    }
}

/// A formatter is installed at most once: of any number of attempts on an
/// empty slot exactly one succeeds, the first, and its formatter stays; on
/// a filled slot none succeeds and nothing changes.
pub proof fn lemma_install_once<A>(slot: Option<A>, fs: Seq<A>)
    ensures
        slot is Some ==> install_successes(slot, fs) == 0 && slot_after(slot, fs) == slot,
        slot is None && fs.len() > 0 ==> install_successes(slot, fs) == 1 && slot_after(slot, fs)
            == Some(fs[0]),
    decreases fs.len(),
{
    if fs.len() > 0 {
        let init = fs.drop_last();
        lemma_install_once(slot, init);
        if fs.len() == 1 {
            assert(init =~= Seq::<A>::empty());
            assert(slot_after(slot, init) == slot);
            assert(install_successes(slot, init) == 0);
        } else {
            assert(init[0] == fs[0]);
        }
    }
}

/// With modules hidden, a line holds no module path and no separator, and
/// the module width is left alone.
pub proof fn lemma_module_hidden<A>(v: ConfigView<A>, r: LogRecord)
    requires
        !v.show_module,
    ensures
        line_pieces(v, r) == timestamp_pieces(v.precision) + level_pieces(r.level, v.show_emoji)
            + if v.arg_formatter is Some {
            Seq::<Piece>::empty()
        } else {
            message_pieces(r.message@)
        },
        forall|i: int|
            0 <= i < line_pieces(v, r).len() ==> !(line_pieces(v, r)[i] is Dimmed)
                && !(line_pieces(v, r)[i] is Bold),
        after_line(v, r) == v,
{
    assert(head_pieces(v, r) =~= timestamp_pieces(v.precision) + level_pieces(
        r.level,
        v.show_emoji,
    ));
}

/// With emojis off the level glyph is gone, while the level name keeps its
/// padding to five characters.
pub proof fn lemma_emoji_hidden<A>(v: ConfigView<A>, r: LogRecord)
    requires
        !v.show_emoji,
    ensures
        level_pieces(r.level, v.show_emoji) == seq![
            Piece::Plain(" "@),
            Piece::Level(r.level, pad_right(level_name(r.level), 5)),
            Piece::Plain(" "@),
        ],
        pad_right(level_name(r.level), 5).len() == 5,
        pad_right(level_name(r.level), 5).take(level_name(r.level).len() as int) == level_name(
            r.level,
        ),
{
    reveal_strlit("");
    reveal_strlit("TRACE");
    reveal_strlit("DEBUG");
    reveal_strlit("INFO");
    reveal_strlit("WARN");
    reveal_strlit("ERROR");
    assert(level_glyph(r.level, false) + " "@ =~= " "@);
    let name = level_name(r.level);
    assert(pad_right(name, 5).take(name.len() as int) =~= name);
}

/// With timestamps disabled a line holds no timestamp and starts with the
/// level glyph, without a space in front of it.
pub proof fn lemma_timestamp_disabled<A>(v: ConfigView<A>, r: LogRecord)
    requires
        v.precision == TimestampPrecision::Disable,
    ensures
        forall|i: int| 0 <= i < line_pieces(v, r).len() ==> !(line_pieces(v, r)[i] is Timestamp),
        line_pieces(v, r)[0] == Piece::Plain(level_glyph(r.level, v.show_emoji) + " "@),
{
    let rest = line_pieces(v, r).subrange(3, line_pieces(v, r).len() as int);
    assert(line_pieces(v, r) =~= level_pieces(r.level, v.show_emoji) + rest);
}

/// Once a message formatter is installed, the line ends with the formatter's
/// own head and no line end of its own: the message and its terminator are
/// left to the formatter.
pub proof fn lemma_delegated_message<A>(v: ConfigView<A>, r: LogRecord, stamp: Seq<char>)
    requires
        v.arg_formatter is Some,
    ensures
        line_pieces(v, r) == head_pieces(v, r),
        line_pieces(v, r).last() == Piece::Plain(" "@),
        text_of(line_pieces(v, r), stamp) == text_of(head_pieces(v, r), stamp),
{
    assert(line_pieces(v, r) =~= head_pieces(v, r));
}

} // verus!
