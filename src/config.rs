use vstd::prelude::*;

verus! {

/// How much of the record's time goes in front of a line, as an RFC 3339
/// timestamp; `Disable` leaves the timestamp out.
#[derive(Clone, Copy, Debug, PartialEq, Eq, Structural)]
pub enum TimestampPrecision {
    /// No timestamp.
    Disable,
    /// Whole seconds.
    Seconds,
    /// Milliseconds.
    Millis,
    /// Microseconds.
    Micros,
    /// Nanoseconds.
    Nanos,
}

/// The presentation settings shared by every formatted line.
///
/// `A` is the type of the optional message formatter, which can be installed
/// at most once.
pub struct StyleConfig<A> {
    show_module: bool,
    show_emoji: bool,
    precision: TimestampPrecision,
    max_module_len: usize,
    arg_formatter: Option<A>,
}

/// The abstract state of a `StyleConfig`.
pub struct ConfigView<A> {
    pub show_module: bool,
    pub show_emoji: bool,
    pub precision: TimestampPrecision,
    pub max_module_len: nat,
    pub arg_formatter: Option<A>,
}

/// The width after offering `len`: the larger of the two.
pub open spec fn grow(width: nat, len: nat) -> nat {
    if width < len {
        len
    } else {
        width
    }
}

/// The slot after an install attempt with `f`: only an empty slot takes it.
pub open spec fn install<A>(slot: Option<A>, f: A) -> Option<A> {
    match slot {
        Some(g) => Some(g),
        None => Some(f),
    }
}

impl<A> View for StyleConfig<A> {
    type V = ConfigView<A>;

    closed spec fn view(&self) -> ConfigView<A> {
        ConfigView {
            show_module: self.show_module,
            show_emoji: self.show_emoji,
            precision: self.precision,
            max_module_len: self.max_module_len as nat,
            arg_formatter: self.arg_formatter,
        }
    }
}

impl<A> StyleConfig<A> {
    /// The default settings: module and emoji shown, timestamps to the
    /// second, no module seen yet and no message formatter.
    pub fn new() -> (r: Self)
        ensures
            r@ == (ConfigView::<A> {
                show_module: true,
                show_emoji: true,
                precision: TimestampPrecision::Seconds,
                max_module_len: 0,
                arg_formatter: None,
            }),
    {
        StyleConfig {
            show_module: true,
            show_emoji: true,
            precision: TimestampPrecision::Seconds,
            max_module_len: 0,
            arg_formatter: None,
        }
    }

    /// Whether lines show the module path.
    pub fn module_shown(&self) -> (r: bool)
        ensures
            r == self@.show_module,
    {
        self.show_module
    }

    /// Whether lines show an emoji before the level.
    pub fn emoji_shown(&self) -> (r: bool)
        ensures
            r == self@.show_emoji,
    {
        self.show_emoji
    }

    /// The current timestamp precision.
    pub fn timestamp_precision(&self) -> (r: TimestampPrecision)
        ensures
            r == self@.precision,
    {
        self.precision
    }

    /// The widest module path seen so far, in bytes.
    pub fn max_module_len(&self) -> (r: usize)
        ensures
            r as nat == self@.max_module_len,
    {
        self.max_module_len
    }

    /// The installed message formatter, if any.
    pub fn arg_formatter(&self) -> (r: Option<&A>)
        ensures
            r == match self@.arg_formatter {
                Some(f) => Some(&f),
                None => None::<&A>,
            },
    {
        match &self.arg_formatter {
            Some(f) => Some(f),
            None => None,
        }
    }
}

/// Enables or disables the module path on each line.
pub fn show_module<A>(cfg: &mut StyleConfig<A>, show: bool)
    ensures
        final(cfg)@ == (ConfigView { show_module: show, ..old(cfg)@ }),
{
    cfg.show_module = show;
}

/// Enables or disables the emoji before the level.
pub fn show_emoji<A>(cfg: &mut StyleConfig<A>, show: bool)
    ensures
        final(cfg)@ == (ConfigView { show_emoji: show, ..old(cfg)@ }),
{
    cfg.show_emoji = show;
}

/// Sets the timestamp precision, or disables timestamps with `Disable`.
pub fn set_timestamp_precision<A>(cfg: &mut StyleConfig<A>, precision: TimestampPrecision)
    ensures
        final(cfg)@ == (ConfigView { precision: precision, ..old(cfg)@ }),
{
    cfg.precision = precision;
}

/// Returns the module width before the call and raises it to `len` when
/// `len` is larger.
///
/// Useful to give every line the same indentation from the start when the
/// longest module path is known in advance.
pub fn get_set_max_module_len<A>(cfg: &mut StyleConfig<A>, len: usize) -> (r: usize)
    ensures
        r as nat == old(cfg)@.max_module_len,
        final(cfg)@ == (ConfigView {
            max_module_len: grow(old(cfg)@.max_module_len, len as nat),
            ..old(cfg)@
        }),
{
    let module_len = cfg.max_module_len;
    if module_len < len {
        cfg.max_module_len = len;
    }
    module_len
}

/// Installs `formatter` to write the message of each line.
///
/// Only the first call succeeds; a later one returns `Err` and leaves the
/// installed formatter in place.
pub fn set_arg_formatter<A>(cfg: &mut StyleConfig<A>, formatter: A) -> (r: Result<(), ()>)
    ensures
        r is Ok <==> old(cfg)@.arg_formatter is None,
        final(cfg)@ == (ConfigView {
            arg_formatter: install(old(cfg)@.arg_formatter, formatter),
            ..old(cfg)@
        }),
{
    if cfg.arg_formatter.is_some() {
        Err(())
    } else {
        cfg.arg_formatter = Some(formatter);
        Ok(())
    }
}

} // verus!
