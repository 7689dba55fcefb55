//! Laws of the library, stated over the models that the functions' contracts
//! use, and proved.
use vstd::prelude::*;
use core::cmp::Ordering;
use vstd::std_specs::cmp::PartialOrdSpec;
use crate::clock::Timestamp;
use crate::global::GlobalView;
use crate::level::{level_named, lower_of, parsed, LogLevel, ParseLogLevelError};
use crate::logger::{effective_threshold, passes};

verus! {

/// Severities are ordered by their ordinals: `a < b` exactly when `a`'s
/// ordinal is smaller. The order is total over all seven levels (any two are
/// comparable, and equal only when they are the same level) and transitive.
pub proof fn level_order_follows_ordinals(a: LogLevel, b: LogLevel, c: LogLevel)
    ensures
        (a.partial_cmp_spec(&b) == Some(Ordering::Less)) <==> a.ordinal() < b.ordinal(),
        (a.partial_cmp_spec(&b) == Some(Ordering::Equal)) <==> a == b,
        (a.partial_cmp_spec(&b) == Some(Ordering::Greater)) <==> b.ordinal() < a.ordinal(),
        a.partial_cmp_spec(&b) is Some,
        a.partial_cmp_spec(&b) == Some(Ordering::Less) && b.partial_cmp_spec(&c) == Some(
            Ordering::Less,
        ) ==> a.partial_cmp_spec(&c) == Some(Ordering::Less),
        1 <= a.ordinal() <= 7,
{
}

/// Every level's lowercase name parses back to that level, so any string
/// whose lowercase form is that name parses to it, whose display name is the
/// canonical uppercase name. A name that denotes no level fails to parse.
pub proof fn level_names_round_trip(l: LogLevel, s: Seq<char>)
    ensures
        level_named(l.lower_name()) == Some(l),
        parsed(l.lower_name()) == Ok::<LogLevel, ParseLogLevelError>(l),
        lower_of(s) == l.lower_name() ==> parsed(lower_of(s)) == Ok::<LogLevel, ParseLogLevelError>(l),
        level_named(lower_of(s)) is None ==> parsed(lower_of(s)) == Err::<LogLevel, ParseLogLevelError>(ParseLogLevelError),
{
    reveal_strlit("trace");
    reveal_strlit("debug");
    reveal_strlit("info");
    reveal_strlit("warn");
    reveal_strlit("error");
    reveal_strlit("fatal");
    reveal_strlit("silent");
    assert("trace"@ != "debug"@ && "trace"@ != "info"@ && "trace"@ != "warn"@ && "trace"@ != "error"@
        && "trace"@ != "fatal"@ && "trace"@ != "silent"@) by {
        assert("trace"@[0] != "debug"@[0] && "trace"@[0] != "info"@[0] && "trace"@[0] != "warn"@[0]
            && "trace"@[0] != "error"@[0] && "trace"@[0] != "fatal"@[0] && "trace"@[0] != "silent"@[0]);
    }
    assert("debug"@ != "info"@ && "debug"@ != "warn"@ && "debug"@ != "error"@ && "debug"@ != "fatal"@
        && "debug"@ != "silent"@) by {
        assert("debug"@[0] != "info"@[0] && "debug"@[0] != "warn"@[0] && "debug"@[0] != "error"@[0]
            && "debug"@[0] != "fatal"@[0] && "debug"@[0] != "silent"@[0]);
    }
    assert("info"@ != "warn"@ && "info"@ != "error"@ && "info"@ != "fatal"@ && "info"@ != "silent"@) by {
        assert("info"@[0] != "warn"@[0] && "info"@[0] != "error"@[0] && "info"@[0] != "fatal"@[0]
            && "info"@[0] != "silent"@[0]);
    }
    assert("warn"@ != "error"@ && "warn"@ != "fatal"@ && "warn"@ != "silent"@) by {
        assert("warn"@[0] != "error"@[0] && "warn"@[0] != "fatal"@[0] && "warn"@[0] != "silent"@[0]);
    }
    assert("error"@ != "fatal"@ && "error"@ != "silent"@) by {
        assert("error"@[0] != "fatal"@[0] && "error"@[0] != "silent"@[0]);
    }
    assert("fatal"@ != "silent"@) by {
        assert("fatal"@[0] != "silent"@[0]);
    }
}

/// Gating is monotonic: a logger that writes at `low` also writes at every
/// level at or above it. Without a valid override in the environment it
/// writes exactly the levels at or above its own threshold; a valid override
/// replaces that threshold entirely.
pub proof fn should_log_is_monotonic(
    own: LogLevel,
    env_level: Option<Seq<char>>,
    low: LogLevel,
    high: LogLevel,
    value: Seq<char>,
    named: LogLevel,
)
    ensures
        passes(own, env_level, low) && low.ordinal() <= high.ordinal() ==> passes(own, env_level, high),
        passes(own, None, low) <==> low.ordinal() >= own.ordinal(),
        parsed(lower_of(value)) is Err ==> (passes(own, Some(value), low) <==> low.ordinal() >= own.ordinal()),
        parsed(lower_of(value)) == Ok::<LogLevel, ParseLogLevelError>(named) ==> effective_threshold(own, Some(value)) == named
            && (passes(own, Some(value), low) <==> low.ordinal() >= named.ordinal()),
{
}

/// Each one-shot setter of the process-wide logger takes effect on its first
/// call only: a second call, with any argument, changes nothing. Whether a
/// setter has fired does not depend on the other setters or on whether the
/// logger has been fixed; once fixed, the logger in use no longer changes.
pub proof fn one_shot_setters_fire_once<S>(
    g: GlobalView<S>,
    first: LogLevel,
    second: LogLevel,
    t1: Timestamp,
    t2: Timestamp,
    f1: S,
    f2: S,
)
    ensures
        g.after_set_log_level(first).after_set_log_level(second) == g.after_set_log_level(first),
        g.after_set_timestamp(t1).after_set_timestamp(t2) == g.after_set_timestamp(t1),
        g.after_set_logging_function(f1).after_set_logging_function(f2) == g.after_set_logging_function(f1),
        g.after_disable_ansi().after_disable_ansi() == g.after_disable_ansi(),
        !g.level_set ==> g.after_set_log_level(first).after_set_log_level(second).pending.log_level == first,
        g.instance is None && !g.level_set ==> g.after_set_log_level(first).after_set_log_level(
            second,
        ).effective().log_level == first,
        !g.timestamp_set ==> g.after_set_timestamp(t1).pending.timestamp == t1,
        !g.function_set ==> g.after_set_logging_function(f1).pending.logging_function == f1,
        !g.ansi_set ==> g.after_disable_ansi().pending.suppress_ansi,
        g.after_set_log_level(first).timestamp_set == g.timestamp_set,
        g.after_set_log_level(first).function_set == g.function_set,
        g.after_set_log_level(first).ansi_set == g.ansi_set,
        g.after_set_timestamp(t1).level_set == g.level_set,
        g.after_set_logging_function(f1).level_set == g.level_set,
        g.after_disable_ansi().level_set == g.level_set,
        g.instance is Some ==> g.after_set_log_level(first).effective() == g.effective()
            && g.after_set_timestamp(t1).effective() == g.effective()
            && g.after_set_logging_function(f1).effective() == g.effective()
            && g.after_disable_ansi().effective() == g.effective(),
{
}

} // verus!
