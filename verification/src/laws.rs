//! The guarantees of the library, stated and proved once over the whole-run
//! model `run_output`.

use vstd::prelude::*;

use crate::greet::default_name;
use crate::greet::error_line_text;
use crate::greet::expected_usage;
use crate::greet::greeting_text;
use crate::greet::listed_args;
use crate::greet::listed_upto;
use crate::greet::message_text;
use crate::greet::operation_name;
use crate::greet::quoted;
use crate::greet::resolved_name;
use crate::greet::run_output;
use crate::text::contains_text;
use crate::text::decimal_text;
use crate::text::is_blank;
use crate::text::lemma_contains_left;
use crate::text::lemma_contains_right;
use crate::text::lemma_contains_self;

verus! {

/// The greeting built around the default name is the whole default greeting
/// line.
proof fn lemma_default_greeting_line()
    ensures
        greeting_text(default_name()) == "Hello, World!"@,
{
    reveal_strlit("Hello, ");
    reveal_strlit("World");
    reveal_strlit("!");
    reveal_strlit("Hello, World!");
    assert(greeting_text(default_name()) =~= "Hello, World!"@);
}

/// The resolved display name is never blank: a usable custom name is kept,
/// and everything else falls back to the default name.
pub proof fn lemma_resolved_name_never_blank(args: Seq<String>)
    ensures
        !is_blank(resolved_name(args)),
{
    if !(args.len() >= 2 && !is_blank(args[1]@)) {
        reveal_strlit("World");
        assert(default_name()[0] == 'W');
        assert(!crate::text::is_space_char('W'));
    }
}

/// A run with no positional argument greets the world.
pub proof fn lemma_no_argument_greets_world(args: Seq<String>)
    requires
        args.len() <= 1,
    ensures
        run_output(args) == Result::<Seq<char>, Seq<char>>::Ok("Hello, World!"@),
{
    lemma_default_greeting_line();
}

/// A run with exactly one positional argument that is not blank greets that
/// argument verbatim.
pub proof fn lemma_single_name_greeted_verbatim(args: Seq<String>)
    requires
        args.len() == 2,
        !is_blank(args[1]@),
    ensures
        run_output(args) == Result::<Seq<char>, Seq<char>>::Ok("Hello, "@ + args[1]@ + "!"@),
{
}

/// A run with exactly one positional argument that is blank greets the world.
pub proof fn lemma_blank_name_greets_world(args: Seq<String>)
    requires
        args.len() == 2,
        is_blank(args[1]@),
    ensures
        run_output(args) == Result::<Seq<char>, Seq<char>>::Ok("Hello, World!"@),
{
    lemma_default_greeting_line();
}

/// A run fails exactly when two or more positional arguments were given.
pub proof fn lemma_failure_exactly_on_extra_arguments(args: Seq<String>)
    ensures
        run_output(args) is Err <==> args.len() >= 3,
{
}

/// Quoting a text keeps the text itself visible inside it.
proof fn lemma_quoted_contains(s: Seq<char>)
    ensures
        contains_text(quoted(s), s),
{
    lemma_contains_self(s);
    lemma_contains_right("\""@, s, s);
    lemma_contains_left("\""@ + s, "\""@, s);
}

/// Each of the first `i` arguments occurs inside their joined rendering.
proof fn lemma_listed_upto_contains(args: Seq<String>, i: int, j: int)
    requires
        0 <= j < i <= args.len(),
    ensures
        contains_text(listed_upto(args, i), args[j]@),
    decreases i,
{
    if j == i - 1 {
        lemma_quoted_contains(args[j]@);
        if i >= 2 {
            lemma_contains_right(
                listed_upto(args, i - 1) + ", "@,
                quoted(args[i - 1]@),
                args[j]@,
            );
        }
    } else {
        lemma_listed_upto_contains(args, i - 1, j);
        lemma_contains_left(listed_upto(args, i - 1), ", "@, args[j]@);
        lemma_contains_left(listed_upto(args, i - 1) + ", "@, quoted(args[i - 1]@), args[j]@);
    }
}

/// The error line of a failed run carries every received argument verbatim.
pub proof fn lemma_error_reports_arguments(args: Seq<String>, j: int)
    requires
        args.len() >= 3,
        0 <= j < args.len(),
    ensures
        contains_text(error_line_text(args), args[j]@),
{
    let part = args[j]@;
    let joined = listed_upto(args, args.len() as int);
    lemma_listed_upto_contains(args, args.len() as int, j);
    lemma_contains_right("["@, joined, part);
    lemma_contains_left("["@ + joined, "]"@, part);
    let head = "Invalid arguments in "@ + operation_name() + ".\n  expected: "@ + expected_usage()
        + "\n  actual args("@ + decimal_text(args.len()) + "): "@;
    lemma_contains_right(head, listed_args(args), part);
    lemma_contains_right("[ERROR] "@, message_text(operation_name(), args, expected_usage()), part);
}

/// The error line of a failed run carries the received argument count in
/// decimal.
pub proof fn lemma_error_reports_count(args: Seq<String>)
    requires
        args.len() >= 3,
    ensures
        contains_text(error_line_text(args), decimal_text(args.len())),
{
    let count = decimal_text(args.len());
    let head = "Invalid arguments in "@ + operation_name() + ".\n  expected: "@ + expected_usage()
        + "\n  actual args("@;
    lemma_contains_self(count);
    lemma_contains_right(head, count, count);
    lemma_contains_left(head + count, "): "@, count);
    lemma_contains_left(head + count + "): "@, listed_args(args), count);
    lemma_contains_right("[ERROR] "@, message_text(operation_name(), args, expected_usage()), count);
}

/// The error line of a failed run carries the error marker.
pub proof fn lemma_error_line_is_marked(args: Seq<String>)
    requires
        args.len() >= 3,
    ensures
        contains_text(error_line_text(args), "[ERROR]"@),
{
    reveal_strlit("[ERROR]");
    reveal_strlit("[ERROR] ");
    let line = error_line_text(args);
    assert(line.subrange(0, 0 + "[ERROR]"@.len() as int) =~= "[ERROR]"@);
}

/// Two runs over identical argument lists write identical lines to the same
/// streams: the run's outcome is a function of its arguments alone.
pub proof fn lemma_identical_runs_agree(first: Seq<String>, second: Seq<String>)
    requires
        first == second,
    ensures
        run_output(first) == run_output(second),
{
}

} // verus!
