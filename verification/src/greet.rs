//! Argument validation and greeting: resolve a display name from the process
//! argument list, or report a structured error when too many arguments were
//! given.

use vstd::prelude::*;
use vstd::string::StringExecFns;

use crate::text::decimal_text;
use crate::text::is_blank;
use crate::text::push_decimal;
use crate::text::str_is_blank;

verus! {

/// The operation that raises the validation error.
pub open spec fn operation_name() -> Seq<char> {
    "parseNameFromArgs"@
}

/// The invocation shape that the validator expects.
pub open spec fn expected_usage() -> Seq<char> {
    "cargo run -- [name]"@
}

/// The display name used when no usable name argument was given.
pub open spec fn default_name() -> Seq<char> {
    "World"@
}

/// The display name resolved from a full argument list (element 0 is the
/// program's own name): the single positional argument when it is present and
/// not blank, the default name otherwise.
pub open spec fn resolved_name(args: Seq<String>) -> Seq<char> {
    if args.len() >= 2 && !is_blank(args[1]@) {
        args[1]@
    } else {
        default_name()
    }
}

/// The error raised when the argument list does not match the expected shape.
#[allow(non_snake_case)]
#[derive(Debug, Clone)]
pub struct InvalidArgumentsError {
    /// The name of the operation that raised the error.
    pub functionName: &'static str,
    /// The argument list that was received, program name included.
    pub args: Vec<String>,
    /// The invocation shape that was expected.
    pub expectedUsage: &'static str,
}

/// `s` surrounded by double quotes.
pub open spec fn quoted(s: Seq<char>) -> Seq<char> {
    "\""@ + s + "\""@
}

/// The first `i` arguments, each quoted, joined by comma and space.
pub open spec fn listed_upto(args: Seq<String>, i: int) -> Seq<char>
    decreases i,
{
    if i <= 0 {
        Seq::<char>::empty()
    } else if i == 1 {
        quoted(args[0]@)
    } else {
        listed_upto(args, i - 1) + ", "@ + quoted(args[i - 1]@)
    }
}

/// The whole argument list, quoted and bracketed.
pub open spec fn listed_args(args: Seq<String>) -> Seq<char> {
    "["@ + listed_upto(args, args.len() as int) + "]"@
}

/// The full diagnostic text: operation name, expected usage, argument count
/// and the received arguments.
pub open spec fn message_text(operation: Seq<char>, args: Seq<String>, usage: Seq<char>) -> Seq<
    char,
> {
    "Invalid arguments in "@ + operation + ".\n  expected: "@ + usage + "\n  actual args("@
        + decimal_text(args.len()) + "): "@ + listed_args(args)
}

impl InvalidArgumentsError {
    /// Renders the diagnostic text carried by this error.
    pub fn message(&self) -> (r: String)
        ensures
            r@ == message_text(self.functionName@, self.args@, self.expectedUsage@),
    {
        let mut m = String::from_str("Invalid arguments in ");
        m.append(self.functionName);
        m.append(".\n  expected: ");
        m.append(self.expectedUsage);
        m.append("\n  actual args(");
        push_decimal(self.args.len(), &mut m);
        m.append("): ");
        m.append("[");
        let ghost head = m@;
        let n: usize = self.args.len();
        let mut i: usize = 0;
        while i < n
            invariant
                i <= n,
                n == self.args.len(),
                m@ == head + listed_upto(self.args@, i as int),
            decreases n - i,
        {
            if i > 0 {
                m.append(", ");
            }
            m.append("\"");
            m.append(self.args[i].as_str());
            m.append("\"");
            i = i + 1;
            proof {
                assert(m@ =~= head + listed_upto(self.args@, i as int));
            }
        }
        m.append("]");
        proof {
            assert(m@ =~= message_text(self.functionName@, self.args@, self.expectedUsage@));
        }
        m
    }
}

/// Resolves the display name from the full argument list (element 0 is the
/// program's own name). At most one positional argument is allowed; a blank
/// one falls back to the default name.
#[allow(non_snake_case)]
pub fn parseNameFromArgs(args: &[String]) -> (r: Result<String, InvalidArgumentsError>)
    ensures
        r is Ok <==> args@.len() <= 2,
        r matches Ok(name) ==> name@ == resolved_name(args@),
        r matches Err(e) ==> {
            &&& e.functionName@ == operation_name()
            &&& e.args@ == args@
            &&& e.expectedUsage@ == expected_usage()
        },
{
    if args.len() >= 3 {
        let n: usize = args.len();
        let mut received: Vec<String> = Vec::new();
        let mut i: usize = 0;
        while i < n
            invariant
                i <= n,
                n == args@.len(),
                received@ == args@.subrange(0, i as int),
            decreases n - i,
        {
            received.push(args[i].clone());
            i = i + 1;
            proof {
                assert(received@ =~= args@.subrange(0, i as int));
            }
        }
        proof {
            assert(received@ =~= args@);
        }
        return Err(
            InvalidArgumentsError {
                functionName: "parseNameFromArgs",
                args: received,
                expectedUsage: "cargo run -- [name]",
            },
        );
    }
    if args.len() == 2 {
        let candidate = &args[1];
        if !str_is_blank(candidate.as_str()) {
            return Ok(candidate.clone());
        }
    }
    Ok(String::from_str("World"))
}

/// The greeting line for a resolved display name.
pub open spec fn greeting_text(name: Seq<char>) -> Seq<char> {
    "Hello, "@ + name + "!"@
}

/// Builds the greeting line for a resolved display name.
pub fn greeting(name: &str) -> (r: String)
    ensures
        r@ == greeting_text(name@),
{
    let mut m = String::from_str("Hello, ");
    m.append(name);
    m.append("!");
    proof {
        assert(m@ =~= greeting_text(name@));
    }
    m
}

/// The error line written on the failure path: the diagnostic text behind an
/// error marker.
pub open spec fn error_line_text(args: Seq<String>) -> Seq<char> {
    "[ERROR] "@ + message_text(operation_name(), args, expected_usage())
}

/// What one run of the program writes, as a function of its argument list:
/// the greeting line on success, the error line on failure.
pub open spec fn run_output(args: Seq<String>) -> Result<Seq<char>, Seq<char>> {
    if args.len() <= 2 {
        Result::Ok(greeting_text(resolved_name(args)))
    } else {
        Result::Err(error_line_text(args))
    }
}

/// One run over the full argument list: the line for the output stream on
/// success, the line for the error stream on failure.
pub fn run(args: &[String]) -> (r: Result<String, String>)
    ensures
        r is Ok <==> run_output(args@) is Ok,
        r matches Ok(line) ==> run_output(args@) == Result::<Seq<char>, Seq<char>>::Ok(line@),
        r matches Err(line) ==> run_output(args@) == Result::<Seq<char>, Seq<char>>::Err(line@),
{
    match parseNameFromArgs(args) {
        Ok(name) => Ok(greeting(name.as_str())),
        Err(e) => {
            let mut line = String::from_str("[ERROR] ");
            let message = e.message();
            line.append(message.as_str());
            proof {
                assert(line@ =~= error_line_text(args@));
            }
            Err(line)
        },
    }
}

} // verus!
