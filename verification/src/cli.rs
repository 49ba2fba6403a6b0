//! What the command line asks for: the input path and the output path.
use crate::filename::{default_output, default_output_filename};
use vstd::prelude::*;

verus! {

/// The paths of one run.
#[derive(Debug, PartialEq, Eq)]
pub struct Paths {
    pub input: String,
    pub output: String,
}

/// The command line names no input path.
#[derive(Clone, Copy, Debug, PartialEq, Eq)]
pub struct UsageError;

/// The output path that goes with `input`: the one given, or the default
/// derived from the input path.
pub open spec fn output_for(input: Seq<char>, given: Option<Seq<char>>) -> Seq<char> {
    match given {
        Some(output) => output,
        None => default_output(input),
    }
}

/// The second argument, if there is one.
pub open spec fn given_output(args: Seq<String>) -> Option<Seq<char>> {
    if args.len() >= 2 {
        Some(args[1]@)
    } else {
        None
    }
}

/// Reads the paths off the arguments that follow the program's name: the
/// first is the input path, the second, if any, the output path; further
/// arguments are not looked at. No argument at all is a usage error.
pub fn resolve_paths(args: &Vec<String>) -> (r: Result<Paths, UsageError>)
    ensures
        r is Ok <==> args@.len() >= 1,
        r matches Ok(paths) ==> {
            &&& paths.input@ == args@[0]@
            &&& paths.output@ == output_for(args@[0]@, given_output(args@))
        },
{
    if args.len() == 0 {
        return Err(UsageError);
    }
    let input = args[0].clone();
    let output = if args.len() >= 2 {
        args[1].clone()
    } else {
        default_output_filename(input.as_str())
    };
    Ok(Paths { input, output })
}

} // verus!
