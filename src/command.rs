//! The command line read as a request: a byte source and a strategy.
use crate::stream::Strategy;
use vstd::prelude::*;

verus! {

/// Where the bytes come from.
#[derive(Debug)]
pub enum Source {
    /// The contents of the file at this path.
    File(String),
    /// The UTF-8 bytes of this text.
    Text(String),
}

/// What one invocation computes.
#[derive(Debug)]
pub struct Request {
    pub source: Source,
    pub strategy: Strategy,
}

/// Why the arguments ask for nothing that can be computed.
#[derive(Clone, Copy, Debug, PartialEq, Eq, Structural)]
pub enum UsageError {
    /// Fewer than a mode and a value after the program name.
    MissingArguments,
    /// The mode is neither `--file` nor `--string`.
    UnknownMode,
}

pub open spec fn file_flag() -> Seq<char> {
    "--file"@
}

pub open spec fn string_flag() -> Seq<char> {
    "--string"@
}

pub open spec fn validate_flag() -> Seq<char> {
    "--validate-slow"@
}

/// The strategy that the arguments select: the reference digest only when a
/// third argument after the program name is exactly `--validate-slow`.
pub open spec fn selected_strategy(args: Seq<String>) -> Strategy {
    if args.len() == 4 && args[3]@ == validate_flag() {
        Strategy::Reference
    } else {
        Strategy::Accelerated
    }
}

/// Reads the arguments, the program name first.
pub fn parse_args(args: &Vec<String>) -> (r: Result<Request, UsageError>)
    ensures
        args@.len() < 3 <==> r == Err::<Request, UsageError>(UsageError::MissingArguments),
        r == Err::<Request, UsageError>(UsageError::UnknownMode) <==> (args@.len() >= 3
            && args@[1]@ != file_flag() && args@[1]@ != string_flag()),
        r is Ok <==> (args@.len() >= 3 && (args@[1]@ == file_flag() || args@[1]@
            == string_flag())),
        r is Ok ==> r->Ok_0.strategy == selected_strategy(args@),
        r is Ok && args@[1]@ == file_flag() ==> (r->Ok_0.source matches Source::File(p)
            && p@ == args@[2]@),
        r is Ok && args@[1]@ == string_flag() ==> (r->Ok_0.source matches Source::Text(t)
            && t@ == args@[2]@),
{
    if args.len() < 3 {
        return Err(UsageError::MissingArguments);
    }
    let validate = "--validate-slow".to_owned();
    let strategy = if args.len() == 4 && args[3] == validate {
        Strategy::Reference
    } else {
        Strategy::Accelerated
    };
    let file = "--file".to_owned();
    let string = "--string".to_owned();
    proof {
        reveal_strlit("--file");
        reveal_strlit("--string");
        assert(file_flag().len() != string_flag().len());
    }
    if args[1] == file {
        Ok(Request { source: Source::File(args[2].clone()), strategy })
    } else if args[1] == string {
        Ok(Request { source: Source::Text(args[2].clone()), strategy })
    } else {
        Err(UsageError::UnknownMode)
    }
}

} // verus!
