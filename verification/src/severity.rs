//! The monitoring states and what a supervisor is told about each.

use vstd::prelude::*;

verus! {

/// State of the monitored repeater, as a monitoring supervisor understands it.
///
/// `Unknown` stands for a probe that could not measure: the thresholds never
/// lead to it.
#[derive(Clone, Copy, Debug, PartialEq, Eq, Structural)]
pub enum Severity {
    Okay,
    Warning,
    Critical,
    Unknown,
}

impl Severity {
    /// The exit code that tells a supervisor of this state.
    pub open spec fn code(self) -> int {
        match self {
            Severity::Okay => 0,
            Severity::Warning => 1,
            Severity::Critical => 2,
            Severity::Unknown => 3,
        }
    }

    /// The word for this state in a status line.
    pub open spec fn word(self) -> Seq<char> {
        match self {
            Severity::Okay => seq!['O', 'K'],
            Severity::Warning => seq!['W', 'A', 'R', 'N', 'I', 'N', 'G'],
            Severity::Critical => seq!['C', 'R', 'I', 'T', 'I', 'C', 'A', 'L'],
            Severity::Unknown => seq!['U', 'N', 'K', 'N', 'O', 'W', 'N'],
        }
    }

    /// Exit code of the process that reports this state.
    pub fn exit_code(&self) -> (code: i32)
        ensures
            code == self.code(),
    {
        match self {
            Severity::Okay => 0,
            Severity::Warning => 1,
            Severity::Critical => 2,
            Severity::Unknown => 3,
        }
    }

    /// The state's word, in capitals, as it stands in a status line.
    pub fn as_str(&self) -> (word: &'static str)
        ensures
            word@ == self.word(),
    {
        match self {
            Severity::Okay => {
                proof {
                    reveal_strlit("OK");
                }
                assert("OK"@ =~= self.word());
                "OK"
            },
            Severity::Warning => {
                proof {
                    reveal_strlit("WARNING");
                }
                assert("WARNING"@ =~= self.word());
                "WARNING"
            },
            Severity::Critical => {
                proof {
                    reveal_strlit("CRITICAL");
                }
                assert("CRITICAL"@ =~= self.word());
                "CRITICAL"
            },
            Severity::Unknown => {
                proof {
                    reveal_strlit("UNKNOWN");
                }
                assert("UNKNOWN"@ =~= self.word());
                "UNKNOWN"
            },
        }
    }
}

} // verus!
