//! The textual command protocol: one command per line, case-insensitive,
//! whitespace-tokenized.
use vstd::prelude::*;

use crate::text::{
    chars_eq, chars_of, find_char, find_first, lemma_find_first, lemma_find_first_at,
    lower_chars, lower_seq, string_of_chars, subrange_chars,
};

verus! {

broadcast use vstd::string::group_string_axioms;

/// A parsed command line.
#[derive(Debug, Clone)]
pub enum UserInput {
    Pause,
    Resume,
    Quit,
    Help,
    Clear,
    Tap,
    SetTempo(String),
    SetTempoDirect(u16),
    SetTimeSignature(String),
    SetTempoType(String),
    SetSubdivision(String),
    SetSubdivisionSetting(String),
    SetTimer(String),
    StopTimer,
    Unknown(String),
}

/// The first space-separated token of a line; the whole line when it has no
/// space.
pub open spec fn token0(s: Seq<char>) -> Seq<char> {
    match find_first(s, ' ') {
        None => s,
        Some(i) => s.take(i),
    }
}

/// The second space-separated token; empty when the line has none.
pub open spec fn token1(s: Seq<char>) -> Seq<char> {
    match find_first(s, ' ') {
        None => Seq::empty(),
        Some(i) => token0(s.skip(i + 1)),
    }
}

/// Whether the lower-cased leading token is one of the command words.
pub open spec fn is_command_word(t: Seq<char>) -> bool {
    ||| t == "pause"@
    ||| t == "p"@
    ||| t == "resume"@
    ||| t == "r"@
    ||| t == "quit"@
    ||| t == "q"@
    ||| t == "help"@
    ||| t == "h"@
    ||| t == "clear"@
    ||| t == "c"@
    ||| t == "tempo"@
    ||| t == "t"@
    ||| t == "time"@
    ||| t == "tempo-type"@
    ||| t == "tt"@
    ||| t == "subdivision"@
    ||| t == "s"@
    ||| t == "subdivision-setting"@
    ||| t == "ss"@
    ||| t == "tap"@
    ||| t == "timer"@
}

impl UserInput {
    /// Parses one line: the line is lower-cased, its first token names the
    /// command, and its second token is the command's argument. A leading
    /// token that names no command is reported back as `Unknown`.
    pub fn parse_line(line: &str) -> (r: UserInput)
        ensures
            ({
                let low = lower_seq(line@);
                let t0 = token0(low);
                let t1 = token1(low);
                &&& (t0 == "pause"@ || t0 == "p"@) ==> r is Pause
                &&& (t0 == "resume"@ || t0 == "r"@) ==> r is Resume
                &&& (t0 == "quit"@ || t0 == "q"@) ==> r is Quit
                &&& (t0 == "help"@ || t0 == "h"@) ==> r is Help
                &&& (t0 == "clear"@ || t0 == "c"@) ==> r is Clear
                &&& (t0 == "tempo"@ || t0 == "t"@) ==> (r matches UserInput::SetTempo(a) && a@
                    == t1)
                &&& t0 == "time"@ ==> (r matches UserInput::SetTimeSignature(a) && a@ == t1)
                &&& (t0 == "tempo-type"@ || t0 == "tt"@) ==> (r matches UserInput::SetTempoType(
                    a,
                ) && a@ == t1)
                &&& (t0 == "subdivision"@ || t0 == "s"@) ==> (r
                    matches UserInput::SetSubdivision(a) && a@ == t1)
                &&& (t0 == "subdivision-setting"@ || t0 == "ss"@) ==> (r
                    matches UserInput::SetSubdivisionSetting(a) && a@ == t1)
                &&& t0 == "tap"@ ==> r is Tap
                &&& t0 == "timer"@ ==> (if t1 == "stop"@ {
                    r is StopTimer
                } else {
                    r matches UserInput::SetTimer(a) && a@ == t1
                })
                &&& !is_command_word(t0) ==> (r matches UserInput::Unknown(a) && a@ == t0)
            }),
    {
        proof {
            lemma_command_words_distinct();
        }
        let low = lower_chars(chars_of(line).as_slice());
        let (tok0, tok1): (Vec<char>, Vec<char>) = match find_char(low.as_slice(), ' ', 0) {
            None => {
                proof {
                    lemma_find_first(low@, ' ');
                    match find_first(low@, ' ') {
                        Some(i) => {
                            assert(low@[i] != ' ');
                        },
                        None => {},
                    }
                }
                let t0 = subrange_chars(low.as_slice(), 0, low.len());
                proof {
                    assert(t0@ =~= low@);
                }
                (t0, Vec::new())
            },
            Some(i) => {
                proof {
                    lemma_find_first_at(low@, ' ', i as int);
                }
                let t0 = subrange_chars(low.as_slice(), 0, i);
                let ghost rest = low@.skip(i + 1);
                let t1 = match find_char(low.as_slice(), ' ', i + 1) {
                    None => {
                        proof {
                            lemma_find_first(rest, ' ');
                            match find_first(rest, ' ') {
                                Some(k) => {
                                    assert(rest[k] == low@[i + 1 + k]);
                                },
                                None => {},
                            }
                        }
                        let t = subrange_chars(low.as_slice(), i + 1, low.len());
                        proof {
                            assert(t@ =~= rest);
                        }
                        t
                    },
                    Some(j) => {
                        proof {
                            assert(rest[j - (i + 1)] == low@[j as int]);
                            assert forall|k: int| 0 <= k < j - (i + 1) implies rest[k] != ' ' by {
                                assert(rest[k] == low@[i + 1 + k]);
                            }
                            lemma_find_first_at(rest, ' ', j - (i + 1));
                        }
                        let t = subrange_chars(low.as_slice(), i + 1, j);
                        proof {
                            assert(t@ =~= rest.take(j - (i + 1)));
                        }
                        t
                    },
                };
                (t0, t1)
            },
        };
        let c = tok0.as_slice();
        if chars_eq(c, chars_of("pause").as_slice()) || chars_eq(c, chars_of("p").as_slice()) {
            UserInput::Pause
        } else if chars_eq(c, chars_of("resume").as_slice()) || chars_eq(
            c,
            chars_of("r").as_slice(),
        ) {
            UserInput::Resume
        } else if chars_eq(c, chars_of("quit").as_slice()) || chars_eq(
            c,
            chars_of("q").as_slice(),
        ) {
            UserInput::Quit
        } else if chars_eq(c, chars_of("help").as_slice()) || chars_eq(
            c,
            chars_of("h").as_slice(),
        ) {
            UserInput::Help
        } else if chars_eq(c, chars_of("clear").as_slice()) || chars_eq(
            c,
            chars_of("c").as_slice(),
        ) {
            UserInput::Clear
        } else if chars_eq(c, chars_of("tempo").as_slice()) || chars_eq(
            c,
            chars_of("t").as_slice(),
        ) {
            UserInput::SetTempo(string_of_chars(tok1.as_slice()))
        } else if chars_eq(c, chars_of("time").as_slice()) {
            UserInput::SetTimeSignature(string_of_chars(tok1.as_slice()))
        } else if chars_eq(c, chars_of("tempo-type").as_slice()) || chars_eq(
            c,
            chars_of("tt").as_slice(),
        ) {
            UserInput::SetTempoType(string_of_chars(tok1.as_slice()))
        } else if chars_eq(c, chars_of("subdivision").as_slice()) || chars_eq(
            c,
            chars_of("s").as_slice(),
        ) {
            UserInput::SetSubdivision(string_of_chars(tok1.as_slice()))
        } else if chars_eq(c, chars_of("subdivision-setting").as_slice()) || chars_eq(
            c,
            chars_of("ss").as_slice(),
        ) {
            UserInput::SetSubdivisionSetting(string_of_chars(tok1.as_slice()))
        } else if chars_eq(c, chars_of("tap").as_slice()) {
            UserInput::Tap
        } else if chars_eq(c, chars_of("timer").as_slice()) {
            if chars_eq(tok1.as_slice(), chars_of("stop").as_slice()) {
                UserInput::StopTimer
            } else {
                UserInput::SetTimer(string_of_chars(tok1.as_slice()))
            }
        } else {
            UserInput::Unknown(string_of_chars(tok0.as_slice()))
        }
    }
}

/// No two command words are the same text: they differ in length, or in
/// their first character, or — for `tempo` and `timer` — in their second.
proof fn lemma_command_words_distinct()
    ensures
        "pause"@.len() == 5 && "p"@.len() == 1 && "resume"@.len() == 6 && "r"@.len() == 1,
        "quit"@.len() == 4 && "q"@.len() == 1 && "help"@.len() == 4 && "h"@.len() == 1,
        "clear"@.len() == 5 && "c"@.len() == 1 && "tempo"@.len() == 5 && "t"@.len() == 1,
        "time"@.len() == 4 && "tempo-type"@.len() == 10 && "tt"@.len() == 2,
        "subdivision"@.len() == 11 && "s"@.len() == 1 && "subdivision-setting"@.len() == 19,
        "ss"@.len() == 2 && "tap"@.len() == 3 && "timer"@.len() == 5 && "stop"@.len() == 4,
        "pause"@[0] == 'p' && "clear"@[0] == 'c' && "tempo"@[0] == 't' && "timer"@[0] == 't',
        "tempo"@[1] == 'e' && "timer"@[1] == 'i',
        "quit"@[0] == 'q' && "help"@[0] == 'h' && "time"@[0] == 't' && "stop"@[0] == 's',
        "p"@[0] == 'p' && "r"@[0] == 'r' && "q"@[0] == 'q' && "h"@[0] == 'h' && "c"@[0] == 'c',
        "t"@[0] == 't' && "s"@[0] == 's' && "tt"@[0] == 't' && "ss"@[0] == 's',
{
    reveal_strlit("pause");
    reveal_strlit("p");
    reveal_strlit("resume");
    reveal_strlit("r");
    reveal_strlit("quit");
    reveal_strlit("q");
    reveal_strlit("help");
    reveal_strlit("h");
    reveal_strlit("clear");
    reveal_strlit("c");
    reveal_strlit("tempo");
    reveal_strlit("t");
    reveal_strlit("time");
    reveal_strlit("tempo-type");
    reveal_strlit("tt");
    reveal_strlit("subdivision");
    reveal_strlit("s");
    reveal_strlit("subdivision-setting");
    reveal_strlit("ss");
    reveal_strlit("tap");
    reveal_strlit("timer");
    reveal_strlit("stop");
}

} // verus!
