//! The launcher's decisions: validating a terminal number argument and
//! mapping a parsed command line to the step to run. Argument reading and
//! the steps themselves (process and terminal work) live outside the
//! library.

use vstd::prelude::*;

use vstd::slice::slice_index_get;

verus! {

/// Whether every byte is a decimal digit.
pub open spec fn spec_all_digits(s: Seq<u8>) -> bool {
    forall|i: int| 0 <= i < s.len() ==> 48 <= #[trigger] s[i] <= 57
}

/// The number a digit string denotes.
pub open spec fn spec_digits_val(s: Seq<u8>) -> int
    decreases s.len(),
{
    if s.len() == 0 {
        0
    } else {
        spec_digits_val(s.drop_last()) * 10 + (s.last() - 48)
    }
}

/// The digits of a number written with an optional leading `+`.
pub open spec fn spec_numeric_body(s: Seq<u8>) -> Seq<u8> {
    if s.len() > 0 && s[0] == 43 {
        s.drop_first()
    } else {
        s
    }
}

/// Whether the string parses as a 16-bit number: a non-empty digit string
/// after the optional sign, denoting at most 65535.
pub open spec fn spec_parses_u16(s: Seq<u8>) -> bool {
    let b = spec_numeric_body(s);
    b.len() > 0 && spec_all_digits(b) && spec_digits_val(b) <= 65535
}

/// A digit string denotes nothing negative.
pub proof fn lemma_digits_val_nonneg(s: Seq<u8>)
    requires
        spec_all_digits(s),
    ensures
        spec_digits_val(s) >= 0,
    decreases s.len(),
{
    if s.len() > 0 {
        assert(spec_all_digits(s.drop_last()));
        lemma_digits_val_nonneg(s.drop_last());
    }
}

/// A digit string denotes at least what any of its prefixes denotes.
pub proof fn lemma_digits_val_prefix(s: Seq<u8>, k: int)
    requires
        spec_all_digits(s),
        0 <= k <= s.len(),
    ensures
        spec_digits_val(s.take(k)) <= spec_digits_val(s),
    decreases s.len() - k,
{
    if k < s.len() {
        lemma_digits_val_prefix(s, k + 1);
        let p = s.take(k + 1);
        assert(p.drop_last() =~= s.take(k));
        assert(spec_all_digits(s.take(k)));
        lemma_digits_val_nonneg(s.take(k));
        assert(spec_digits_val(p) == spec_digits_val(s.take(k)) * 10 + (s[k] - 48));
    } else {
        assert(s.take(k) =~= s);
    }
}

/// Why a terminal number argument is refused: not a number at all, or
/// below the smallest usable terminal.
#[derive(Clone, Copy, Debug, PartialEq, Eq, Structural)]
pub enum TtyNumberError {
    NotANumber,
    TooSmall,
}

/// Validates a terminal-number argument: it must parse as a 16-bit number
/// and be at least one.
pub fn validate_tty_number(s: &Vec<u8>) -> (r: Result<u16, TtyNumberError>)
    ensures
        !spec_parses_u16(s@) ==> r == Err::<u16, TtyNumberError>(TtyNumberError::NotANumber),
        spec_parses_u16(s@) && spec_digits_val(spec_numeric_body(s@)) == 0 ==> r == Err::<
            u16,
            TtyNumberError,
        >(TtyNumberError::TooSmall),
        spec_parses_u16(s@) && spec_digits_val(spec_numeric_body(s@)) >= 1 ==> (r matches Ok(n)
            && n == spec_digits_val(spec_numeric_body(s@))),
{
    let n: usize = s.len();
    let start: usize = if n > 0 && *slice_index_get(s.as_slice(), 0) == 43 {
        1
    } else {
        0
    };
    let ghost body = spec_numeric_body(s@);
    proof {
        assert(body =~= s@.subrange(start as int, n as int));
    }
    if n == start {
        return Err(TtyNumberError::NotANumber);
    }
    let mut acc: u32 = 0;
    let mut i: usize = start;
    while i < n
        invariant
            n == s@.len(),
            start <= i <= n,
            start <= 1,
            n > start,
            body == spec_numeric_body(s@),
            body =~= s@.subrange(start as int, n as int),
            spec_all_digits(s@.subrange(start as int, i as int)),
            acc == spec_digits_val(s@.subrange(start as int, i as int)),
            acc <= 65535,
        decreases n - i,
    {
        let c: u8 = *slice_index_get(s.as_slice(), i);
        if c < 48 || c > 57 {
            proof {
                assert(body[i - start] == c);
                assert(!spec_all_digits(body));
            }
            return Err(TtyNumberError::NotANumber);
        }
        acc = acc * 10 + ((c - 48) as u32);
        proof {
            let p = s@.subrange(start as int, i + 1);
            assert(p.drop_last() =~= s@.subrange(start as int, i as int));
            assert(p.last() == c);
        }
        if acc > 65535 {
            proof {
                if spec_all_digits(body) {
                    assert(body.take(i + 1 - start) =~= s@.subrange(start as int, i + 1));
                    lemma_digits_val_prefix(body, i + 1 - start);
                }
            }
            return Err(TtyNumberError::NotANumber);
        }
        i = i + 1;
    }
    proof {
        assert(s@.subrange(start as int, n as int) =~= body);
    }
    if acc == 0 {
        return Err(TtyNumberError::TooSmall);
    }
    Ok(acc as u16)
}

/// How the display should be brought up.
#[derive(Debug)]
pub enum DisplayMode {
    Tty { tty_number: u16 },
    Winit,
}

/// What to start.
#[derive(Debug)]
pub enum StartTarget {
    Display(DisplayMode),
    Greeter { user: Option<Vec<u8>>, prompt: bool },
    Session { user: Option<Vec<u8>> },
}

/// A parsed top-level command.
#[derive(Debug)]
pub enum Command {
    Start(StartTarget),
    PatchConfig,
}

/// The step the launcher is to run.
#[derive(Debug)]
pub enum LaunchPlan {
    DisplayTty(u16),
    DisplayWinit,
    Greeter { user: Option<Vec<u8>> },
    GreeterPrompt,
    Session { user: Option<Vec<u8>> },
    PatchConfig,
}

/// Maps a parsed command line to the step to run; no command at all brings
/// the display up on the first terminal.
pub fn cli(command: Option<Command>) -> (r: LaunchPlan)
    ensures
        command is None ==> r == LaunchPlan::DisplayTty(1u16),
        command matches Some(
            Command::Start(StartTarget::Display(DisplayMode::Tty { tty_number })),
        ) ==> r == LaunchPlan::DisplayTty(tty_number),
        command matches Some(Command::Start(StartTarget::Display(DisplayMode::Winit))) ==> r
            == LaunchPlan::DisplayWinit,
        command matches Some(Command::Start(StartTarget::Greeter { user, prompt })) ==> (if prompt {
            r == LaunchPlan::GreeterPrompt
        } else {
            r == (LaunchPlan::Greeter { user })
        }),
        command matches Some(Command::Start(StartTarget::Session { user })) ==> r == (
        LaunchPlan::Session { user }),
        command matches Some(Command::PatchConfig) ==> r == LaunchPlan::PatchConfig,
{
    match command {
        None => LaunchPlan::DisplayTty(1),
        Some(Command::Start(target)) => match target {
            StartTarget::Display(DisplayMode::Tty { tty_number }) => LaunchPlan::DisplayTty(
                tty_number,
            ),
            StartTarget::Display(DisplayMode::Winit) => LaunchPlan::DisplayWinit,
            StartTarget::Greeter { user, prompt } => {
                if prompt {
                    LaunchPlan::GreeterPrompt
                } else {
                    LaunchPlan::Greeter { user }
                }
            },
            StartTarget::Session { user } => LaunchPlan::Session { user },
        },
        Some(Command::PatchConfig) => LaunchPlan::PatchConfig,
    }
}

} // verus!
