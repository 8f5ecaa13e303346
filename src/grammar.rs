//! The two command grammars, one per card personality, and the parser that
//! turns the words of a command line into a command of the active grammar.
use vstd::prelude::*;
use vstd::string::StrSliceExecFns;
use crate::text::same_text;

verus! {

/// The personality of the card that answered discovery. `TapSigner` covers
/// both hierarchical sub-kinds (TapSigner and SatsChip): they share one grammar.
#[derive(Clone, Copy, Debug, PartialEq, Eq, Structural)]
pub enum CardKind {
    SatsCard,
    TapSigner,
}

/// The commands of a single-key card.
#[derive(Clone, Copy, Debug, PartialEq, Eq, Structural)]
pub enum SatsCommand {
    Status,
    Address,
    VerifyCertificate,
    ReadPubkey,
    NewSlot,
    Unseal,
    Derive,
    Sign,
}

/// The operations of a hierarchical card, without their arguments.
#[derive(Clone, Copy, Debug, PartialEq, Eq, Structural)]
pub enum TapOp {
    Status,
    VerifyCertificate,
    ReadPubkey,
    Init,
    Derive,
    Sign,
}

/// The commands of a hierarchical card; `Derive` and `Sign` carry the
/// hardened derivation path (empty: the master key).
#[derive(Debug)]
pub enum TapCommand {
    Status,
    VerifyCertificate,
    ReadPubkey,
    Init,
    Derive { path: Vec<u32> },
    Sign { path: Vec<u32> },
}

/// A command of either grammar.
#[derive(Debug)]
pub enum Command {
    Sats(SatsCommand),
    Tap(TapCommand),
}

/// What a command is: its operation and, for a hierarchical card, its path.
pub enum CommandSpec {
    Sats(SatsCommand),
    Tap(TapOp, Seq<u32>),
}

impl View for TapCommand {
    type V = (TapOp, Seq<u32>);

    open spec fn view(&self) -> (TapOp, Seq<u32>) {
        match self {
            TapCommand::Status => (TapOp::Status, Seq::empty()),
            TapCommand::VerifyCertificate => (TapOp::VerifyCertificate, Seq::empty()),
            TapCommand::ReadPubkey => (TapOp::ReadPubkey, Seq::empty()),
            TapCommand::Init => (TapOp::Init, Seq::empty()),
            TapCommand::Derive { path } => (TapOp::Derive, path@),
            TapCommand::Sign { path } => (TapOp::Sign, path@),
        }
    }
}

impl View for Command {
    type V = CommandSpec;

    open spec fn view(&self) -> CommandSpec {
        match self {
            Command::Sats(c) => CommandSpec::Sats(*c),
            Command::Tap(t) => CommandSpec::Tap(t@.0, t@.1),
        }
    }
}

/// Why a command line does not fit the active grammar.
#[derive(Clone, Copy, Debug, PartialEq, Eq, Structural)]
pub enum ArgError {
    /// No command word was given.
    MissingCommand,
    /// The command word is not one of the active grammar.
    UnknownCommand,
    /// A word that the command does not take.
    UnexpectedArgument,
    /// A path option without a value after it.
    MissingPathValue,
    /// A path value that is not a comma-separated list of 32-bit indices.
    BadPathIndex,
}

/// Where the path scan stands: before any path option, right after one, or
/// after at least one value of the last one.
#[derive(Clone, Copy, Debug, PartialEq, Eq, Structural)]
pub enum PathMode {
    Start,
    NeedValue,
    HasValue,
}

/// The command of a single-key card with the given name.
pub open spec fn sats_by_name(w: Seq<char>) -> Option<SatsCommand> {
    if w == "status"@ {
        Some(SatsCommand::Status)
    } else if w == "address"@ {
        Some(SatsCommand::Address)
    } else if w == "verify-certificate"@ {
        Some(SatsCommand::VerifyCertificate)
    } else if w == "read-pubkey"@ {
        Some(SatsCommand::ReadPubkey)
    } else if w == "new-slot"@ {
        Some(SatsCommand::NewSlot)
    } else if w == "unseal"@ {
        Some(SatsCommand::Unseal)
    } else if w == "derive"@ {
        Some(SatsCommand::Derive)
    } else if w == "sign"@ {
        Some(SatsCommand::Sign)
    } else {
        None
    }
}

/// The operation of a hierarchical card with the given name.
pub open spec fn tap_by_name(w: Seq<char>) -> Option<TapOp> {
    if w == "status"@ {
        Some(TapOp::Status)
    } else if w == "verify-certificate"@ {
        Some(TapOp::VerifyCertificate)
    } else if w == "read-pubkey"@ {
        Some(TapOp::ReadPubkey)
    } else if w == "init"@ {
        Some(TapOp::Init)
    } else if w == "derive"@ {
        Some(TapOp::Derive)
    } else if w == "sign"@ {
        Some(TapOp::Sign)
    } else {
        None
    }
}

/// The value of a decimal digit.
pub open spec fn digit_value(c: char) -> Option<int> {
    if '0' <= c && c <= '9' {
        Some(c as int - '0' as int)
    } else {
        None
    }
}

/// Reading a path value from the left: the indices closed by a comma, the
/// index being read and how many digits it has so far; `None` once the text
/// cannot be a list of indices.
pub open spec fn index_scan(t: Seq<char>) -> Option<(Seq<u32>, u32, nat)>
    decreases t.len(),
{
    if t.len() == 0 {
        Some((Seq::empty(), 0u32, 0nat))
    } else {
        match index_scan(t.drop_last()) {
            None => None,
            Some((done, cur, n)) => {
                let c = t.last();
                if c == ',' {
                    if n == 0 {
                        None
                    } else {
                        Some((done.push(cur), 0u32, 0nat))
                    }
                } else {
                    match digit_value(c) {
                        None => None,
                        Some(d) => {
                            let v = cur * 10 + d;
                            if v > u32::MAX {
                                None
                            } else {
                                Some((done, v as u32, n + 1))
                            }
                        },
                    }
                }
            },
        }
    }
}

/// The indices written in a path value such as `84,0,0`: decimal numbers that
/// fit in 32 bits, separated by single commas.
pub open spec fn indices_of(t: Seq<char>) -> Option<Seq<u32>> {
    match index_scan(t) {
        Some((done, cur, n)) => if n > 0 {
            Some(done.push(cur))
        } else {
            None
        },
        None => None,
    }
}

/// The path option, long or short.
pub open spec fn is_path_flag(w: Seq<char>) -> bool {
    w == "--path"@ || w == "-p"@
}

/// A word that starts like an option.
pub open spec fn is_option_like(w: Seq<char>) -> bool {
    w.len() > 0 && w[0] == '-'
}

/// One word of the arguments after `derive` or `sign`.
pub open spec fn path_step(s: (Seq<u32>, PathMode), w: Seq<char>) -> Result<
    (Seq<u32>, PathMode),
    ArgError,
> {
    if is_path_flag(w) {
        if s.1 == PathMode::NeedValue {
            Err(ArgError::MissingPathValue)
        } else {
            Ok((s.0, PathMode::NeedValue))
        }
    } else if is_option_like(w) {
        Err(ArgError::UnexpectedArgument)
    } else if s.1 == PathMode::Start {
        Err(ArgError::UnexpectedArgument)
    } else {
        match indices_of(w) {
            None => Err(ArgError::BadPathIndex),
            Some(ix) => Ok((s.0 + ix, PathMode::HasValue)),
        }
    }
}

/// The words after `derive` or `sign`, read from the left; the first error
/// stands.
pub open spec fn path_scan(ws: Seq<Seq<char>>) -> Result<(Seq<u32>, PathMode), ArgError>
    decreases ws.len(),
{
    if ws.len() == 0 {
        Ok((Seq::empty(), PathMode::Start))
    } else {
        match path_scan(ws.drop_last()) {
            Err(e) => Err(e),
            Ok(s) => path_step(s, ws.last()),
        }
    }
}

/// The path that the words after `derive` or `sign` give: every path option
/// is followed by one or more values, whose indices are joined in order.
pub open spec fn path_of(ws: Seq<Seq<char>>) -> Result<Seq<u32>, ArgError> {
    match path_scan(ws) {
        Err(e) => Err(e),
        Ok(s) => if s.1 == PathMode::NeedValue {
            Err(ArgError::MissingPathValue)
        } else {
            Ok(s.0)
        },
    }
}

/// The command that the words of a command line (the program name left out)
/// select in the grammar of the given personality.
pub open spec fn parse_spec(kind: CardKind, ws: Seq<Seq<char>>) -> Result<CommandSpec, ArgError> {
    if ws.len() == 0 {
        Err(ArgError::MissingCommand)
    } else {
        let rest = ws.subrange(1, ws.len() as int);
        match kind {
            CardKind::SatsCard => match sats_by_name(ws[0]) {
                None => Err(ArgError::UnknownCommand),
                Some(c) => if rest.len() == 0 {
                    Ok(CommandSpec::Sats(c))
                } else {
                    Err(ArgError::UnexpectedArgument)
                },
            },
            CardKind::TapSigner => match tap_by_name(ws[0]) {
                None => Err(ArgError::UnknownCommand),
                Some(op) => if op == TapOp::Derive || op == TapOp::Sign {
                    match path_of(rest) {
                        Err(e) => Err(e),
                        Ok(p) => Ok(CommandSpec::Tap(op, p)),
                    }
                } else if rest.len() == 0 {
                    Ok(CommandSpec::Tap(op, Seq::empty()))
                } else {
                    Err(ArgError::UnexpectedArgument)
                },
            },
        }
    }
}

/// The characters of each word.
pub open spec fn words(args: Seq<String>) -> Seq<Seq<char>> {
    args.map_values(|a: String| a@)
}

fn sats_lookup(w: &str) -> (r: Option<SatsCommand>)
    ensures
        r == sats_by_name(w@),
{
    if same_text(w, "status") {
        Some(SatsCommand::Status)
    } else if same_text(w, "address") {
        Some(SatsCommand::Address)
    } else if same_text(w, "verify-certificate") {
        Some(SatsCommand::VerifyCertificate)
    } else if same_text(w, "read-pubkey") {
        Some(SatsCommand::ReadPubkey)
    } else if same_text(w, "new-slot") {
        Some(SatsCommand::NewSlot)
    } else if same_text(w, "unseal") {
        Some(SatsCommand::Unseal)
    } else if same_text(w, "derive") {
        Some(SatsCommand::Derive)
    } else if same_text(w, "sign") {
        Some(SatsCommand::Sign)
    } else {
        None
    }
}

fn tap_lookup(w: &str) -> (r: Option<TapOp>)
    ensures
        r == tap_by_name(w@),
{
    if same_text(w, "status") {
        Some(TapOp::Status)
    } else if same_text(w, "verify-certificate") {
        Some(TapOp::VerifyCertificate)
    } else if same_text(w, "read-pubkey") {
        Some(TapOp::ReadPubkey)
    } else if same_text(w, "init") {
        Some(TapOp::Init)
    } else if same_text(w, "derive") {
        Some(TapOp::Derive)
    } else if same_text(w, "sign") {
        Some(TapOp::Sign)
    } else {
        None
    }
}

/// Appends the indices written in `w` to `path`; `false` where `w` is not a
/// list of indices.
fn push_indices(w: &str, path: &mut Vec<u32>) -> (r: bool)
    ensures
        r == (indices_of(w@) is Some),
        r ==> final(path)@ == old(path)@ + indices_of(w@)->0,
{
    let n = w.unicode_len();
    let ghost base = path@;
    let mut cur: u32 = 0;
    let mut digits: usize = 0;
    let mut i: usize = 0;
    while i < n
        invariant
            n == w@.len(),
            i <= n,
            digits <= i,
            index_scan(w@.take(i as int)) matches Some(s) && path@ == base + s.0 && cur == s.1
                && digits == s.2,
        decreases n - i,
    {
        let c = w.get_char(i);
        assert(w@.take(i + 1).drop_last() =~= w@.take(i as int));
        assert(w@.take(i + 1).last() == c);
        if c == ',' {
            if digits == 0 {
                assert(index_scan(w@.take(i + 1)) is None);
                proof { lemma_scan_stays_none(w@, i + 1); }
                return false;
            }
            path.push(cur);
            assert(path@ =~= base + index_scan(w@.take(i + 1)).unwrap().0);
            cur = 0;
            digits = 0;
        } else if '0' <= c && c <= '9' {
            let d: u32 = (c as u32) - ('0' as u32);
            if cur > 429496729 || (cur == 429496729 && d > 5) {
                assert(cur * 10 + d > u32::MAX) by (nonlinear_arith)
                    requires cur > 429496729 || (cur == 429496729 && d > 5);
                assert(index_scan(w@.take(i + 1)) is None);
                proof { lemma_scan_stays_none(w@, i + 1); }
                return false;
            }
            assert(cur * 10 + d <= u32::MAX) by (nonlinear_arith)
                requires !(cur > 429496729 || (cur == 429496729 && d > 5)), d <= 9;
            cur = cur * 10 + d;
            digits = digits + 1;
        } else {
            assert(index_scan(w@.take(i + 1)) is None);
            proof { lemma_scan_stays_none(w@, i + 1); }
            return false;
        }
        i = i + 1;
    }
    assert(w@.take(n as int) =~= w@);
    if digits == 0 {
        return false;
    }
    path.push(cur);
    true
}

/// Once the scan of a path value fails, it fails for every longer prefix.
pub proof fn lemma_scan_stays_none(t: Seq<char>, k: int)
    requires
        0 <= k <= t.len(),
        index_scan(t.take(k)) is None,
    ensures
        index_scan(t) is None,
    decreases t.len() - k,
{
    if k < t.len() {
        assert(t.take(k + 1).drop_last() =~= t.take(k));
        lemma_scan_stays_none(t, k + 1);
    } else {
        assert(t.take(k) =~= t);
    }
}

/// Reads the words after `derive` or `sign` (from index 1 of `args`).
fn parse_path(args: &Vec<String>) -> (r: Result<Vec<u32>, ArgError>)
    requires
        args@.len() >= 1,
    ensures
        match r {
            Ok(p) => path_of(words(args@).subrange(1, args@.len() as int)) == Ok::<Seq<u32>, ArgError>(p@),
            Err(e) => path_of(words(args@).subrange(1, args@.len() as int)) == Err::<Seq<u32>, ArgError>(e),
        },
{
    let ghost ws = words(args@);
    let ghost rest = ws.subrange(1, args@.len() as int);
    let mut path: Vec<u32> = Vec::new();
    let mut mode = PathMode::Start;
    let mut i: usize = 1;
    while i < args.len()
        invariant
            ws == words(args@),
            rest == ws.subrange(1, args@.len() as int),
            1 <= i <= args@.len(),
            path_scan(rest.take(i - 1)) == Ok::<(Seq<u32>, PathMode), ArgError>((path@, mode)),
        decreases args@.len() - i,
    {
        let w = args[i].as_str();
        let ghost pre = rest.take(i - 1);
        assert(rest.take(i as int).drop_last() =~= pre);
        assert(rest.take(i as int).last() == w@);
        let is_flag = same_text(w, "--path") || same_text(w, "-p");
        if is_flag {
            if mode == PathMode::NeedValue {
                proof { lemma_path_error_stays(rest, i as int, ArgError::MissingPathValue); }
                return Err(ArgError::MissingPathValue);
            }
            mode = PathMode::NeedValue;
        } else if w.unicode_len() > 0 && w.get_char(0) == '-' {
            proof { lemma_path_error_stays(rest, i as int, ArgError::UnexpectedArgument); }
            return Err(ArgError::UnexpectedArgument);
        } else if mode == PathMode::Start {
            proof { lemma_path_error_stays(rest, i as int, ArgError::UnexpectedArgument); }
            return Err(ArgError::UnexpectedArgument);
        } else {
            let ok = push_indices(w, &mut path);
            if !ok {
                proof { lemma_path_error_stays(rest, i as int, ArgError::BadPathIndex); }
                return Err(ArgError::BadPathIndex);
            }
            mode = PathMode::HasValue;
        }
        i = i + 1;
    }
    assert(rest.take(i - 1) =~= rest);
    if mode == PathMode::NeedValue {
        Err(ArgError::MissingPathValue)
    } else {
        Ok(path)
    }
}

/// Once the path scan fails, it fails with the same error for every longer
/// prefix.
pub proof fn lemma_path_error_stays(ws: Seq<Seq<char>>, k: int, e: ArgError)
    requires
        0 <= k <= ws.len(),
        path_scan(ws.take(k)) == Err::<(Seq<u32>, PathMode), ArgError>(e),
    ensures
        path_scan(ws) == Err::<(Seq<u32>, PathMode), ArgError>(e),
    decreases ws.len() - k,
{
    if k < ws.len() {
        assert(ws.take(k + 1).drop_last() =~= ws.take(k));
        lemma_path_error_stays(ws, k + 1, e);
    } else {
        assert(ws.take(k) =~= ws);
    }
}

/// Parses the words of a command line (the program name left out) in the
/// grammar of the card personality that was found.
pub fn parse_command(kind: CardKind, args: &Vec<String>) -> (r: Result<Command, ArgError>)
    ensures
        match r {
            Ok(c) => parse_spec(kind, words(args@)) == Ok::<CommandSpec, ArgError>(c@),
            Err(e) => parse_spec(kind, words(args@)) == Err::<CommandSpec, ArgError>(e),
        },
{
    let ghost ws = words(args@);
    if args.len() == 0 {
        return Err(ArgError::MissingCommand);
    }
    let name = args[0].as_str();
    assert(ws[0] == name@);
    assert(ws.subrange(1, ws.len() as int).len() == args.len() - 1);
    match kind {
        CardKind::SatsCard => match sats_lookup(name) {
            None => Err(ArgError::UnknownCommand),
            Some(c) => if args.len() == 1 {
                Ok(Command::Sats(c))
            } else {
                Err(ArgError::UnexpectedArgument)
            },
        },
        CardKind::TapSigner => match tap_lookup(name) {
            None => Err(ArgError::UnknownCommand),
            Some(op) => match op {
                TapOp::Derive => match parse_path(args) {
                    Ok(path) => Ok(Command::Tap(TapCommand::Derive { path })),
                    Err(e) => Err(e),
                },
                TapOp::Sign => match parse_path(args) {
                    Ok(path) => Ok(Command::Tap(TapCommand::Sign { path })),
                    Err(e) => Err(e),
                },
                _ => if args.len() != 1 {
                    Err(ArgError::UnexpectedArgument)
                } else {
                    Ok(
                        Command::Tap(
                            match op {
                                TapOp::Status => TapCommand::Status,
                                TapOp::VerifyCertificate => TapCommand::VerifyCertificate,
                                TapOp::ReadPubkey => TapCommand::ReadPubkey,
                                _ => TapCommand::Init,
                            },
                        ),
                    )
                },
            },
        },
    }
}

} // verus!
