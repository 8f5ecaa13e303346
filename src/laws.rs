//! Properties of the library as a whole, proved from the contracts of its
//! parts.
use vstd::prelude::*;
use crate::grammar::{
    digit_value, index_scan, indices_of, is_option_like, is_path_flag, lemma_path_error_stays,
    lemma_scan_stays_none, parse_spec, path_of, path_scan, tap_by_name, ArgError, CardKind,
    CommandSpec, PathMode, TapOp,
};
use crate::render::{diagnostic_of, shown_of, Failure, Outcome};
use crate::session::{requires_cvc, Session};

verus! {

/// A command line is never read as a command of the other personality: what
/// parses is a command of the active grammar, and a command word that only the
/// other grammar has is an argument error.
pub proof fn lemma_grammars_disjoint(kind: CardKind, ws: Seq<Seq<char>>)
    ensures
        parse_spec(kind, ws) matches Ok(c) ==> (c is Sats <==> kind == CardKind::SatsCard),
        kind == CardKind::SatsCard && ws.len() > 0 && ws[0] == "init"@ ==> parse_spec(kind, ws)
            == Err::<CommandSpec, ArgError>(ArgError::UnknownCommand),
        kind == CardKind::TapSigner && ws.len() > 0 && (ws[0] == "address"@ || ws[0]
            == "new-slot"@ || ws[0] == "unseal"@) ==> parse_spec(kind, ws) == Err::<
            CommandSpec,
            ArgError,
        >(ArgError::UnknownCommand),
{
    reveal_strlit("status");
    reveal_strlit("address");
    reveal_strlit("verify-certificate");
    reveal_strlit("read-pubkey");
    reveal_strlit("new-slot");
    reveal_strlit("unseal");
    reveal_strlit("derive");
    reveal_strlit("sign");
    reveal_strlit("init");
    assert("status"@[0] == 's' && "status"@[1] == 't');
    assert("address"@[0] == 'a');
    assert("verify-certificate"@[0] == 'v');
    assert("read-pubkey"@[0] == 'r');
    assert("new-slot"@[0] == 'n');
    assert("unseal"@[0] == 'u');
    assert("derive"@[0] == 'd');
    assert("sign"@[0] == 's' && "sign"@[1] == 'i');
    assert("init"@[0] == 'i');
}

/// `derive` and `sign` of a hierarchical card with no path denote the master
/// key: the empty path.
pub proof fn lemma_empty_path_is_master(ws: Seq<Seq<char>>)
    requires
        ws.len() == 1,
        ws[0] == "derive"@ || ws[0] == "sign"@,
    ensures
        parse_spec(CardKind::TapSigner, ws) == Ok::<CommandSpec, ArgError>(
            CommandSpec::Tap(if ws[0] == "derive"@ { TapOp::Derive } else { TapOp::Sign }, Seq::empty()),
        ),
{
    reveal_strlit("status");
    reveal_strlit("verify-certificate");
    reveal_strlit("read-pubkey");
    reveal_strlit("derive");
    reveal_strlit("sign");
    reveal_strlit("init");
    reveal_strlit("address");
    reveal_strlit("new-slot");
    reveal_strlit("unseal");
    assert("status"@[0] == 's' && "status"@[1] == 't');
    assert("address"@[0] == 'a');
    assert("verify-certificate"@[0] == 'v');
    assert("read-pubkey"@[0] == 'r');
    assert("new-slot"@[0] == 'n');
    assert("unseal"@[0] == 'u');
    assert("derive"@[0] == 'd');
    assert("sign"@[0] == 's' && "sign"@[1] == 'i');
    assert("init"@[0] == 'i');
    let rest = ws.subrange(1, 1);
    assert(rest.len() == 0);
    assert(path_scan(rest) == Ok::<(Seq<u32>, PathMode), ArgError>((Seq::empty(), PathMode::Start)));
}

/// A path whose values hold a character that is neither a digit nor a comma
/// is rejected by the parser, so before the card is used.
pub proof fn lemma_non_numeric_path_rejected(ws: Seq<Seq<char>>, j: int, k: int)
    requires
        ws.len() > 0,
        tap_by_name(ws[0]) == Some(TapOp::Derive) || tap_by_name(ws[0]) == Some(TapOp::Sign),
        1 <= j < ws.len(),
        !is_path_flag(ws[j]),
        0 <= k < ws[j].len(),
        digit_value(ws[j][k]) is None,
        ws[j][k] != ',',
    ensures
        parse_spec(CardKind::TapSigner, ws) is Err,
{
    let rest = ws.subrange(1, ws.len() as int);
    let w = ws[j];
    assert(rest[j - 1] == w);
    assert(rest.take(j).drop_last() =~= rest.take(j - 1));
    assert(rest.take(j).last() == w);
    assert(w.take(k + 1).drop_last() =~= w.take(k));
    assert(w.take(k + 1).last() == w[k]);
    assert(index_scan(w.take(k + 1)) is None);
    lemma_scan_stays_none(w, k + 1);
    assert(indices_of(w) is None);
    match path_scan(rest.take(j - 1)) {
        Err(e) => {
            lemma_path_error_stays(rest, j - 1, e);
        },
        Ok(s) => {
            let e = if is_option_like(w) || s.1 == PathMode::Start {
                ArgError::UnexpectedArgument
            } else {
                ArgError::BadPathIndex
            };
            assert(path_scan(rest.take(j)) == Err::<(Seq<u32>, PathMode), ArgError>(e));
            lemma_path_error_stays(rest, j, e);
        },
    }
    assert(path_of(rest) is Err);
}

/// A session asks for the access code at most once, and never for a command
/// that does not require it.
pub proof fn lemma_prompt_at_most_once(s: Session)
    requires
        s.wf(),
    ensures
        s.prompts() <= (if requires_cvc(s.command()) { 1nat } else { 0nat }),
{
}

/// The certificate check has two renderings: the signer's name on success,
/// and one fixed message on failure, whatever its cause, with no detail kept.
pub proof fn lemma_certificate_two_outcomes(r: Result<String, Failure>)
    ensures
        diagnostic_of(Outcome::Certificate(r)) is None,
        match r {
            Ok(n) => shown_of(Outcome::Certificate(r)) == "Genuine card from Coinkite.\nHas cert signed by: "@
                + n@,
            Err(_) => shown_of(Outcome::Certificate(r)) == "Card failed to verify. Not a genuine card"@,
        },
{
}

} // verus!
