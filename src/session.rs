//! The session of one command: it asks, one at a time and only when the
//! command needs them, for the slot number, the chain code and the access code
//! (CVC), then hands out the card operation to run.
use vstd::prelude::*;
use crate::grammar::{Command, CommandSpec, SatsCommand, TapCommand, TapOp};
use crate::outside::{fresh_chain_code, trim_text, trimmed_of};

verus! {

/// What the session waits for from the caller.
#[derive(Clone, Copy, Debug, PartialEq, Eq, Structural)]
pub enum Need {
    /// The card's current slot number.
    Slot,
    /// The access code, entered at the terminal.
    Cvc,
}

/// The next thing that the caller must do.
#[derive(Clone, Copy, Debug, PartialEq, Eq, Structural)]
pub enum Request {
    /// Read the current slot number from the card; answer with `provide_slot`.
    ReadSlot,
    /// Prompt for the access code; answer with `provide_cvc`.
    PromptCvc,
    /// All is gathered: take the operation with `into_operation`.
    Ready,
}

/// One card operation, with everything it is submitted with.
#[derive(Debug)]
pub enum CardOp {
    /// Show the card's full status.
    Status,
    /// Show the current receiving address of a single-key card.
    Address,
    /// Check the certificate chain up to the factory root key.
    CheckCertificate,
    /// Authenticated read of the public key; the code is optional on a
    /// single-key card and mandatory on a hierarchical one.
    Read { code: Option<String> },
    /// Start a fresh slot on a single-key card.
    NewSlot { slot: u8, chain_code: Vec<u8>, cvc: String },
    /// Unseal the current slot of a single-key card.
    Unseal { slot: u8, cvc: String },
    /// Check the slot's address against the chain code and master public key.
    VerifyAddress,
    /// Sign with the current slot of a single-key card.
    SignSlot { cvc: String },
    /// Initialise a hierarchical card, once.
    Init { chain_code: Vec<u8>, cvc: String },
    /// Derive the public key at a hardened path.
    DerivePath { path: Vec<u32>, cvc: String },
    /// Sign with the key at a hardened path.
    SignPath { path: Vec<u32>, cvc: String },
}

/// Whether the command reads the current slot number first.
pub open spec fn needs_slot(c: CommandSpec) -> bool {
    c == CommandSpec::Sats(SatsCommand::NewSlot) || c == CommandSpec::Sats(SatsCommand::Unseal)
}

/// Whether the command submits a fresh chain code.
pub open spec fn needs_chain_code(c: CommandSpec) -> bool {
    match c {
        CommandSpec::Sats(s) => s == SatsCommand::NewSlot,
        CommandSpec::Tap(op, _) => op == TapOp::Init,
    }
}

/// Whether the command is authorised by the access code.
pub open spec fn requires_cvc(c: CommandSpec) -> bool {
    match c {
        CommandSpec::Sats(s) => s == SatsCommand::NewSlot || s == SatsCommand::Unseal || s
            == SatsCommand::Sign,
        CommandSpec::Tap(op, _) => op == TapOp::ReadPubkey || op == TapOp::Init || op
            == TapOp::Derive || op == TapOp::Sign,
    }
}

/// The operation that the command maps to, once the slot number, the chain
/// code and the access code it needs are known.
pub open spec fn op_fits(
    op: CardOp,
    c: CommandSpec,
    slot: Option<u8>,
    chain_code: Option<Seq<u8>>,
    cvc: Option<Seq<char>>,
) -> bool {
    match c {
        CommandSpec::Sats(s) => match s {
            SatsCommand::Status => op is Status,
            SatsCommand::Address => op is Address,
            SatsCommand::VerifyCertificate => op is CheckCertificate,
            SatsCommand::ReadPubkey => op matches CardOp::Read { code: None },
            SatsCommand::NewSlot => op matches CardOp::NewSlot { slot: n, chain_code: cc, cvc: k }
                && slot == Some(n) && chain_code == Some(cc@) && cvc == Some(k@),
            SatsCommand::Unseal => op matches CardOp::Unseal { slot: n, cvc: k } && slot == Some(
                n,
            ) && cvc == Some(k@),
            SatsCommand::Derive => op is VerifyAddress,
            SatsCommand::Sign => op matches CardOp::SignSlot { cvc: k } && cvc == Some(k@),
        },
        CommandSpec::Tap(t, p) => match t {
            TapOp::Status => op is Status,
            TapOp::VerifyCertificate => op is CheckCertificate,
            TapOp::ReadPubkey => op matches CardOp::Read { code: Some(k) } && cvc == Some(k@),
            TapOp::Init => op matches CardOp::Init { chain_code: cc, cvc: k } && chain_code == Some(
                cc@,
            ) && cvc == Some(k@),
            TapOp::Derive => op matches CardOp::DerivePath { path: q, cvc: k } && q@ == p && cvc
                == Some(k@),
            TapOp::Sign => op matches CardOp::SignPath { path: q, cvc: k } && q@ == p && cvc == Some(
                k@,
            ),
        },
    }
}

/// The session of one command.
pub struct Session {
    command: Command,
    slot: Option<u8>,
    chain_code: Option<Vec<u8>>,
    cvc: Option<String>,
    pending: Option<Need>,
    prompts: Ghost<nat>,
}

impl Session {
    pub closed spec fn command(&self) -> CommandSpec {
        self.command@
    }

    pub closed spec fn slot(&self) -> Option<u8> {
        self.slot
    }

    pub closed spec fn chain_code(&self) -> Option<Seq<u8>> {
        match self.chain_code {
            Some(v) => Some(v@),
            None => None,
        }
    }

    pub closed spec fn cvc(&self) -> Option<Seq<char>> {
        match self.cvc {
            Some(s) => Some(s@),
            None => None,
        }
    }

    pub closed spec fn pending(&self) -> Option<Need> {
        self.pending
    }

    /// How many times the session has asked for the access code.
    pub closed spec fn prompts(&self) -> nat {
        self.prompts@
    }

    /// Whether everything the command needs is gathered.
    pub open spec fn is_ready(&self) -> bool {
        &&& self.pending() is None
        &&& needs_slot(self.command()) ==> self.slot() is Some
        &&& needs_chain_code(self.command()) ==> self.chain_code() is Some
        &&& requires_cvc(self.command()) ==> self.cvc() is Some
    }

    /// The session's invariant: only what the command needs is gathered, a
    /// chain code has 32 bytes, and the code was asked for at most once, only
    /// for a command that requires it.
    pub open spec fn wf(&self) -> bool {
        &&& self.slot() is Some ==> needs_slot(self.command())
        &&& self.chain_code() is Some ==> needs_chain_code(self.command())
            && self.chain_code()->0.len() == 32
        &&& self.cvc() is Some ==> requires_cvc(self.command())
        &&& self.pending() == Some(Need::Slot) ==> needs_slot(self.command()) && self.slot() is None
        &&& self.pending() == Some(Need::Cvc) ==> requires_cvc(self.command()) && self.cvc() is None
        &&& self.prompts() == if self.cvc() is Some || self.pending() == Some(Need::Cvc) {
            1nat
        } else {
            0nat
        }
    }

    /// A session for the given command, with nothing gathered yet.
    pub fn new(command: Command) -> (r: Session)
        ensures
            r.wf(),
            r.command() == command@,
            r.slot() is None,
            r.chain_code() is None,
            r.cvc() is None,
            r.pending() is None,
            r.prompts() == 0,
    {
        Session {
            command,
            slot: None,
            chain_code: None,
            cvc: None,
            pending: None,
            prompts: Ghost(0),
        }
    }

    /// What the session waits for, if anything.
    pub fn awaiting(&self) -> (r: Option<Need>)
        ensures
            r == self.pending(),
    {
        self.pending
    }

    /// The next request: the slot number first where the command needs it,
    /// then (after drawing a fresh chain code where the command needs one) the
    /// access code where it requires it, then `Ready`.
    pub fn next_request(&mut self) -> (r: Request)
        requires
            old(self).wf(),
            old(self).pending() is None,
        ensures
            final(self).wf(),
            final(self).command() == old(self).command(),
            final(self).slot() == old(self).slot(),
            final(self).cvc() == old(self).cvc(),
            old(self).chain_code() is Some ==> final(self).chain_code() == old(self).chain_code(),
            r == Request::ReadSlot <==> needs_slot(old(self).command()) && old(self).slot() is None,
            r == Request::ReadSlot ==> final(self).pending() == Some(Need::Slot)
                && final(self).chain_code() == old(self).chain_code()
                && final(self).prompts() == old(self).prompts(),
            r == Request::PromptCvc <==> !(needs_slot(old(self).command()) && old(self).slot() is None)
                && requires_cvc(old(self).command()) && old(self).cvc() is None,
            r == Request::PromptCvc ==> final(self).pending() == Some(Need::Cvc)
                && final(self).prompts() == old(self).prompts() + 1,
            r == Request::Ready ==> final(self).is_ready(),
            r == Request::Ready ==> final(self).prompts() == old(self).prompts(),
            r == Request::Ready ==> final(self).prompts() == (if requires_cvc(old(self).command()) {
                1nat
            } else {
                0nat
            }),
            r != Request::ReadSlot && needs_chain_code(old(self).command())
                ==> final(self).chain_code() is Some,
    {
        let slot_needed = match &self.command {
            Command::Sats(SatsCommand::NewSlot) => true,
            Command::Sats(SatsCommand::Unseal) => true,
            _ => false,
        };
        if slot_needed && self.slot.is_none() {
            self.pending = Some(Need::Slot);
            return Request::ReadSlot;
        }
        let code_needed = match &self.command {
            Command::Sats(SatsCommand::NewSlot) => true,
            Command::Tap(TapCommand::Init) => true,
            _ => false,
        };
        if code_needed && self.chain_code.is_none() {
            self.chain_code = Some(fresh_chain_code());
        }
        let cvc_needed = match &self.command {
            Command::Sats(s) => match s {
                SatsCommand::NewSlot => true,
                SatsCommand::Unseal => true,
                SatsCommand::Sign => true,
                _ => false,
            },
            Command::Tap(t) => match t {
                TapCommand::Status => false,
                TapCommand::VerifyCertificate => false,
                _ => true,
            },
        };
        if cvc_needed && self.cvc.is_none() {
            self.pending = Some(Need::Cvc);
            self.prompts = Ghost(self.prompts@ + 1);
            return Request::PromptCvc;
        }
        Request::Ready
    }

    /// Answers `ReadSlot` with the card's current slot number.
    pub fn provide_slot(&mut self, slot: u8)
        requires
            old(self).wf(),
            old(self).pending() == Some(Need::Slot),
        ensures
            final(self).wf(),
            final(self).command() == old(self).command(),
            final(self).slot() == Some(slot),
            final(self).chain_code() == old(self).chain_code(),
            final(self).cvc() == old(self).cvc(),
            final(self).pending() is None,
            final(self).prompts() == old(self).prompts(),
    {
        self.slot = Some(slot);
        self.pending = None;
    }

    /// Answers `PromptCvc` with the line entered; surrounding whitespace is
    /// dropped.
    pub fn provide_cvc(&mut self, entered: &str)
        requires
            old(self).wf(),
            old(self).pending() == Some(Need::Cvc),
        ensures
            final(self).wf(),
            final(self).command() == old(self).command(),
            final(self).slot() == old(self).slot(),
            final(self).chain_code() == old(self).chain_code(),
            final(self).cvc() == Some(trimmed_of(entered@)),
            final(self).pending() is None,
            final(self).prompts() == old(self).prompts(),
    {
        self.cvc = Some(trim_text(entered));
        self.pending = None;
    }

    /// The card operation of the command, submitted with what was gathered.
    pub fn into_operation(self) -> (op: CardOp)
        requires
            self.wf(),
            self.is_ready(),
        ensures
            op_fits(op, self.command(), self.slot(), self.chain_code(), self.cvc()),
    {
        let Session { command, slot, chain_code, cvc, .. } = self;
        match command {
            Command::Sats(s) => match s {
                SatsCommand::Status => CardOp::Status,
                SatsCommand::Address => CardOp::Address,
                SatsCommand::VerifyCertificate => CardOp::CheckCertificate,
                SatsCommand::ReadPubkey => CardOp::Read { code: None },
                SatsCommand::NewSlot => CardOp::NewSlot {
                    slot: slot.unwrap(),
                    chain_code: chain_code.unwrap(),
                    cvc: cvc.unwrap(),
                },
                SatsCommand::Unseal => CardOp::Unseal { slot: slot.unwrap(), cvc: cvc.unwrap() },
                SatsCommand::Derive => CardOp::VerifyAddress,
                SatsCommand::Sign => CardOp::SignSlot { cvc: cvc.unwrap() },
            },
            Command::Tap(t) => match t {
                TapCommand::Status => CardOp::Status,
                TapCommand::VerifyCertificate => CardOp::CheckCertificate,
                TapCommand::ReadPubkey => CardOp::Read { code: Some(cvc.unwrap()) },
                TapCommand::Init => CardOp::Init {
                    chain_code: chain_code.unwrap(),
                    cvc: cvc.unwrap(),
                },
                TapCommand::Derive { path } => CardOp::DerivePath { path, cvc: cvc.unwrap() },
                TapCommand::Sign { path } => CardOp::SignPath { path, cvc: cvc.unwrap() },
            },
        }
    }
}

} // verus!
