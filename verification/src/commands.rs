//! The interactive command surface.
//!
//! A command line is a byte string of whitespace-separated tokens.  The
//! tokens are executed in order, each either acting on the session
//! (`create`, `join`, `send`), or asking the surrounding program for a
//! display action (`clear`, `exit`, `help`).  `send`, `clear`, `exit` and
//! an unknown token stop the line.  The outcome of a line is the byte
//! string to broadcast (empty if nothing is to leave the process) and the
//! ordered display effects for the surrounding program; the library never
//! prints or exits by itself.

use vstd::prelude::*;

use crate::crypto::SessionError;
use crate::crypto::serialize_key_package;
use crate::crypto::serialize_mls_message;
use crate::node::Node;
use crate::node::clone_bytes;
use crate::wire::TAG_CONTROL;
use crate::wire::TAG_JOIN;
use crate::wire::WireKind;
use crate::wire::bytes_eq;
use crate::wire::lemma_classify_frame;
use crate::wire::frame;
use crate::wire::spec_kind_of;

verus! {

/// The ASCII whitespace bytes that separate command tokens.
pub open spec fn is_ws(b: u8) -> bool {
    b == 32 || b == 9 || b == 10 || b == 11 || b == 12 || b == 13
}

/// One fold step over the line: `cur` is the token being read, `acc` the
/// tokens already read.  A token is a maximal run of non-whitespace bytes.
pub open spec fn spec_tokens_acc(s: Seq<u8>, i: int, cur: Seq<u8>, acc: Seq<Seq<u8>>) -> Seq<
    Seq<u8>,
>
    decreases s.len() - i,
{
    if i < 0 || i >= s.len() {
        if cur.len() > 0 {
            acc.push(cur)
        } else {
            acc
        }
    } else if is_ws(s[i]) {
        if cur.len() > 0 {
            spec_tokens_acc(s, i + 1, Seq::empty(), acc.push(cur))
        } else {
            spec_tokens_acc(s, i + 1, cur, acc)
        }
    } else {
        spec_tokens_acc(s, i + 1, cur.push(s[i]), acc)
    }
}

/// The whitespace-separated tokens of a command line, in order.
pub open spec fn spec_tokens(s: Seq<u8>) -> Seq<Seq<u8>> {
    spec_tokens_acc(s, 0, Seq::empty(), Seq::empty())
}

/// The views of a sequence of byte vectors.
pub open spec fn views_of(v: Seq<Vec<u8>>) -> Seq<Seq<u8>> {
    v.map_values(|x: Vec<u8>| x@)
}

/// The tokens from position `i` on, joined with one space between them.
pub open spec fn spec_joined_from(toks: Seq<Seq<u8>>, i: int) -> Seq<u8>
    decreases toks.len() - i,
{
    if i < 0 || i >= toks.len() {
        Seq::empty()
    } else if i == toks.len() - 1 {
        toks[i]
    } else {
        toks[i] + seq![32u8] + spec_joined_from(toks, i + 1)
    }
}

/// Split a command line into its whitespace-separated tokens.
pub fn tokenize(line: &[u8]) -> (r: Vec<Vec<u8>>)
    ensures
        views_of(r@) == spec_tokens(line@),
{
    let mut acc: Vec<Vec<u8>> = Vec::new();
    let mut cur: Vec<u8> = Vec::new();
    proof {
        assert(views_of(acc@) =~= Seq::<Seq<u8>>::empty());
    }
    let mut i: usize = 0;
    while i < line.len()
        invariant
            i <= line@.len(),
            spec_tokens(line@) == spec_tokens_acc(line@, i as int, cur@, views_of(acc@)),
        decreases line@.len() - i,
    {
        let b = line[i];
        if b == 32 || b == 9 || b == 10 || b == 11 || b == 12 || b == 13 {
            if cur.len() > 0 {
                let ghost prev = views_of(acc@);
                let ghost cur_v = cur@;
                acc.push(cur);
                cur = Vec::new();
                proof {
                    assert(views_of(acc@) =~= prev.push(cur_v));
                }
            }
        } else {
            cur.push(b);
        }
        i = i + 1;
    }
    if cur.len() > 0 {
        let ghost prev = views_of(acc@);
        let ghost cur_v = cur@;
        acc.push(cur);
        proof {
            assert(views_of(acc@) =~= prev.push(cur_v));
        }
    }
    acc
}

/// Join the tokens from position `i` on with single spaces, as the text of
/// a `send` command.
pub fn join_tokens(tokens: &Vec<Vec<u8>>, i: usize) -> (r: Vec<u8>)
    ensures
        r@ == spec_joined_from(views_of(tokens@), i as int),
    decreases tokens@.len() - i,
{
    if i >= tokens.len() {
        Vec::new()
    } else if i == tokens.len() - 1 {
        clone_bytes(&tokens[i])
    } else {
        let mut r = clone_bytes(&tokens[i]);
        r.push(32);
        let mut rest = join_tokens(tokens, i + 1);
        r.append(&mut rest);
        proof {
            assert(r@ =~= views_of(tokens@)[i as int] + seq![32u8] + spec_joined_from(
                views_of(tokens@),
                i + 1,
            ));
        }
        r
    }
}

/// The commands of the interactive surface.
#[derive(Clone, Copy, Debug, PartialEq, Eq, Structural)]
pub enum Keyword {
    Create,
    Join,
    Send,
    Clear,
    Exit,
    Help,
    Unknown,
}

/// The bytes of the token `create`.
pub open spec fn create_tok() -> Seq<u8> {
    seq![99u8, 114u8, 101u8, 97u8, 116u8, 101u8]
}

/// The bytes of the token `join`.
pub open spec fn join_tok() -> Seq<u8> {
    seq![106u8, 111u8, 105u8, 110u8]
}

/// The bytes of the token `send`.
pub open spec fn send_tok() -> Seq<u8> {
    seq![115u8, 101u8, 110u8, 100u8]
}

/// The bytes of the token `clear`.
pub open spec fn clear_tok() -> Seq<u8> {
    seq![99u8, 108u8, 101u8, 97u8, 114u8]
}

/// The bytes of the token `exit`.
pub open spec fn exit_tok() -> Seq<u8> {
    seq![101u8, 120u8, 105u8, 116u8]
}

/// The bytes of the token `help`.
pub open spec fn help_tok() -> Seq<u8> {
    seq![104u8, 101u8, 108u8, 112u8]
}

/// The command a token names; any other token is unknown.
pub open spec fn spec_keyword(tok: Seq<u8>) -> Keyword {
    if tok == create_tok() {
        Keyword::Create
    } else if tok == join_tok() {
        Keyword::Join
    } else if tok == send_tok() {
        Keyword::Send
    } else if tok == clear_tok() {
        Keyword::Clear
    } else if tok == exit_tok() {
        Keyword::Exit
    } else if tok == help_tok() {
        Keyword::Help
    } else {
        Keyword::Unknown
    }
}

/// The token `create` as a byte vector.
fn kw_create() -> (r: Vec<u8>)
    ensures
        r@ == create_tok(),
{
    let mut r: Vec<u8> = Vec::new();
    r.push(99);
    r.push(114);
    r.push(101);
    r.push(97);
    r.push(116);
    r.push(101);
    proof {
        assert(r@ =~= create_tok());
    }
    r
}

/// The token `join` as a byte vector.
fn kw_join() -> (r: Vec<u8>)
    ensures
        r@ == join_tok(),
{
    let mut r: Vec<u8> = Vec::new();
    r.push(106);
    r.push(111);
    r.push(105);
    r.push(110);
    proof {
        assert(r@ =~= join_tok());
    }
    r
}

/// The token `send` as a byte vector.
fn kw_send() -> (r: Vec<u8>)
    ensures
        r@ == send_tok(),
{
    let mut r: Vec<u8> = Vec::new();
    r.push(115);
    r.push(101);
    r.push(110);
    r.push(100);
    proof {
        assert(r@ =~= send_tok());
    }
    r
}

/// The token `clear` as a byte vector.
fn kw_clear() -> (r: Vec<u8>)
    ensures
        r@ == clear_tok(),
{
    let mut r: Vec<u8> = Vec::new();
    r.push(99);
    r.push(108);
    r.push(101);
    r.push(97);
    r.push(114);
    proof {
        assert(r@ =~= clear_tok());
    }
    r
}

/// The token `exit` as a byte vector.
fn kw_exit() -> (r: Vec<u8>)
    ensures
        r@ == exit_tok(),
{
    let mut r: Vec<u8> = Vec::new();
    r.push(101);
    r.push(120);
    r.push(105);
    r.push(116);
    proof {
        assert(r@ =~= exit_tok());
    }
    r
}

/// The token `help` as a byte vector.
fn kw_help() -> (r: Vec<u8>)
    ensures
        r@ == help_tok(),
{
    let mut r: Vec<u8> = Vec::new();
    r.push(104);
    r.push(101);
    r.push(108);
    r.push(112);
    proof {
        assert(r@ =~= help_tok());
    }
    r
}

/// Decide which command a token names.
fn keyword_of(tok: &Vec<u8>) -> (r: Keyword)
    ensures
        r == spec_keyword(tok@),
{
    if bytes_eq(tok.as_slice(), kw_create().as_slice()) {
        Keyword::Create
    } else if bytes_eq(tok.as_slice(), kw_join().as_slice()) {
        Keyword::Join
    } else if bytes_eq(tok.as_slice(), kw_send().as_slice()) {
        Keyword::Send
    } else if bytes_eq(tok.as_slice(), kw_clear().as_slice()) {
        Keyword::Clear
    } else if bytes_eq(tok.as_slice(), kw_exit().as_slice()) {
        Keyword::Exit
    } else if bytes_eq(tok.as_slice(), kw_help().as_slice()) {
        Keyword::Help
    } else {
        Keyword::Unknown
    }
}

/// A display action the surrounding program is asked to perform after a
/// command line was executed.
#[derive(Debug)]
pub enum CmdEffect {
    /// A new group is being created.
    Creating,
    /// The engine refused to create the group.
    CreateFailed(SessionError),
    /// A fresh join credential is being broadcast.
    SendingKeys,
    /// The engine refused to issue or encode a join credential.
    IssueFailed(SessionError),
    /// `send` was used before a group was created or joined.
    NoGroupWarning,
    /// The engine refused to encrypt or encode the message.
    SendFailed(SessionError),
    /// The sent text, to be echoed locally.
    Echo(Vec<u8>),
    /// The display is to be cleared.
    ClearScreen,
    /// The process is to terminate.
    Exit,
    /// The command summary is to be printed.
    Help,
    /// An unknown token; the rest of the line was ignored.
    Unknown(Vec<u8>),
}

/// What a command line amounts to: the bytes to broadcast (empty when
/// nothing leaves the process) and the ordered display effects.
#[derive(Debug)]
pub struct CmdOutcome {
    pub msg: Vec<u8>,
    pub effects: Vec<CmdEffect>,
}

/// Execute one command line against the session.
///
/// Tokens are executed in order; `send`, `clear`, `exit` and an unknown
/// token stop the line.  Whatever the line holds, the returned broadcast
/// bytes are either empty or carry a recognized frame — a join credential
/// from `join`, a control message from `send` — and a `send` without an
/// active group leaves the session untouched and only warns.
pub fn parse_cmd(node: &mut Node, line: &[u8]) -> (r: CmdOutcome)
    requires
        old(node).inv(),
    ensures
        final(node).inv(),
        final(node).spec_peer_id() == old(node).spec_peer_id(),
        old(node).spec_has_group() ==> final(node).spec_has_group(),
        r.msg@.len() != 0 ==> spec_kind_of(r.msg@) == WireKind::JoinCredential || spec_kind_of(r.msg@) == WireKind::GroupControl,
        spec_tokens(line@).len() == 0 ==> r.msg@.len() == 0 && r.effects@.len() == 0 && *final(node) == *old(node),
        spec_tokens(line@).len() > 0 && spec_keyword(spec_tokens(line@)[0]) == Keyword::Send
            && !old(node).spec_has_group() ==> r.msg@.len() == 0 && r.effects@ == seq![
            CmdEffect::NoGroupWarning,
        ] && *final(node) == *old(node),
        spec_tokens(line@).len() > 0 && spec_keyword(spec_tokens(line@)[0]) == Keyword::Send
            && old(node).spec_has_group() && r.msg@.len() != 0 ==> spec_kind_of(r.msg@)
            == WireKind::GroupControl && r.effects@.len() == 1 && (r.effects@[0] matches
        CmdEffect::Echo(t) && t@ == spec_joined_from(spec_tokens(line@), 1)),
        spec_tokens(line@).len() > 0 && spec_keyword(spec_tokens(line@)[0]) == Keyword::Clear
            ==> r.msg@.len() == 0 && r.effects@ == seq![CmdEffect::ClearScreen] && *final(node)
            == *old(node),
        spec_tokens(line@).len() > 0 && spec_keyword(spec_tokens(line@)[0]) == Keyword::Exit
            ==> r.msg@.len() == 0 && r.effects@ == seq![CmdEffect::Exit] && *final(node) == *old(node),
        spec_tokens(line@).len() > 0 && spec_keyword(spec_tokens(line@)[0]) == Keyword::Unknown
            ==> r.msg@.len() == 0 && r.effects@.len() == 1 && (r.effects@[0] matches
        CmdEffect::Unknown(t) && t@ == spec_tokens(line@)[0]) && *final(node) == *old(node),
        spec_tokens(line@).len() > 0 && spec_keyword(spec_tokens(line@)[0]) == Keyword::Create
            ==> r.effects@.len() >= 1 && r.effects@[0] == CmdEffect::Creating && ((final(node).spec_has_group() && final(node).spec_is_leader()) || (r.effects@.len() >= 2
            && r.effects@[1] matches CmdEffect::CreateFailed(_))),
        spec_tokens(line@).len() > 0 && spec_keyword(spec_tokens(line@)[0]) == Keyword::Join
            ==> r.effects@.len() >= 1 && r.effects@[0] == CmdEffect::SendingKeys && (r.msg@.len()
            != 0 || (r.effects@.len() >= 2 && r.effects@[1] matches CmdEffect::IssueFailed(_))),
        spec_tokens(line@).len() > 0 && spec_keyword(spec_tokens(line@)[0]) == Keyword::Help
            ==> r.effects@.len() >= 1 && r.effects@[0] == CmdEffect::Help,
        spec_tokens(line@).len() > 0 && spec_keyword(spec_tokens(line@)[0]) == Keyword::Send
            && old(node).spec_has_group() ==> r.msg@.len() != 0 || (r.effects@.len() == 1
            && r.effects@[0] matches CmdEffect::SendFailed(_)),
        spec_tokens(line@).len() > 0 && spec_keyword(spec_tokens(line@)[0]) == Keyword::Send
            ==> final(node).spec_is_leader() == old(node).spec_is_leader() && final(node).spec_issued() == old(node).spec_issued() && final(node).spec_has_group() == old(node).spec_has_group(),
        spec_tokens(line@).len() == 1 && (spec_keyword(spec_tokens(line@)[0]) == Keyword::Create
            || spec_keyword(spec_tokens(line@)[0]) == Keyword::Help) ==> r.msg@.len() == 0,
        spec_tokens(line@).len() == 1 && spec_keyword(spec_tokens(line@)[0]) == Keyword::Join
            ==> final(node).spec_has_group() == old(node).spec_has_group() && final(node).spec_is_leader() == old(node).spec_is_leader(),
{
    let tokens = tokenize(line);
    let ghost toks = spec_tokens(line@);
    proof {
        assert(toks.len() == tokens@.len());
    }
    let mut msg: Vec<u8> = Vec::new();
    let mut effects: Vec<CmdEffect> = Vec::new();
    let mut idx: usize = 0;
    while idx < tokens.len()
        invariant
            old(node).inv(),
            node.inv(),
            node.spec_peer_id() == old(node).spec_peer_id(),
            old(node).spec_has_group() ==> node.spec_has_group(),
            toks == spec_tokens(line@),
            views_of(tokens@) == toks,
            toks.len() == tokens@.len(),
            idx <= tokens@.len(),
            msg@.len() != 0 ==> spec_kind_of(msg@) == WireKind::JoinCredential,
            idx == 0 ==> *node == *old(node) && msg@.len() == 0 && effects@.len() == 0,
            idx > 0 ==> toks.len() > 0 && (spec_keyword(toks[0]) == Keyword::Create
                || spec_keyword(toks[0]) == Keyword::Join || spec_keyword(toks[0])
                == Keyword::Help),
            idx > 0 && spec_keyword(toks[0]) == Keyword::Create ==> effects@.len() >= 1
                && effects@[0] == CmdEffect::Creating && ((node.spec_has_group()
                && node.spec_is_leader()) || (effects@.len() >= 2 && effects@[1] matches
            CmdEffect::CreateFailed(_))),
            idx > 0 && spec_keyword(toks[0]) == Keyword::Join ==> effects@.len() >= 1
                && effects@[0] == CmdEffect::SendingKeys && (msg@.len() != 0 || (effects@.len()
                >= 2 && effects@[1] matches CmdEffect::IssueFailed(_))),
            idx > 0 && spec_keyword(toks[0]) == Keyword::Help ==> effects@.len() >= 1
                && effects@[0] == CmdEffect::Help,
            idx == 1 && (spec_keyword(toks[0]) == Keyword::Create || spec_keyword(toks[0])
                == Keyword::Help) ==> msg@.len() == 0,
            idx == 1 && spec_keyword(toks[0]) == Keyword::Join ==> node.spec_has_group() == old(node).spec_has_group() && node.spec_is_leader() == old(node).spec_is_leader(),
        decreases tokens@.len() - idx,
    {
        let kw = keyword_of(&tokens[idx]);
        match kw {
            Keyword::Create => {
                effects.push(CmdEffect::Creating);
                match node.create_group() {
                    Ok(_) => {},
                    Err(e) => {
                        effects.push(CmdEffect::CreateFailed(e));
                    },
                }
            },
            Keyword::Join => {
                effects.push(CmdEffect::SendingKeys);
                match node.reissue_join_credential() {
                    Ok(kp) => {
                        match serialize_key_package(&kp) {
                            Ok(bytes) => {
                                let ghost payload = bytes@;
                                msg = frame(TAG_JOIN, bytes);
                                proof {
                                    lemma_classify_frame(TAG_JOIN, payload);
                                    assert(msg@.len() != 0);
                                }
                            },
                            Err(e) => {
                                effects.push(CmdEffect::IssueFailed(e));
                            },
                        }
                    },
                    Err(e) => {
                        effects.push(CmdEffect::IssueFailed(e));
                    },
                }
            },
            Keyword::Send => {
                if !node.has_group() {
                    effects.push(CmdEffect::NoGroupWarning);
                    proof {
                        if idx == 0 {
                            assert(effects@ =~= seq![CmdEffect::NoGroupWarning]);
                        }
                    }
                    return CmdOutcome { msg, effects };
                }
                let text = join_tokens(&tokens, 1);
                match node.create_message(text.as_slice()) {
                    Ok(out) => {
                        match serialize_mls_message(&out) {
                            Ok(bytes) => {
                                let ghost payload = bytes@;
                                msg = frame(TAG_CONTROL, bytes);
                                effects.push(CmdEffect::Echo(text));
                                proof {
                                    lemma_classify_frame(TAG_CONTROL, payload);
                                    assert(msg@.len() != 0);
                                }
                                return CmdOutcome { msg, effects };
                            },
                            Err(e) => {
                                effects.push(CmdEffect::SendFailed(e));
                                return CmdOutcome { msg, effects };
                            },
                        }
                    },
                    Err(e) => {
                        effects.push(CmdEffect::SendFailed(e));
                        return CmdOutcome { msg, effects };
                    },
                }
            },
            Keyword::Clear => {
                effects.push(CmdEffect::ClearScreen);
                proof {
                    if idx == 0 {
                        assert(effects@ =~= seq![CmdEffect::ClearScreen]);
                    }
                }
                return CmdOutcome { msg, effects };
            },
            Keyword::Exit => {
                effects.push(CmdEffect::Exit);
                proof {
                    if idx == 0 {
                        assert(effects@ =~= seq![CmdEffect::Exit]);
                    }
                }
                return CmdOutcome { msg, effects };
            },
            Keyword::Help => {
                effects.push(CmdEffect::Help);
            },
            Keyword::Unknown => {
                effects.push(CmdEffect::Unknown(clone_bytes(&tokens[idx])));
                return CmdOutcome { msg, effects };
            },
        }
        idx = idx + 1;
    }
    CmdOutcome { msg, effects }
}

} // verus!
