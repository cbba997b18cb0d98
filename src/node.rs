//! The request dispatcher: one node, one identifier strategy chosen at
//! construction, one action for each inbound request.
use vstd::prelude::*;
use crate::registry::IdRegistry;
use crate::request::{classify, kind_of, Inbound, RequestKind};
use crate::token::{is_token, TokenGenerator};

verus! {

/// Which way the node makes identifiers.
#[derive(Clone, Copy, Debug, PartialEq, Eq, Structural)]
pub enum Strategy {
    /// Random 64-bit numbers, checked against a registry of issued ones.
    CheckedRandom,
    /// Hyphenated 128-bit tokens made from random bits, with no registry.
    SyntheticUnique,
}

/// An identifier handed out in a `generate_ok` reply.
#[derive(Clone, Debug, PartialEq, Eq)]
pub enum Identifier {
    Number(u64),
    Token(String),
}

/// The body of a reply.
#[derive(Clone, Debug, PartialEq, Eq)]
pub enum ReplyBody {
    InitOk,
    GenerateOk(Identifier),
}

/// A reply, addressed back to the sender of the request it answers.
#[derive(Clone, Debug, PartialEq, Eq)]
pub struct Reply {
    pub dest: String,
    pub in_reply_to: u64,
    pub body: ReplyBody,
}

/// What the transport is to do with one inbound request.
#[derive(Clone, Debug, PartialEq, Eq)]
pub enum Action {
    /// Send this reply.
    Send(Reply),
    /// Hand the request to the generic acknowledgment path; send nothing.
    Acknowledge,
    /// No unused identifier turned up within the draw limit; send nothing.
    /// Only a checked-random node that has already issued numbers can end
    /// here.
    Exhausted,
}

pub open spec fn init_ok_tag() -> Seq<char> {
    seq!['i', 'n', 'i', 't', '_', 'o', 'k']
}

pub open spec fn generate_ok_tag() -> Seq<char> {
    seq!['g', 'e', 'n', 'e', 'r', 'a', 't', 'e', '_', 'o', 'k']
}

/// The `type` tag a reply body carries.
pub open spec fn reply_tag(body: ReplyBody) -> Seq<char> {
    match body {
        ReplyBody::InitOk => init_ok_tag(),
        ReplyBody::GenerateOk(_) => generate_ok_tag(),
    }
}

impl ReplyBody {
    /// The `type` tag of this body: `"init_ok"` or `"generate_ok"`.
    pub fn tag(&self) -> (r: String)
        ensures
            r@ == reply_tag(*self),
    {
        match self {
            ReplyBody::InitOk => {
                let r = "init_ok".to_owned();
                proof {
                    reveal_strlit("init_ok");
                    assert(r@ =~= init_ok_tag());
                }
                r
            },
            ReplyBody::GenerateOk(_) => {
                let r = "generate_ok".to_owned();
                proof {
                    reveal_strlit("generate_ok");
                    assert(r@ =~= generate_ok_tag());
                }
                r
            },
        }
    }
}

/// `reply` carries the correlation token of `req`: it goes back to the
/// sender and names the request's message id.
pub open spec fn correlated(reply: Reply, req: Inbound) -> bool {
    reply.dest == req.src && reply.in_reply_to == req.msg_id
}

/// One step of a node: under `strategy`, with `pre` issued before, request
/// `req` leads to action `act` with `post` issued after.
pub open spec fn step(
    strategy: Strategy,
    pre: Set<u64>,
    req: Inbound,
    post: Set<u64>,
    act: Action,
) -> bool {
    match kind_of(req.typ@) {
        RequestKind::Init => post == pre && act == Action::Send(
            (Reply { dest: req.src, in_reply_to: req.msg_id, body: ReplyBody::InitOk }),
        ),
        RequestKind::Unrecognized => post == pre && act == Action::Acknowledge,
        RequestKind::Generate => match strategy {
            Strategy::CheckedRandom => match act {
                Action::Send(reply) => correlated(reply, req) && match reply.body {
                    ReplyBody::GenerateOk(Identifier::Number(id)) => !pre.contains(id) && post
                        == pre.insert(id),
                    _ => false,
                },
                Action::Exhausted => post == pre && pre != Set::<u64>::empty(),
                Action::Acknowledge => false,
            },
            Strategy::SyntheticUnique => post == pre && match act {
                Action::Send(reply) => correlated(reply, req) && match reply.body {
                    ReplyBody::GenerateOk(Identifier::Token(t)) => is_token(t@),
                    _ => false,
                },
                _ => false,
            },
        },
    }
}

enum Generator {
    CheckedRandom(IdRegistry),
    SyntheticUnique(TokenGenerator),
}

/// A node: the strategy it was built with and, for the checked-random one,
/// the registry of what it has issued.
pub struct Node {
    generator: Generator,
}

impl Node {
    pub closed spec fn strategy(&self) -> Strategy {
        match self.generator {
            Generator::CheckedRandom(_) => Strategy::CheckedRandom,
            Generator::SyntheticUnique(_) => Strategy::SyntheticUnique,
        }
    }

    /// The numbers issued so far; always empty under the synthetic-unique
    /// strategy.
    pub closed spec fn issued(&self) -> Set<u64> {
        match self.generator {
            Generator::CheckedRandom(r) => r@,
            Generator::SyntheticUnique(_) => Set::empty(),
        }
    }

    /// A node with the given strategy that has issued nothing.
    pub fn new(strategy: Strategy) -> (r: Node)
        ensures
            r.strategy() == strategy,
            r.issued() == Set::<u64>::empty(),
    {
        match strategy {
            Strategy::CheckedRandom => Node { generator: Generator::CheckedRandom(IdRegistry::new()) },
            Strategy::SyntheticUnique => Node {
                generator: Generator::SyntheticUnique(TokenGenerator::new()),
            },
        }
    }

    /// Whether the number `id` has been issued by this node.
    pub fn has_issued(&self, id: u64) -> (r: bool)
        ensures
            r == self.issued().contains(id),
    {
        match &self.generator {
            Generator::CheckedRandom(registry) => registry.contains(id),
            Generator::SyntheticUnique(_) => false,
        }
    }

    /// Handles a request that needs no exclusive access: `init`,
    /// unrecognized tags, and `generate` under the synthetic-unique strategy.
    /// A checked-random `generate` needs the registry; it is handed back
    /// untouched as `Err`.
    pub fn dispatch_shared(&self, req: Inbound) -> (r: Result<Action, Inbound>)
        ensures
            r is Err <==> (kind_of(req.typ@) == RequestKind::Generate && self.strategy()
                == Strategy::CheckedRandom),
            match r {
                Ok(act) => step(self.strategy(), self.issued(), req, self.issued(), act),
                Err(back) => back == req,
            },
    {
        let kind = classify(&req.typ);
        match kind {
            RequestKind::Init => Ok(
                Action::Send(Reply { dest: req.src, in_reply_to: req.msg_id, body: ReplyBody::InitOk }),
            ),
            RequestKind::Unrecognized => Ok(Action::Acknowledge),
            RequestKind::Generate => match &self.generator {
                Generator::CheckedRandom(_) => Err(req),
                Generator::SyntheticUnique(tokens) => Ok(
                    Action::Send(
                        Reply {
                            dest: req.src,
                            in_reply_to: req.msg_id,
                            body: ReplyBody::GenerateOk(Identifier::Token(tokens.generate())),
                        },
                    ),
                ),
            },
        }
    }

    /// Handles one inbound request: `init` is answered with `init_ok`,
    /// `generate` with `generate_ok` and a fresh identifier, anything else is
    /// handed to the acknowledgment path. Every reply is correlated with its
    /// request. A checked-random node that has issued nothing always answers
    /// `generate`.
    pub fn dispatch(&mut self, req: Inbound) -> (act: Action)
        ensures
            final(self).strategy() == old(self).strategy(),
            step(old(self).strategy(), old(self).issued(), req, final(self).issued(), act),
            kind_of(req.typ@) == RequestKind::Generate && old(self).strategy()
                == Strategy::CheckedRandom && old(self).issued() == Set::<u64>::empty() ==> act is Send,
    {
        match self.dispatch_shared(req) {
            Ok(act) => act,
            Err(req) => match &mut self.generator {
                Generator::CheckedRandom(registry) => match registry.generate() {
                    Some(id) => Action::Send(
                        Reply {
                            dest: req.src,
                            in_reply_to: req.msg_id,
                            body: ReplyBody::GenerateOk(Identifier::Number(id)),
                        },
                    ),
                    None => Action::Exhausted,
                },
                // Not reached: `dispatch_shared` answers every request of a
                // synthetic-unique node, and the contract above proves it.
                Generator::SyntheticUnique(_) => Action::Exhausted,
            },
        }
    }
}

} // verus!
