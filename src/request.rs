//! Inbound requests and their classification by type tag.
use vstd::prelude::*;

verus! {

/// What an inbound message asks for, read from its `type` tag.
#[derive(Clone, Copy, Debug, PartialEq, Eq, Structural)]
pub enum RequestKind {
    Init,
    Generate,
    /// Any tag other than the two above; such a message goes to the
    /// transport's generic acknowledgment path.
    Unrecognized,
}

/// The part of an inbound message that the node reads: where it came from,
/// its message id (together the correlation token), and its type tag.
#[derive(Clone, Debug, PartialEq, Eq)]
pub struct Inbound {
    pub src: String,
    pub msg_id: u64,
    pub typ: String,
}

pub open spec fn init_tag() -> Seq<char> {
    seq!['i', 'n', 'i', 't']
}

pub open spec fn generate_tag() -> Seq<char> {
    seq!['g', 'e', 'n', 'e', 'r', 'a', 't', 'e']
}

/// The kind that a type tag denotes.
pub open spec fn kind_of(tag: Seq<char>) -> RequestKind {
    if tag == init_tag() {
        RequestKind::Init
    } else if tag == generate_tag() {
        RequestKind::Generate
    } else {
        RequestKind::Unrecognized
    }
}

/// Classifies a type tag: `"init"`, `"generate"`, or anything else.
pub fn classify(tag: &String) -> (kind: RequestKind)
    ensures
        kind == kind_of(tag@),
{
    let init = "init".to_owned();
    let generate = "generate".to_owned();
    proof {
        reveal_strlit("init");
        reveal_strlit("generate");
        assert(init@ =~= init_tag());
        assert(generate@ =~= generate_tag());
    }
    if tag.eq(&init) {
        RequestKind::Init
    } else if tag.eq(&generate) {
        RequestKind::Generate
    } else {
        RequestKind::Unrecognized
    }
}

} // verus!
