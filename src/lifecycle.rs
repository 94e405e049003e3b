use vstd::prelude::*;
use crate::engine::EngineCall;

verus! {

/// The native state blocks a session owns, by whether each is live.
///
/// The working block is made from the analysis state, which is made from the
/// stream parameters; a block may only be live while what it was made from is.
#[derive(PartialEq, Eq, Structural, Copy, Clone, Debug)]
pub struct NativeResources {
    /// The container engine's logical stream.
    pub stream: bool,
    /// The codec stream parameters.
    pub parameters: bool,
    /// The codec comment list.
    pub comments: bool,
    /// The codec analysis (session) state.
    pub session_state: bool,
    /// The codec per-frame working block.
    pub working_block: bool,
}

/// The position of a release call in the fixed teardown order: the stream,
/// then the working block, the session state, the comments and the parameters.
pub open spec fn release_rank(c: EngineCall) -> int {
    match c {
        EngineCall::StreamClear => 0,
        EngineCall::BlockClear => 1,
        EngineCall::DspClear => 2,
        EngineCall::CommentClear => 3,
        EngineCall::InfoClear => 4,
        _ => 5,
    }
}

/// Whether releasing by `a` must come before releasing by `b`, because the
/// block `a` releases was made from, and reads, the block `b` releases.
pub open spec fn must_release_before(a: EngineCall, b: EngineCall) -> bool {
    (a is BlockClear && (b is DspClear || b is InfoClear)) || (a is DspClear && b is InfoClear)
}

impl NativeResources {
    /// No block live.
    pub open spec fn is_empty(&self) -> bool {
        !self.stream && !self.parameters && !self.comments && !self.session_state && !self.working_block
    }

    /// Every live block's source is live too.
    pub open spec fn wf(&self) -> bool {
        &&& self.working_block ==> self.session_state
        &&& self.session_state ==> self.parameters
    }

    /// The release calls for the live blocks, in teardown order.
    pub open spec fn teardown_spec(&self) -> Seq<EngineCall> {
        (if self.stream { seq![EngineCall::StreamClear] } else { Seq::empty() })
            + (if self.working_block { seq![EngineCall::BlockClear] } else { Seq::empty() })
            + (if self.session_state { seq![EngineCall::DspClear] } else { Seq::empty() })
            + (if self.comments { seq![EngineCall::CommentClear] } else { Seq::empty() })
            + (if self.parameters { seq![EngineCall::InfoClear] } else { Seq::empty() })
    }

    /// Nothing live yet.
    pub fn new() -> (r: Self)
        ensures
            r.is_empty(),
            r.wf(),
    {
        NativeResources {
            stream: false,
            parameters: false,
            comments: false,
            session_state: false,
            working_block: false,
        }
    }

    /// The calls that release every live block, in teardown order.
    pub fn teardown_calls(&self) -> (r: Vec<EngineCall>)
        ensures
            r@ == self.teardown_spec(),
    {
        let mut r: Vec<EngineCall> = Vec::new();
        if self.stream {
            r.push(EngineCall::StreamClear);
        }
        if self.working_block {
            r.push(EngineCall::BlockClear);
        }
        if self.session_state {
            r.push(EngineCall::DspClear);
        }
        if self.comments {
            r.push(EngineCall::CommentClear);
        }
        if self.parameters {
            r.push(EngineCall::InfoClear);
        }
        assert(r@ =~= self.teardown_spec());
        r
    }
}

/// Teardown releases each live block exactly once, and releases a block
/// before the block it was made from.
pub proof fn lemma_teardown_order(res: NativeResources)
    ensures
        forall|i: int, j: int|
            0 <= i < j < res.teardown_spec().len() ==> release_rank(#[trigger] res.teardown_spec()[i])
                < release_rank(#[trigger] res.teardown_spec()[j]),
        forall|i: int, j: int|
            0 <= i < res.teardown_spec().len() && 0 <= j < res.teardown_spec().len()
                && must_release_before(#[trigger] res.teardown_spec()[i], #[trigger] res.teardown_spec()[j])
                ==> i < j,
        res.teardown_spec().contains(EngineCall::StreamClear) == res.stream,
        res.teardown_spec().contains(EngineCall::BlockClear) == res.working_block,
        res.teardown_spec().contains(EngineCall::DspClear) == res.session_state,
        res.teardown_spec().contains(EngineCall::CommentClear) == res.comments,
        res.teardown_spec().contains(EngineCall::InfoClear) == res.parameters,
{
    let s = res.teardown_spec();
    assert forall|i: int| 0 <= i < s.len() implies release_rank(#[trigger] s[i]) < 5 && (forall|j: int|
        0 <= j < i ==> release_rank(s[j]) < release_rank(s[i])) by {
    }
    assert forall|i: int, j: int|
        0 <= i < s.len() && 0 <= j < s.len() && must_release_before(#[trigger] s[i], #[trigger] s[j]) implies i < j by {
        if j <= i {
            assert(release_rank(s[j]) <= release_rank(s[i]));
        }
    }
    assert forall|i: int| 0 <= i < s.len() implies {
        &&& (s[i] == EngineCall::StreamClear ==> res.stream)
        &&& (s[i] == EngineCall::BlockClear ==> res.working_block)
        &&& (s[i] == EngineCall::DspClear ==> res.session_state)
        &&& (s[i] == EngineCall::CommentClear ==> res.comments)
        &&& (s[i] == EngineCall::InfoClear ==> res.parameters)
    } by {
    }
    let n0: int = if res.stream { 1 } else { 0 };
    let n1: int = n0 + if res.working_block { 1int } else { 0int };
    let n2: int = n1 + if res.session_state { 1int } else { 0int };
    let n3: int = n2 + if res.comments { 1int } else { 0int };
    if res.stream {
        assert(s[0] == EngineCall::StreamClear);
    }
    if res.working_block {
        assert(s[n0] == EngineCall::BlockClear);
    }
    if res.session_state {
        assert(s[n1] == EngineCall::DspClear);
    }
    if res.comments {
        assert(s[n2] == EngineCall::CommentClear);
    }
    if res.parameters {
        assert(s[n3] == EngineCall::InfoClear);
    }
}

} // verus!
