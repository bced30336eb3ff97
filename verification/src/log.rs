//! Rendering of error cause chains into response log strings.
//!
//! A recoverable transaction failure is reported to the consensus engine as
//! a log string holding the full cause chain, not just the top-level
//! message: `"top message: first cause: second cause"`.

use vstd::prelude::*;
use vstd::string::StringExecFns;
use crate::data::ErrorChain;

verus! {

/// The rendering of a cause chain: the messages in order, joined by `": "`.
pub open spec fn spec_render_chain(msgs: Seq<Seq<char>>) -> Seq<char>
    decreases msgs.len(),
{
    if msgs.len() == 0 {
        Seq::empty()
    } else if msgs.len() == 1 {
        msgs[0]
    } else {
        msgs[0] + ": "@ + spec_render_chain(msgs.drop_first())
    }
}

/// Appending one more cause to a chain appends `": "` and the cause to the
/// rendering (or is the rendering, for the first cause).
proof fn lemma_render_chain_push(msgs: Seq<Seq<char>>, m: Seq<char>)
    ensures
        msgs.len() == 0 ==> spec_render_chain(msgs.push(m)) == m,
        msgs.len() >= 1 ==> spec_render_chain(msgs.push(m)) == spec_render_chain(msgs) + ": "@
            + m,
    decreases msgs.len(),
{
    let pushed = msgs.push(m);
    if msgs.len() == 0 {
        assert(pushed.len() == 1);
        assert(pushed[0] == m);
    } else if msgs.len() == 1 {
        assert(pushed.len() == 2);
        assert(pushed.drop_first() =~= seq![m]);
        assert(spec_render_chain(pushed.drop_first()) == m);
        assert(pushed[0] == msgs[0]);
    } else {
        assert(pushed.drop_first() =~= msgs.drop_first().push(m));
        lemma_render_chain_push(msgs.drop_first(), m);
        assert(spec_render_chain(pushed) == msgs[0] + ": "@ + (spec_render_chain(
            msgs.drop_first(),
        ) + ": "@ + m));
        assert(msgs[0] + ": "@ + (spec_render_chain(msgs.drop_first()) + ": "@ + m) =~= (msgs[0]
            + ": "@ + spec_render_chain(msgs.drop_first())) + ": "@ + m);
    }
}

/// The rendering of a non-empty chain is at least as long as its first
/// message.
pub proof fn lemma_render_chain_len(msgs: Seq<Seq<char>>)
    requires
        msgs.len() >= 1,
    ensures
        spec_render_chain(msgs).len() >= msgs[0].len(),
    decreases msgs.len(),
{
}

/// Renders the full cause chain of a failure, top-level message first, the
/// messages joined by `": "`. For a well-formed chain the result is never
/// empty.
pub fn render_error_chain(chain: &ErrorChain) -> (log: String)
    ensures
        log@ == spec_render_chain(chain@),
        chain.wf() ==> log@.len() >= 1,
{
    let mut log = String::new();
    let mut i: usize = 0;
    while i < chain.messages.len()
        invariant
            i <= chain.messages@.len(),
            chain@.len() == chain.messages@.len(),
            log@ == spec_render_chain(chain@.take(i as int)),
        decreases chain.messages@.len() - i,
    {
        proof {
            lemma_render_chain_push(chain@.take(i as int), chain@[i as int]);
            assert(chain@.take(i + 1) =~= chain@.take(i as int).push(chain@[i as int]));
        }
        if i > 0 {
            log.append(": ");
        }
        let m: &String = &chain.messages[i];
        log.append(m.as_str());
        i = i + 1;
    }
    proof {
        assert(chain@.take(chain@.len() as int) =~= chain@);
        if chain@.len() >= 1 {
            lemma_render_chain_len(chain@);
        }
    }
    log
}

} // verus!
