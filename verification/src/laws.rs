//! Laws of the reconciliation engine, stated and proved against the flush
//! and handling specifications.

use vstd::prelude::*;
use crate::handler::{
    HandlerV, HandlerContext, sp_flush, sp_can_collapse, sp_inter, sp_shorthand_part,
    sp_after_collapse, sp_leftovers, sp_handle_out, sp_handle_state, sp_substitute, empty_state,
    sp_entries,
};
use crate::properties::{PropV, UnparsedV, sp_is_animation_property};

verus! {

/// No longhand leftover of a flush is ever the shorthand.
proof fn lemma_leftovers_no_shorthand(st: HandlerV)
    ensures
        forall|i: int|
            0 <= i < sp_leftovers(st).len() ==> !(#[trigger] sp_leftovers(st)[i] is Animation),
{
}

/// Collapse correctness, when it fires: if the eight required longhand
/// categories hold lists of one length, a held timeline list has that
/// length too, and the intersection of the eight prefix sets is
/// non-empty, then one flush emits exactly one shorthand declaration,
/// first, carrying exactly that intersection, and every other emitted
/// declaration is a longhand.
pub proof fn lemma_collapse_emits_one_shorthand(st: HandlerV, ctx: HandlerContext)
    requires
        st.wf(),
        st.has_any,
        sp_can_collapse(st),
    ensures
        sp_flush(st, ctx).len() >= 1,
        sp_flush(st, ctx)[0] == PropV::Animation(sp_entries(st, ctx), sp_inter(st)),
        forall|i: int|
            1 <= i < sp_flush(st, ctx).len() ==> !(#[trigger] sp_flush(st, ctx)[i] is Animation),
{
    lemma_leftovers_no_shorthand(sp_after_collapse(st, ctx));
    assert(sp_shorthand_part(st, ctx)[0] == PropV::Animation(sp_entries(st, ctx), sp_inter(st)));
    assert forall|i: int|
        1 <= i < sp_flush(st, ctx).len() implies !(#[trigger] sp_flush(st, ctx)[i]
        is Animation) by {
        let sh = sp_shorthand_part(st, ctx);
        let rest = sp_leftovers(sp_after_collapse(st, ctx));
        if i < sh.len() {
            assert(sp_flush(st, ctx)[i] == sh[i]);
        } else {
            assert(sp_flush(st, ctx)[i] == rest[i - sh.len()]);
        }
    }
}

/// Collapse correctness, when it cannot fire: if the held lists do not
/// share one length (or the intersection is empty, or a category is
/// missing), a flush emits only longhand declarations, never a shorthand.
pub proof fn lemma_no_collapse_only_longhands(st: HandlerV, ctx: HandlerContext)
    requires
        st.wf(),
        !sp_can_collapse(st),
    ensures
        forall|i: int|
            0 <= i < sp_flush(st, ctx).len() ==> !(#[trigger] sp_flush(st, ctx)[i] is Animation),
{
    lemma_leftovers_no_shorthand(st);
    assert(sp_after_collapse(st, ctx) == st);
    assert forall|i: int|
        0 <= i < sp_flush(st, ctx).len() implies !(#[trigger] sp_flush(st, ctx)[i]
        is Animation) by {
        if st.has_any {
            assert(sp_flush(st, ctx) =~= sp_leftovers(st));
        }
    }
}

/// An unparsed declaration of the family triggers exactly one flush and
/// is then re-emitted on its own: it never merges with the held state,
/// and it accounts for exactly one declaration after the flush output.
pub proof fn lemma_unparsed_flushes_once(st: HandlerV, u: UnparsedV, ctx: HandlerContext)
    requires
        sp_is_animation_property(u.property_id),
    ensures
        sp_handle_out(st, PropV::Unparsed(u), ctx) == sp_flush(st, ctx).push(
            PropV::Unparsed(sp_substitute(u)),
        ),
        sp_handle_state(st, PropV::Unparsed(u), ctx) == empty_state(),
        sp_substitute(u).value.len() == u.value.len(),
{
    assert(sp_flush(st, ctx) + seq![PropV::Unparsed(sp_substitute(u))] =~= sp_flush(
        st,
        ctx,
    ).push(PropV::Unparsed(sp_substitute(u))));
}

} // verus!
