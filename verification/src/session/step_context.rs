//! What holds for one request to the model.
use vstd::prelude::*;

verus! {

/// What is asked of the context while a request runs. A tool that replaces the context has to be
/// the only one in its response.
#[derive(Clone, Copy, Debug, PartialEq, Eq, Structural)]
pub struct ContextTransitionState {
    pub mixed_with_sibling_tool: bool,
    pub refresh_requested: bool,
}

/// The context of one request. `C` is what was captured for it, and `T` a tool.
#[derive(Clone, Debug, PartialEq, Eq)]
pub struct StepContext<C, T> {
    pub captured: C,
    /// The tools that this request was made with, once they are known.
    pub mcp_tool_snapshot: Option<Vec<T>>,
    pub context_transition: ContextTransitionState,
}

impl<C, T> StepContext<C, T> {
    pub fn new(captured: C) -> (res: StepContext<C, T>)
        ensures
            res.captured == captured,
            res.mcp_tool_snapshot is None,
            res.context_transition == (ContextTransitionState {
                mixed_with_sibling_tool: false,
                refresh_requested: false,
            }),
    {
        StepContext {
            captured,
            mcp_tool_snapshot: None,
            context_transition: ContextTransitionState {
                mixed_with_sibling_tool: false,
                refresh_requested: false,
            },
        }
    }

    /// Fixes the tools of this request. The first list counts, whatever is listed later.
    pub fn mcp_tools(&mut self, listed: Vec<T>)
        ensures
            *final(self) == (StepContext {
                mcp_tool_snapshot: match old(self).mcp_tool_snapshot {
                    Some(tools) => Some(tools),
                    None => Some(listed),
                },
                ..*old(self)
            }),
    {
        if self.mcp_tool_snapshot.is_none() {
            self.mcp_tool_snapshot = Some(listed);
        }
    }

    pub fn reject_context_transition_mixed_with_sibling_tool(&mut self)
        ensures
            *final(self) == (StepContext {
                context_transition: ContextTransitionState {
                    mixed_with_sibling_tool: true,
                    ..old(self).context_transition
                },
                ..*old(self)
            }),
    {
        self.context_transition.mixed_with_sibling_tool = true;
    }

    pub fn context_transition_has_sibling_tool(&self) -> (res: bool)
        ensures
            res == self.context_transition.mixed_with_sibling_tool,
    {
        self.context_transition.mixed_with_sibling_tool
    }

    pub fn request_turn_context_refresh(&mut self)
        ensures
            *final(self) == (StepContext {
                context_transition: ContextTransitionState {
                    refresh_requested: true,
                    ..old(self).context_transition
                },
                ..*old(self)
            }),
    {
        self.context_transition.refresh_requested = true;
    }

    pub fn turn_context_refresh_requested(&self) -> (res: bool)
        ensures
            res == self.context_transition.refresh_requested,
    {
        self.context_transition.refresh_requested
    }
}

/// The tools of a request are fixed by the first list, whatever is listed later.
pub proof fn law_first_list_of_tools_counts<C, T>(
    first: &mut StepContext<C, T>,
    second: &mut StepContext<C, T>,
    listed: Vec<T>,
    later: Vec<T>,
)
    requires
        old(first).mcp_tool_snapshot is None,
        call_ensures(StepContext::<C, T>::mcp_tools, (first, listed), ()),
        *old(second) == *final(first),
        call_ensures(StepContext::<C, T>::mcp_tools, (second, later), ()),
    ensures
        final(first).mcp_tool_snapshot == Some(listed),
        *final(second) == *final(first),
        final(second).captured == old(first).captured,
{
}

/// A refresh that is asked for stays asked for, and so does the refusal of a context change that
/// came with another tool; neither takes the place of the other.
pub proof fn law_refresh_and_refusal_are_kept_apart<C, T>(
    first: &mut StepContext<C, T>,
    second: &mut StepContext<C, T>,
)
    requires
        call_ensures(StepContext::<C, T>::request_turn_context_refresh, (first,), ()),
        *old(second) == *final(first),
        call_ensures(
            StepContext::<C, T>::reject_context_transition_mixed_with_sibling_tool,
            (second,),
            (),
        ),
    ensures
        final(first).context_transition.refresh_requested,
        final(first).context_transition.mixed_with_sibling_tool == old(
            first,
        ).context_transition.mixed_with_sibling_tool,
        final(second).context_transition.refresh_requested,
        final(second).context_transition.mixed_with_sibling_tool,
        final(second).captured == old(first).captured,
        final(second).mcp_tool_snapshot == old(first).mcp_tool_snapshot,
{
}

} // verus!
