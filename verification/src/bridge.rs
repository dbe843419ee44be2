//! The modal bridge: a one-shot completion channel that turns the edit
//! surface's "save" signal into an awaitable result.
//!
//! The channel has capacity one and is used once. The save signal is the
//! only intended sender; closing the surface without saving closes the
//! channel instead, so the awaiting receive always resolves: to a
//! confirmation carrying the field values read at that moment, or to an
//! abandonment. It resolves exactly once and is discarded afterwards.

use vstd::prelude::*;

verus! {

#[derive(Clone, Copy, Debug, PartialEq, Eq, Structural)]
pub enum ChannelState {
    /// Open, nothing sent yet: the modal is still on screen.
    Vacant,
    /// The one valid send happened: the save signal fired.
    Queued,
    /// The modal was disposed without the save signal ever firing.
    Closed,
    /// The receive resolved; the channel is spent.
    Consumed,
}

/// Single-slot, single-use completion channel.
#[derive(Clone, Copy, Debug, PartialEq, Eq, Structural)]
pub struct CompletionChannel {
    pub state: ChannelState,
}

impl CompletionChannel {
    /// A fresh channel, allocated when the modal is constructed.
    pub fn new() -> (c: CompletionChannel)
        ensures
            c.state == ChannelState::Vacant,
    {
        CompletionChannel { state: ChannelState::Vacant }
    }

    /// The save signal's one send. Only the first send on a still-open
    /// channel takes effect; any other is rejected and changes nothing.
    pub fn send(&mut self) -> (accepted: bool)
        ensures
            accepted == (old(self).state == ChannelState::Vacant),
            final(self).state == if old(self).state == ChannelState::Vacant {
                ChannelState::Queued
            } else {
                old(self).state
            },
    {
        if self.state == ChannelState::Vacant {
            self.state = ChannelState::Queued;
            true
        } else {
            false
        }
    }

    /// The modal was disposed. A channel still awaiting its send is closed,
    /// so the receiver cannot stall; a send already queued stays receivable.
    pub fn close(&mut self)
        ensures
            final(self).state == if old(self).state == ChannelState::Vacant {
                ChannelState::Closed
            } else {
                old(self).state
            },
    {
        if self.state == ChannelState::Vacant {
            self.state = ChannelState::Closed;
        }
    }

    /// Whether the awaited receive can resolve now: either the save signal
    /// fired, or the modal is gone for good.
    pub fn resolvable(&self) -> (r: bool)
        ensures
            r == (self.state == ChannelState::Queued || self.state == ChannelState::Closed),
    {
        self.state == ChannelState::Queued || self.state == ChannelState::Closed
    }
}

/// How one modal interaction ended.
#[derive(Debug, PartialEq, Eq)]
pub enum EditOutcome {
    /// The user confirmed; the fields were read from the modal at that
    /// moment.
    Confirmed { server: String, username: String, password: String },
    /// The modal closed without the save signal ever firing.
    Abandoned,
}

#[verifier::ext_equal]
pub enum EditOutcomeV {
    Confirmed { server: Seq<char>, username: Seq<char>, password: Seq<char> },
    Abandoned,
}

impl DeepView for EditOutcome {
    type V = EditOutcomeV;

    open spec fn deep_view(&self) -> EditOutcomeV {
        match self {
            EditOutcome::Confirmed { server, username, password } => EditOutcomeV::Confirmed {
                server: server@,
                username: username@,
                password: password@,
            },
            EditOutcome::Abandoned => EditOutcomeV::Abandoned,
        }
    }
}

pub open spec fn spec_resolve(
    state: ChannelState,
    server: Seq<char>,
    username: Seq<char>,
    password: Seq<char>,
) -> EditOutcomeV {
    if state == ChannelState::Queued {
        EditOutcomeV::Confirmed { server, username, password }
    } else {
        EditOutcomeV::Abandoned
    }
}

/// Resolve the awaited receive, exactly once. A queued send resolves to a
/// confirmation carrying the modal's current field values; a closed channel
/// resolves to abandonment. Either way the channel is spent: no second
/// resolution can be asked of it.
pub fn resolve_edit(
    channel: &mut CompletionChannel,
    server: String,
    username: String,
    password: String,
) -> (o: EditOutcome)
    requires
        old(channel).state == ChannelState::Queued || old(channel).state == ChannelState::Closed,
    ensures
        final(channel).state == ChannelState::Consumed,
        o.deep_view() == spec_resolve(old(channel).state, server@, username@, password@),
        (o.deep_view() is Confirmed) <==> old(channel).state == ChannelState::Queued,
{
    let confirmed = channel.state == ChannelState::Queued;
    channel.state = ChannelState::Consumed;
    if confirmed {
        EditOutcome::Confirmed { server, username, password }
    } else {
        EditOutcome::Abandoned
    }
}

} // verus!
