//! The registry of panels as a mathematical map, and what each command of
//! the host does to it.
//!
//! A registry maps the label of a window to the record of its panel. The
//! commands are those of the host: convert a window, ask something of a
//! registered panel, forget every panel. [`command_step`] and
//! [`command_reply`] are the rule that the executable registry is held to;
//! the laws at the end are proved of the rule.

use vstd::prelude::*;
use crate::error::Error;
use crate::native::{non_activating, NativeCall, FLOATING_WINDOW_LEVEL, NIL};
use crate::state::{
    lemma_converted_is_valid, lemma_step_keeps_valid, InitialStyle, NativeWindow, PanelRequest,
    PanelState, WebviewPanelConfig,
};

verus! {

/// A command of the host on the registry.
pub enum Command {
    /// Convert the window with this label and register its panel.
    Convert { label: Seq<char>, native: NativeWindow, config: WebviewPanelConfig },
    /// Ask `request` of the panel registered under `label`.
    Dispatch { label: Seq<char>, request: PanelRequest },
    /// Forget every panel.
    Reset,
}

/// The answer to a command that was carried out: the address of the native
/// window that the messages are for, and the messages.
pub struct Reply {
    pub window: usize,
    pub calls: Seq<NativeCall>,
}

/// The validity of a registry: it holds finitely many panels, each with a
/// valid record, none of them closed.
pub open spec fn registry_wf(m: Map<Seq<char>, PanelState>) -> bool {
    &&& m.dom().finite()
    &&& forall|l: Seq<char>| #[trigger] m.dom().contains(l) ==> m[l].wf() && m[l].alive
}

/// The registry after a command. Converting registers the new panel under
/// the window's label, in place of any panel that was there; a window that
/// cannot be converted changes nothing. A request changes the one panel it
/// is for, and takes it out of the registry if it closes it; for a label
/// that is not registered it changes nothing.
pub open spec fn command_step(m: Map<Seq<char>, PanelState>, command: Command) -> Map<
    Seq<char>,
    PanelState,
> {
    match command {
        Command::Convert { label, native, config } => if native.valid() {
            m.insert(label, PanelState::converted(native, config))
        } else {
            m
        },
        Command::Dispatch { label, request } => if m.dom().contains(label) {
            let next = m[label].step(request).state;
            if next.alive {
                m.insert(label, next)
            } else {
                m.remove(label)
            }
        } else {
            m
        },
        Command::Reset => Map::empty(),
    }
}

/// The message that clears away what an earlier conversion of the same
/// window left on it: its tracking area, if the label is registered with a
/// panel of this window that has one.
pub open spec fn clearing_calls(
    m: Map<Seq<char>, PanelState>,
    label: Seq<char>,
    native: NativeWindow,
) -> Seq<NativeCall> {
    if m.dom().contains(label) && m[label].window == native.ns_window && m[label].tracking
        is Some {
        seq![NativeCall::RemoveTrackingArea]
    } else {
        Seq::empty()
    }
}

/// The answer to a command: the messages for the native window, or the
/// error. A window that is nil or has no content view is an invalid handle;
/// a label that is not registered has no panel. A window that is converted
/// again is first cleared of what the earlier conversion left on it.
pub open spec fn command_reply(m: Map<Seq<char>, PanelState>, command: Command) -> Result<
    Reply,
    Error,
> {
    match command {
        Command::Convert { label, native, config } => if native.valid() {
            Ok(
                Reply {
                    window: native.ns_window,
                    calls: clearing_calls(m, label, native) + PanelState::conversion_calls(
                        native,
                        config,
                    ),
                },
            )
        } else {
            Err(Error::InvalidHandle)
        },
        Command::Dispatch { label, request } => if m.dom().contains(label) {
            Ok(Reply { window: m[label].window, calls: m[label].step(request).calls })
        } else {
            Err(Error::PanelNotFound)
        },
        Command::Reset => Ok(Reply { window: NIL, calls: Seq::empty() }),
    }
}

/// The registry after a run of commands, the first of `trace` first.
pub open spec fn run(m: Map<Seq<char>, PanelState>, trace: Seq<Command>) -> Map<
    Seq<char>,
    PanelState,
>
    decreases trace.len(),
{
    if trace.len() == 0 {
        m
    } else {
        command_step(run(m, trace.drop_last()), trace.last())
    }
}

/// Whether a command converts a window with the given label: one that can
/// be converted.
pub open spec fn converts(command: Command, label: Seq<char>) -> bool {
    command matches Command::Convert { label: l, native, .. } && l == label && native.valid()
}

/// A valid registry stays valid under every command.
pub proof fn lemma_command_keeps_valid(m: Map<Seq<char>, PanelState>, command: Command)
    requires
        registry_wf(m),
    ensures
        registry_wf(command_step(m, command)),
{
    match command {
        Command::Convert { label, native, config } => {
            if native.valid() {
                lemma_converted_is_valid(native, config);
            }
        },
        Command::Dispatch { label, request } => {
            if m.dom().contains(label) {
                lemma_step_keeps_valid(m[label], request);
            }
        },
        Command::Reset => {},
    }
}

/// Whatever the host has done since the registry was empty, the registry
/// is valid.
pub proof fn lemma_run_is_valid(trace: Seq<Command>)
    ensures
        registry_wf(run(Map::empty(), trace)),
    decreases trace.len(),
{
    if trace.len() > 0 {
        lemma_run_is_valid(trace.drop_last());
        lemma_command_keeps_valid(run(Map::empty(), trace.drop_last()), trace.last());
    }
}

/// A label that was never converted has no panel: after any run of commands
/// from the empty registry, none of which converts a window with the label,
/// the label is not registered, and whatever is asked of it is answered
/// with `PanelNotFound`.
pub proof fn lemma_unconverted_label_not_found(
    trace: Seq<Command>,
    label: Seq<char>,
    request: PanelRequest,
)
    requires
        forall|i: int| 0 <= i < trace.len() ==> !converts(#[trigger] trace[i], label),
    ensures
        !run(Map::empty(), trace).dom().contains(label),
        command_reply(run(Map::empty(), trace), Command::Dispatch { label, request }) == Err::<
            Reply,
            Error,
        >(Error::PanelNotFound),
    decreases trace.len(),
{
    if trace.len() > 0 {
        lemma_unconverted_label_not_found(trace.drop_last(), label, request);
        assert(!converts(trace[trace.len() - 1], label));
    }
}

/// After a window is converted as a non-activating panel, its label is
/// registered, with a panel at the floating level whose style marks it
/// non-activating; with a tracking area exactly if one was asked for.
pub proof fn lemma_convert_then_lookup(
    m: Map<Seq<char>, PanelState>,
    label: Seq<char>,
    native: NativeWindow,
    config: WebviewPanelConfig,
)
    requires
        native.valid(),
        config.initial_style == InitialStyle::NonActivating,
    ensures
        ({
            let after = command_step(m, Command::Convert { label, native, config });
            &&& after.dom().contains(label)
            &&& after[label] == PanelState::converted(native, config)
            &&& after[label].level == FLOATING_WINDOW_LEVEL
            &&& non_activating(after[label].style_mask)
            &&& after[label].tracking is Some <==> config.with_tracking_area
        }),
{
    let mask = native.style_mask;
    assert((mask | (1i32 << 7)) & (1i32 << 7) != 0) by (bit_vector);
}

/// Converting a label a second time replaces its panel: the registry is as
/// if only the second conversion had been made, and holds the labels it
/// held before and this one, once.
pub proof fn lemma_reconvert_replaces(
    m: Map<Seq<char>, PanelState>,
    label: Seq<char>,
    first: NativeWindow,
    first_config: WebviewPanelConfig,
    second: NativeWindow,
    second_config: WebviewPanelConfig,
)
    requires
        second.valid(),
    ensures
        ({
            let once = command_step(
                m,
                Command::Convert { label, native: second, config: second_config },
            );
            let twice = command_step(
                command_step(m, Command::Convert { label, native: first, config: first_config }),
                Command::Convert { label, native: second, config: second_config },
            );
            &&& twice == once
            &&& twice.dom() == m.dom().insert(label)
            &&& twice[label] == PanelState::converted(second, second_config)
        }),
{
    let once = command_step(m, Command::Convert { label, native: second, config: second_config });
    let twice = command_step(
        command_step(m, Command::Convert { label, native: first, config: first_config }),
        Command::Convert { label, native: second, config: second_config },
    );
    assert(twice =~= once);
    assert(twice.dom() =~= m.dom().insert(label));
}

/// Hiding twice is hiding once: after the first `OrderOut` the panel is
/// registered still and hidden, and the second is answered without error
/// and changes nothing.
pub proof fn lemma_hide_twice(m: Map<Seq<char>, PanelState>, label: Seq<char>)
    requires
        registry_wf(m),
        m.dom().contains(label),
    ensures
        ({
            let out = Command::Dispatch { label, request: PanelRequest::OrderOut(None) };
            let once = command_step(m, out);
            &&& once.dom().contains(label)
            &&& !once[label].visible
            &&& command_reply(once, out) is Ok
            &&& command_step(once, out) == once
        }),
{
    let out = Command::Dispatch { label, request: PanelRequest::OrderOut(None) };
    let once = command_step(m, out);
    assert(command_step(once, out) =~= once);
}

/// A closed panel is gone: after `Close` the label is not registered, and
/// whatever is asked of it is answered with `PanelNotFound`.
pub proof fn lemma_closed_label_not_found(
    m: Map<Seq<char>, PanelState>,
    label: Seq<char>,
    request: PanelRequest,
)
    ensures
        ({
            let after = command_step(m, Command::Dispatch { label, request: PanelRequest::Close });
            &&& !after.dom().contains(label)
            &&& command_reply(after, Command::Dispatch { label, request }) == Err::<Reply, Error>(
                Error::PanelNotFound,
            )
        }),
{
}

} // verus!
