//! What holds of the service worker whatever the commands: their order is
//! kept, the last call counts, nothing is reported twice, and each reported
//! change stands under its own name.

use super::controls::{
    app_permission_changes, applied, double_change, emitted, first_shutdown, flag_change,
    lemma_first_shutdown, names_change, one_change, player_permission_changes, ran, served, told,
};
use super::dict::{lemma_with_entry, with_entry, ValueView};
use super::{InternalEvent, MprisPermissions, ServiceStateView};
use crate::MediaPlayback;
use vstd::prelude::*;

verus! {

/// The things that the application sets, one for each kind of command but the order to shut down.
pub enum Field {
    Permissions,
    Metadata,
    Cover,
    Playback,
    LoopStatus,
    Rate,
    Shuffle,
    Volume,
    Fullscreen,
}

/// Whether a command sets the given field.
pub open spec fn sets(event: InternalEvent, field: Field) -> bool {
    match (event, field) {
        (InternalEvent::SetPermissions(_), Field::Permissions) => true,
        (InternalEvent::SetMetadata(_), Field::Metadata) => true,
        (InternalEvent::SetCover(_), Field::Cover) => true,
        (InternalEvent::SetPlayback(_), Field::Playback) => true,
        (InternalEvent::SetLoopStatus(_), Field::LoopStatus) => true,
        (InternalEvent::SetRate(_), Field::Rate) => true,
        (InternalEvent::SetShuffle(_), Field::Shuffle) => true,
        (InternalEvent::SetVolume(_), Field::Volume) => true,
        (InternalEvent::SetFullscreen(_), Field::Fullscreen) => true,
        _ => false,
    }
}

/// The last of `events` that sets the given field, if any does.
pub open spec fn last_setting(events: Seq<InternalEvent>, field: Field) -> Option<InternalEvent>
    decreases events.len(),
{
    if events.len() == 0 {
        None
    } else if sets(events.last(), field) {
        Some(events.last())
    } else {
        last_setting(events.drop_last(), field)
    }
}

/// Whether two states hold the same in the given field.
pub open spec fn same_field(a: ServiceStateView, b: ServiceStateView, field: Field) -> bool {
    match field {
        Field::Permissions => a.permissions == b.permissions,
        Field::Metadata => a.metadata == b.metadata,
        Field::Cover => a.cover_url == b.cover_url,
        Field::Playback => a.playback_status == b.playback_status,
        Field::LoopStatus => a.loop_status == b.loop_status,
        Field::Rate => a.rate == b.rate,
        Field::Shuffle => a.shuffle == b.shuffle,
        Field::Volume => a.volume == b.volume,
        Field::Fullscreen => a.fullscreen == b.fullscreen,
    }
}

/// Commands are neither reordered nor merged: taking one sequence of
/// commands and then another gives the state, and tells the bus in the
/// order, that taking the two as one sequence does.
pub proof fn lemma_order_is_kept(
    state: ServiceStateView,
    first: Seq<InternalEvent>,
    second: Seq<InternalEvent>,
)
    ensures
        ran(state, first + second) == ran(ran(state, first), second),
        told(state, first + second) == told(state, first) + told(ran(state, first), second),
        told(state, first + second).len() == first.len() + second.len(),
    decreases second.len(),
{
    if second.len() == 0 {
        lemma_told_len(state, first);
    } else {
        lemma_order_is_kept(state, first, second.drop_last());
        assert((first + second).drop_last() =~= first + second.drop_last());
    }
}

/// The bus is told once for each command.
pub proof fn lemma_told_len(state: ServiceStateView, events: Seq<InternalEvent>)
    ensures
        told(state, events).len() == events.len(),
    decreases events.len(),
{
    if events.len() > 0 {
        lemma_told_len(state, events.drop_last());
    }
}

/// The last call counts: after any sequence of commands, each field holds
/// what the last command that sets it asked for, and what it held at the
/// start where no command sets it.
pub proof fn lemma_last_call_wins(
    state: ServiceStateView,
    events: Seq<InternalEvent>,
    field: Field,
)
    ensures
        match last_setting(events, field) {
            Some(event) => sets(event, field) && same_field(
                ran(state, events),
                applied(state, event),
                field,
            ),
            None => same_field(ran(state, events), state, field),
        },
    decreases events.len(),
{
    if events.len() > 0 {
        lemma_last_call_wins(state, events.drop_last(), field);
    }
}

/// The published dictionary stays the one that the metadata and the cover give.
pub proof fn lemma_dictionary_follows(state: ServiceStateView, events: Seq<InternalEvent>)
    requires
        state.coherent(),
    ensures
        ran(state, events).coherent(),
    decreases events.len(),
{
    if events.len() > 0 {
        lemma_dictionary_follows(state, events.drop_last());
    }
}

/// Setting the same thing twice in a row reports a change at most once: the
/// second of two equal commands reports no property as changed.
pub proof fn lemma_repeated_command_is_quiet(state: ServiceStateView, event: InternalEvent)
    ensures
        emitted(applied(state, event), event).reports_no_change(),
{
    reveal(with_entry);
}

/// Setting the same playback status twice in a row reports the status as
/// changed at most once, and not at all where it was of that kind before.
pub proof fn lemma_same_playback_twice(state: ServiceStateView, playback: MediaPlayback)
    ensures
        emitted(
            applied(state, InternalEvent::SetPlayback(playback)),
            InternalEvent::SetPlayback(playback),
        ).reports_no_change(),
        playback.spec_same_kind(&state.playback_status) ==> emitted(
            state,
            InternalEvent::SetPlayback(playback),
        ).reports_no_change(),
{
    lemma_repeated_command_is_quiet(state, InternalEvent::SetPlayback(playback));
}

/// All that was set before a detach is served: where no command before the
/// first order to shut down is such an order, the worker serves exactly
/// those commands, and nothing that stands behind the order.
pub proof fn lemma_served_before_shutdown(commands: Seq<InternalEvent>, rest: Seq<InternalEvent>)
    requires
        forall|i: int| 0 <= i < commands.len() ==> !(commands[i] is Kill),
    ensures
        served(commands.push(InternalEvent::Kill) + rest) == commands,
        first_shutdown(commands.push(InternalEvent::Kill) + rest) == commands.len(),
        served(commands) == commands,
{
    let all = commands.push(InternalEvent::Kill) + rest;
    lemma_first_shutdown(all, commands.len() as int);
    lemma_first_shutdown(commands, commands.len() as int);
}

/// The names of the published permissions are different strings.
proof fn lemma_permission_names_differ()
    ensures
        "CanQuit"@.len() == 7,
        "CanSetFullscreen"@.len() == 16,
        "CanRaise"@.len() == 8,
        "SupportedUriSchemes"@.len() == 19,
        "SupportedMimeTypes"@.len() == 18,
        "CanGoNext"@.len() == 9,
        "CanGoPrevious"@.len() == 13,
        "CanPlay"@.len() == 7 && "CanPlay"@[3] == 'P',
        "CanPause"@.len() == 8,
        "CanSeek"@.len() == 7 && "CanSeek"@[3] == 'S',
        "CanControl"@.len() == 10,
        "MaximumRate"@.len() == 11 && "MaximumRate"@[1] == 'a',
        "MinimumRate"@.len() == 11 && "MinimumRate"@[1] == 'i',
{
    reveal_strlit("CanQuit");
    reveal_strlit("CanSetFullscreen");
    reveal_strlit("CanRaise");
    reveal_strlit("SupportedUriSchemes");
    reveal_strlit("SupportedMimeTypes");
    reveal_strlit("CanGoNext");
    reveal_strlit("CanGoPrevious");
    reveal_strlit("CanPlay");
    reveal_strlit("CanPause");
    reveal_strlit("CanSeek");
    reveal_strlit("CanControl");
    reveal_strlit("MaximumRate");
    reveal_strlit("MinimumRate");
}

/// What is reported of new permissions, property by property: under its
/// name, the new value of each permission that differs from the one
/// published before; nothing for one that does not differ; and nothing else.
pub proof fn lemma_permission_changes(before: MprisPermissions, after: MprisPermissions)
    ensures
        ({
            let app = app_permission_changes(before, after);
            &&& app.get("CanQuit"@) == flag_change(before.can_quit, after.can_quit)
            &&& app.get("CanSetFullscreen"@) == flag_change(
                before.can_set_fullscreen,
                after.can_set_fullscreen,
            )
            &&& app.get("CanRaise"@) == flag_change(before.can_raise, after.can_raise)
            &&& app.get("SupportedUriSchemes"@) == names_change(
                before.supported_uri_schemes,
                after.supported_uri_schemes,
            )
            &&& app.get("SupportedMimeTypes"@) == names_change(
                before.supported_mime_types,
                after.supported_mime_types,
            )
            &&& forall|key: Seq<char>|
                app.contains_key(key) ==> key == "CanQuit"@ || key == "CanSetFullscreen"@ || key
                    == "CanRaise"@ || key == "SupportedUriSchemes"@ || key
                    == "SupportedMimeTypes"@
        }),
        ({
            let player = player_permission_changes(before, after);
            &&& player.get("CanGoNext"@) == flag_change(before.can_go_next, after.can_go_next)
            &&& player.get("CanGoPrevious"@) == flag_change(
                before.can_go_previous,
                after.can_go_previous,
            )
            &&& player.get("CanPlay"@) == flag_change(before.can_play, after.can_play)
            &&& player.get("CanPause"@) == flag_change(before.can_pause, after.can_pause)
            &&& player.get("CanSeek"@) == flag_change(before.can_seek, after.can_seek)
            &&& player.get("CanControl"@) == flag_change(before.can_control, after.can_control)
            &&& player.get("MaximumRate"@) == double_change(before.max_rate, after.max_rate)
            &&& player.get("MinimumRate"@) == double_change(before.min_rate, after.min_rate)
            &&& forall|key: Seq<char>|
                player.contains_key(key) ==> key == "CanGoNext"@ || key == "CanGoPrevious"@ || key
                    == "CanPlay"@ || key == "CanPause"@ || key == "CanSeek"@ || key
                    == "CanControl"@ || key == "MaximumRate"@ || key == "MinimumRate"@
        }),
{
    lemma_permission_names_differ();
    let none = Map::<Seq<char>, ValueView>::empty();
    let a1 = with_entry(none, "CanQuit"@, flag_change(before.can_quit, after.can_quit));
    lemma_with_entry(none, "CanQuit"@, flag_change(before.can_quit, after.can_quit));
    let a2 = with_entry(
        a1,
        "CanSetFullscreen"@,
        flag_change(before.can_set_fullscreen, after.can_set_fullscreen),
    );
    lemma_with_entry(
        a1,
        "CanSetFullscreen"@,
        flag_change(before.can_set_fullscreen, after.can_set_fullscreen),
    );
    let a3 = with_entry(a2, "CanRaise"@, flag_change(before.can_raise, after.can_raise));
    lemma_with_entry(a2, "CanRaise"@, flag_change(before.can_raise, after.can_raise));
    let a4 = with_entry(
        a3,
        "SupportedUriSchemes"@,
        names_change(before.supported_uri_schemes, after.supported_uri_schemes),
    );
    lemma_with_entry(
        a3,
        "SupportedUriSchemes"@,
        names_change(before.supported_uri_schemes, after.supported_uri_schemes),
    );
    let a5 = with_entry(
        a4,
        "SupportedMimeTypes"@,
        names_change(before.supported_mime_types, after.supported_mime_types),
    );
    lemma_with_entry(
        a4,
        "SupportedMimeTypes"@,
        names_change(before.supported_mime_types, after.supported_mime_types),
    );
    assert forall|key: Seq<char>| a5.contains_key(key) implies key == "CanQuit"@ || key
        == "CanSetFullscreen"@ || key == "CanRaise"@ || key == "SupportedUriSchemes"@ || key
        == "SupportedMimeTypes"@ by {
        assert(a5.get(key) is Some);
    }
    let p1 = with_entry(none, "CanGoNext"@, flag_change(before.can_go_next, after.can_go_next));
    lemma_with_entry(none, "CanGoNext"@, flag_change(before.can_go_next, after.can_go_next));
    let p2 = with_entry(
        p1,
        "CanGoPrevious"@,
        flag_change(before.can_go_previous, after.can_go_previous),
    );
    lemma_with_entry(
        p1,
        "CanGoPrevious"@,
        flag_change(before.can_go_previous, after.can_go_previous),
    );
    let p3 = with_entry(p2, "CanPlay"@, flag_change(before.can_play, after.can_play));
    lemma_with_entry(p2, "CanPlay"@, flag_change(before.can_play, after.can_play));
    let p4 = with_entry(p3, "CanPause"@, flag_change(before.can_pause, after.can_pause));
    lemma_with_entry(p3, "CanPause"@, flag_change(before.can_pause, after.can_pause));
    let p5 = with_entry(p4, "CanSeek"@, flag_change(before.can_seek, after.can_seek));
    lemma_with_entry(p4, "CanSeek"@, flag_change(before.can_seek, after.can_seek));
    let p6 = with_entry(p5, "CanControl"@, flag_change(before.can_control, after.can_control));
    lemma_with_entry(p5, "CanControl"@, flag_change(before.can_control, after.can_control));
    let p7 = with_entry(p6, "MaximumRate"@, double_change(before.max_rate, after.max_rate));
    lemma_with_entry(p6, "MaximumRate"@, double_change(before.max_rate, after.max_rate));
    let p8 = with_entry(p7, "MinimumRate"@, double_change(before.min_rate, after.min_rate));
    lemma_with_entry(p7, "MinimumRate"@, double_change(before.min_rate, after.min_rate));
    assert(p8 == player_permission_changes(before, after));
    assert forall|key: Seq<char>| p8.contains_key(key) implies key == "CanGoNext"@ || key
        == "CanGoPrevious"@ || key == "CanPlay"@ || key == "CanPause"@ || key == "CanSeek"@ || key
        == "CanControl"@ || key == "MaximumRate"@ || key == "MinimumRate"@ by {
        assert(p8.get(key) is Some);
    }
}

/// What is reported of one property: under its name the change, where there
/// is one, and nothing else.
pub proof fn lemma_one_change(key: Seq<char>, change: Option<ValueView>)
    ensures
        one_change(key, change).get(key) == change,
        forall|other: Seq<char>| other != key ==> !one_change(key, change).contains_key(other),
        change is None <==> one_change(key, change) == Map::<Seq<char>, ValueView>::empty(),
{
    reveal(with_entry);
    if change is Some {
    }
}

} // verus!
