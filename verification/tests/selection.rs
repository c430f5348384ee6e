use spacegame2d::command::{
    AuthoritativeCommand, CommandData, CommandRejected, CommandRejectionReason, CommandRequest,
};
use spacegame2d::presentation::{DestinationMarker, DestinationPresentation, MarkerStatus};
use spacegame2d::selection::{id_set, Client, ClientControl, ClientEffect};
use spacegame2d::tick::Tick;

fn bits(x: f32, y: f32) -> [u32; 2] {
    [x.to_bits(), y.to_bits()]
}

#[test]
fn destination_presentation_tracks_confirmation_rejection_and_reset() {
    let now = 50_000;
    let mut presentation = DestinationPresentation::new();
    presentation.begin(4, bits(2.0, 3.0));
    assert_eq!(presentation.markers(&[])[0].status, MarkerStatus::Pending);
    let command = AuthoritativeCommand {
        execute_tick: Tick::new(2),
        player_slot: 1,
        sequence: 4,
        command: CommandData::SetDestination { destination: bits(2.0, 3.0), target_unit_ids: vec![] },
    };
    presentation.authoritative(1, &command);
    assert_eq!(presentation.markers(&[false])[0].status, MarkerStatus::Confirmed);
    presentation.begin(5, bits(40.0, 0.0));
    presentation.rejected(
        &CommandRejected { sequence: 5, reason: CommandRejectionReason::DestinationOutsideArena },
        now,
    );
    assert_eq!(presentation.markers(&[false])[0].status, MarkerStatus::Confirmed);
    assert!(presentation.rejection_text(now).is_some());
    presentation.authoritative(
        1,
        &AuthoritativeCommand {
            execute_tick: Tick::new(3),
            player_slot: 1,
            sequence: 6,
            command: CommandData::ResetSimulation,
        },
    );
    assert!(presentation.markers(&[]).is_empty());
    assert!(presentation.rejection_text(now).is_none());
}

#[test]
fn other_players_destinations_are_not_confirmed() {
    let mut presentation = DestinationPresentation::new();
    presentation.begin(7, bits(1.0, 1.0));
    presentation.authoritative(
        1,
        &AuthoritativeCommand {
            execute_tick: Tick::new(2),
            player_slot: 2,
            sequence: 7,
            command: CommandData::SetDestination { destination: bits(5.0, 5.0), target_unit_ids: vec![] },
        },
    );
    assert_eq!(
        presentation.markers(&[]),
        vec![DestinationMarker { position: bits(1.0, 1.0), status: MarkerStatus::Pending }]
    );
}

#[test]
fn confirmed_marker_lives_until_its_route_ends() {
    let mut presentation = DestinationPresentation::new();
    for (sequence, x) in [(1u32, 1.0f32), (2, 2.0)] {
        presentation.begin(sequence, bits(x, 0.0));
        presentation.authoritative(
            1,
            &AuthoritativeCommand {
                execute_tick: Tick::new(2),
                player_slot: 1,
                sequence,
                command: CommandData::SetDestination { destination: bits(x, 0.0), target_unit_ids: vec![] },
            },
        );
    }
    // Not routing yet: both stay.
    assert_eq!(presentation.markers(&[false, false]).len(), 2);
    // The first starts routing, then stops: it is dropped.
    assert_eq!(presentation.markers(&[true, false]).len(), 2);
    let markers = presentation.markers(&[false, false]);
    assert_eq!(
        markers,
        vec![DestinationMarker { position: bits(2.0, 0.0), status: MarkerStatus::Confirmed }]
    );
}

#[test]
fn rejection_text_expires() {
    let mut presentation = DestinationPresentation::new();
    presentation.rejected(
        &CommandRejected { sequence: 1, reason: CommandRejectionReason::InvalidCommand },
        100,
    );
    assert_eq!(presentation.rejection_text(2099), Some("Command rejected: invalid command"));
    assert_eq!(presentation.rejection_text(2100), None);
    presentation.rejected(
        &CommandRejected { sequence: 1, reason: CommandRejectionReason::InvalidPlayer },
        100,
    );
    presentation.begin(2, bits(0.0, 0.0));
    assert_eq!(presentation.rejection_text(101), None);
}

#[test]
fn id_sets_are_sorted_without_repeats() {
    assert_eq!(id_set(&[5, 3, 9, 3, 1, 9]), vec![1, 3, 5, 9]);
    assert!(id_set(&[]).is_empty());
}

#[test]
fn drag_selection_replaces_committed_selection_and_captures_sorted_ids() {
    let mut client = Client::new();
    client.handle(ClientControl::ClickSelect { picked: Some(40) });
    client.handle(ClientControl::DragSelect { covered: vec![12, 3, 7] });
    assert_eq!(client.selected(), &[40]);
    client.handle(ClientControl::CommitDrag);
    assert_eq!(client.selected(), &[3, 7, 12]);
    assert!(client.preview().is_empty());
    let effect = client.handle(ClientControl::SetDestination { destination: bits(1.0, 0.0) });
    let Some(ClientEffect::Send(request)) = effect else {
        panic!("expected command")
    };
    let CommandData::SetDestination { destination, target_unit_ids } = request.command else {
        panic!("expected destination")
    };
    assert_eq!(request.sequence, 1);
    assert_eq!(destination, bits(1.0, 0.0));
    assert_eq!(target_unit_ids, vec![3, 7, 12]);
    assert!(target_unit_ids.windows(2).all(|pair| pair[0] < pair[1]));
    let effect = client.handle(ClientControl::SetDestination { destination: bits(2.0, 0.0) });
    assert!(matches!(effect, Some(ClientEffect::Send(CommandRequest { sequence: 2, .. }))));
}

#[test]
fn cancellation_preserves_committed_selection() {
    let mut client = Client::new();
    client.handle(ClientControl::ClickSelect { picked: Some(4) });
    client.handle(ClientControl::DragSelect { covered: vec![4, 5] });
    client.handle(ClientControl::CancelDrag);
    assert_eq!(client.selected(), &[4]);
    assert!(client.preview().is_empty());
}

#[test]
fn no_command_while_dragging_or_without_selection() {
    let mut client = Client::new();
    assert_eq!(client.handle(ClientControl::SetDestination { destination: bits(0.0, 0.0) }), None);
    client.handle(ClientControl::ClickSelect { picked: Some(1) });
    client.handle(ClientControl::DragSelect { covered: vec![] });
    assert_eq!(client.handle(ClientControl::SetDestination { destination: bits(0.0, 0.0) }), None);
    client.handle(ClientControl::ClearSelection);
    assert_eq!(client.selected(), &[1]);
    client.handle(ClientControl::CancelDrag);
    client.handle(ClientControl::ClearSelection);
    assert!(client.selected().is_empty());
    client.handle(ClientControl::ClickSelect { picked: None });
    assert!(client.selected().is_empty());
}

#[test]
fn selection_follows_ownership_as_the_world_advances() {
    let mut client = Client::new();
    client.handle(ClientControl::DragSelect { covered: vec![1, 2, 3] });
    client.handle(ClientControl::CommitDrag);
    client.world_advanced(&[3, 1, 8], &[9]);
    assert_eq!(client.selected(), &[1, 3]);
    assert!(client.preview().is_empty());
    client.handle(ClientControl::DragSelect { covered: vec![1] });
    client.world_advanced(&[1, 3], &[3, 2]);
    assert_eq!(client.preview(), &[2, 3]);
}
