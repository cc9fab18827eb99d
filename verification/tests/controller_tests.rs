use track_requests::controller::TrackRequestController;
use track_requests::ids::{RequestId, UserId};

#[test]
fn startup_gives_each_found_request_one_task() {
    let a = (UserId(1), RequestId(0xa));
    let b = (UserId(2), RequestId(0xb));
    let (controller, to_spawn) = TrackRequestController::create(&vec![a, b]);
    assert_eq!(to_spawn, vec![a, b]);
    assert_eq!(controller.live_count(), 2);
    assert!(controller.is_live(&UserId(1), &RequestId(0xa)));
    assert!(controller.is_live(&UserId(2), &RequestId(0xb)));
    assert!(!controller.is_live(&UserId(1), &RequestId(0xb)));

    let (controller, to_spawn) = TrackRequestController::create(&vec![a, b, a, a, b]);
    assert_eq!(to_spawn, vec![a, b]);
    assert_eq!(controller.live_count(), 2);

    let (controller, to_spawn) = TrackRequestController::create(&vec![]);
    assert!(to_spawn.is_empty());
    assert_eq!(controller.live_count(), 0);
}

#[test]
fn no_second_task_while_one_is_live() {
    let (mut controller, _) = TrackRequestController::create(&vec![(UserId(1), RequestId(1))]);
    assert!(!controller.spawn_task(UserId(1), RequestId(1)));
    assert!(controller.spawn_task(UserId(1), RequestId(2)));
    assert!(controller.spawn_task(UserId(2), RequestId(1)));
    assert!(!controller.spawn_task(UserId(1), RequestId(2)));
    assert_eq!(controller.live_count(), 3);

    controller.task_ended(&UserId(1), &RequestId(1));
    assert!(!controller.is_live(&UserId(1), &RequestId(1)));
    assert!(controller.is_live(&UserId(1), &RequestId(2)));
    assert_eq!(controller.live_count(), 2);
    // A request whose task has ended may be taken up again.
    assert!(controller.spawn_task(UserId(1), RequestId(1)));

    // Ending what is not live changes nothing.
    controller.task_ended(&UserId(9), &RequestId(9));
    assert_eq!(controller.live_count(), 3);
}
