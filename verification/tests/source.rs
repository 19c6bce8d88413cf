use video_texture::geometry::Origin2;
use video_texture::source::{
    create_source, cross_origin_attribute, source_commands, CrossOriginPolicy,
    ExternalFrameHandle, FrameSourceDescriptor, MediaInitError, SourceCommand, SourceOptions,
    SourceSetup,
};

const URI: &str = "https://media.example/clip.mp4";

fn muted_loop() -> SourceOptions {
    SourceOptions { muted: true, looped: true, cross_origin: CrossOriginPolicy::Anonymous }
}

/// Plays the host: answers each command with the next scripted report, and
/// with success once the script has run out. Returns the commands it was handed.
fn drive(setup: &mut SourceSetup, script: &[bool]) -> Vec<SourceCommand> {
    let mut handed = Vec::new();
    let mut reports = script.iter();
    while let Some(command) = setup.next_command() {
        handed.push(command);
        setup.report(*reports.next().unwrap_or(&true));
    }
    handed
}

fn playing(uri: &str, options: SourceOptions) -> ExternalFrameHandle {
    let mut setup = SourceSetup::begin(options);
    drive(&mut setup, &[]);
    create_source(String::from(uri), &setup).expect("a playing setup gives a handle")
}

#[test]
fn muted_looping_source_plays_and_has_a_current_frame() {
    let options = SourceOptions {
        muted: true,
        looped: true,
        cross_origin: CrossOriginPolicy::Unset,
    };
    let mut setup = SourceSetup::begin(options);
    let handed = drive(&mut setup, &[true, true, true, true, true, true]);
    assert_eq!(handed.last(), Some(&SourceCommand::Play));
    assert!(setup.is_playing());
    assert_eq!(setup.failure(), None);
    let handle = create_source(String::from(URI), &setup).expect("play succeeded");
    assert_eq!(handle.uri(), URI);
    assert_eq!(handle.options(), options);
    let frame = handle.current_frame();
    assert_eq!(
        frame,
        FrameSourceDescriptor { source: &handle, origin: Origin2 { x: 0, y: 0 }, flip_y: false }
    );
    assert_eq!(frame.source.uri(), URI);
    assert_eq!(frame.source.options(), options);
}

#[test]
fn handle_keeps_uri_and_options() {
    let options = SourceOptions {
        muted: false,
        looped: true,
        cross_origin: CrossOriginPolicy::Anonymous,
    };
    let handle = playing("clip.webm", options);
    assert_eq!(handle.uri(), "clip.webm");
    assert!(!handle.options().muted);
    assert!(handle.options().looped);
    assert_eq!(handle.options().cross_origin, CrossOriginPolicy::Anonymous);
}

#[test]
fn setup_hands_out_the_plan_in_order() {
    let mut setup = SourceSetup::begin(muted_loop());
    let handed = drive(&mut setup, &[]);
    assert_eq!(handed, source_commands(muted_loop()));
    assert_eq!(setup.next_command(), None);
}

#[test]
fn setup_begins_with_the_element() {
    let setup = SourceSetup::begin(muted_loop());
    assert_eq!(setup.next_command(), Some(SourceCommand::CreateElement));
    assert!(!setup.is_playing());
    assert_eq!(setup.failure(), None);
}

#[test]
fn same_command_until_it_is_reported() {
    let mut setup = SourceSetup::begin(muted_loop());
    assert_eq!(setup.next_command(), setup.next_command());
    setup.report(true);
    assert_eq!(
        setup.next_command(),
        Some(SourceCommand::SetCrossOrigin(CrossOriginPolicy::Anonymous))
    );
    assert_eq!(setup.next_command(), setup.next_command());
}

#[test]
fn missing_element_is_a_construction_failure() {
    let mut setup = SourceSetup::begin(muted_loop());
    let handed = drive(&mut setup, &[false]);
    assert_eq!(handed, vec![SourceCommand::CreateElement]);
    assert_eq!(setup.failure(), Some(MediaInitError::ElementUnavailable));
    assert!(!setup.is_playing());
    assert_eq!(
        create_source(String::from(URI), &setup),
        Err(MediaInitError::ElementUnavailable)
    );
}

#[test]
fn rejected_playback_is_its_own_failure() {
    let mut setup = SourceSetup::begin(muted_loop());
    let handed = drive(&mut setup, &[true, true, true, true, true, false]);
    assert_eq!(handed.len(), 6);
    assert_eq!(handed[5], SourceCommand::Play);
    assert_eq!(setup.failure(), Some(MediaInitError::PlaybackRejected));
    assert!(!setup.is_playing());
    assert_eq!(create_source(String::from(URI), &setup), Err(MediaInitError::PlaybackRejected));
}

#[test]
fn failure_stops_the_plan() {
    let mut setup = SourceSetup::begin(muted_loop());
    let handed = drive(&mut setup, &[true, true, false]);
    assert_eq!(handed.len(), 3);
    assert_eq!(handed[2], SourceCommand::SetMuted(true));
    assert_eq!(setup.next_command(), None);
    assert_eq!(setup.failure(), Some(MediaInitError::PlaybackRejected));
    let mut later = SourceSetup::begin(muted_loop());
    drive(&mut later, &[true, true, false]);
    later.report(true);
    later.report(false);
    assert_eq!(later, setup);
}

#[test]
fn handle_exactly_when_every_command_succeeded() {
    for script in 0u32..64 {
        let reports: Vec<bool> = (0..6).map(|i| script & (1 << i) != 0).collect();
        let mut setup = SourceSetup::begin(muted_loop());
        for report in &reports {
            setup.report(*report);
        }
        let all = reports.iter().all(|ok| *ok);
        assert_eq!(setup.is_playing(), all);
        let result = create_source(String::from(URI), &setup);
        assert_eq!(result.is_ok(), all);
        if !all {
            let first_failure = reports.iter().position(|ok| !*ok).unwrap();
            let expected = if first_failure == 0 {
                MediaInitError::ElementUnavailable
            } else {
                MediaInitError::PlaybackRejected
            };
            assert_eq!(result, Err(expected));
            assert_eq!(setup.failure(), Some(expected));
        }
    }
}

#[test]
fn unfinished_setup_gives_no_handle() {
    let fresh = SourceSetup::begin(muted_loop());
    assert_eq!(create_source(String::from(URI), &fresh), Err(MediaInitError::ElementUnavailable));
    let mut halfway = SourceSetup::begin(muted_loop());
    halfway.report(true);
    halfway.report(true);
    halfway.report(true);
    assert_eq!(halfway.failure(), None);
    assert!(!halfway.is_playing());
    assert_eq!(
        create_source(String::from(URI), &halfway),
        Err(MediaInitError::PlaybackRejected)
    );
}

#[test]
fn reports_after_the_end_change_nothing() {
    let mut setup = SourceSetup::begin(muted_loop());
    drive(&mut setup, &[]);
    assert!(setup.is_playing());
    setup.report(false);
    setup.report(true);
    assert!(setup.is_playing());
    assert_eq!(setup.failure(), None);
    assert!(create_source(String::from(URI), &setup).is_ok());
}

#[test]
fn rejected_playback_can_be_tried_again() {
    let mut setup = SourceSetup::begin(muted_loop());
    drive(&mut setup, &[true, true, true, true, true, false]);
    assert!(setup.retry());
    assert_eq!(setup.failure(), None);
    assert_eq!(setup.next_command(), Some(SourceCommand::Play));
    setup.report(false);
    assert_eq!(setup.failure(), Some(MediaInitError::PlaybackRejected));
    assert!(setup.retry());
    setup.report(true);
    assert!(setup.is_playing());
    assert!(create_source(String::from(URI), &setup).is_ok());
}

#[test]
fn missing_element_cannot_be_tried_again() {
    let mut setup = SourceSetup::begin(muted_loop());
    drive(&mut setup, &[false]);
    assert!(!setup.retry());
    assert_eq!(setup.failure(), Some(MediaInitError::ElementUnavailable));
    assert_eq!(setup.next_command(), None);
}

#[test]
fn retry_without_a_failure_does_nothing() {
    let mut setup = SourceSetup::begin(muted_loop());
    assert!(!setup.retry());
    assert_eq!(setup.next_command(), Some(SourceCommand::CreateElement));
    drive(&mut setup, &[]);
    assert!(!setup.retry());
    assert!(setup.is_playing());
}

#[test]
fn only_rejected_playback_can_be_retried() {
    assert!(MediaInitError::PlaybackRejected.is_retryable());
    assert!(!MediaInitError::ElementUnavailable.is_retryable());
}

#[test]
fn plan_constructs_configures_sets_the_uri_and_plays() {
    let plan = source_commands(muted_loop());
    assert_eq!(
        plan,
        vec![
            SourceCommand::CreateElement,
            SourceCommand::SetCrossOrigin(CrossOriginPolicy::Anonymous),
            SourceCommand::SetMuted(true),
            SourceCommand::SetLooped(true),
            SourceCommand::SetSource,
            SourceCommand::Play,
        ]
    );
}

#[test]
fn plan_carries_each_option() {
    let options = SourceOptions {
        muted: false,
        looped: true,
        cross_origin: CrossOriginPolicy::Unset,
    };
    let plan = source_commands(options);
    assert_eq!(plan.len(), 6);
    assert_eq!(plan[1], SourceCommand::SetCrossOrigin(CrossOriginPolicy::Unset));
    assert_eq!(plan[2], SourceCommand::SetMuted(false));
    assert_eq!(plan[3], SourceCommand::SetLooped(true));
}

#[test]
fn plan_sets_policy_before_uri_and_mute_before_play() {
    for muted in [false, true] {
        for looped in [false, true] {
            for cross_origin in [CrossOriginPolicy::Unset, CrossOriginPolicy::Anonymous] {
                let plan = source_commands(SourceOptions { muted, looped, cross_origin });
                let at = |wanted: fn(&SourceCommand) -> bool| {
                    plan.iter().position(wanted).expect("the command is in the plan")
                };
                let policy = at(|c| matches!(c, SourceCommand::SetCrossOrigin(_)));
                let mute = at(|c| matches!(c, SourceCommand::SetMuted(_)));
                let source = at(|c| matches!(c, SourceCommand::SetSource));
                let play = at(|c| matches!(c, SourceCommand::Play));
                assert_eq!(plan[0], SourceCommand::CreateElement);
                assert!(policy < source);
                assert!(mute < play);
                assert!(source < play);
                assert_eq!(play, plan.len() - 1);
            }
        }
    }
}

#[test]
fn anonymous_policy_is_the_anonymous_attribute() {
    assert_eq!(cross_origin_attribute(CrossOriginPolicy::Anonymous), Some("anonymous"));
}

#[test]
fn unset_policy_leaves_the_attribute_out() {
    assert_eq!(cross_origin_attribute(CrossOriginPolicy::Unset), None);
}

#[test]
fn current_frame_starts_at_the_origin_of_the_gpu_types() {
    let handle = playing(URI, muted_loop());
    let frame = handle.current_frame();
    let zero = wgpu_types::Origin2d::ZERO;
    assert_eq!((frame.origin.x, frame.origin.y), (zero.x, zero.y));
    assert_eq!((frame.origin.x, frame.origin.y), (0, 0));
    assert!(!frame.flip_y);
}

#[test]
fn current_frame_is_the_same_on_every_call() {
    let handle = playing(URI, muted_loop());
    assert_eq!(handle.current_frame(), handle.current_frame());
}

#[test]
fn current_frame_names_the_source_it_reads() {
    let first = playing(URI, muted_loop());
    let second = playing("other.webm", muted_loop());
    let unmuted = playing(
        URI,
        SourceOptions { muted: false, looped: true, cross_origin: CrossOriginPolicy::Anonymous },
    );
    assert_eq!(first.current_frame().source, &first);
    assert_eq!(second.current_frame().source.uri(), "other.webm");
    assert!(!unmuted.current_frame().source.options().muted);
    assert_ne!(first.current_frame(), second.current_frame());
    assert_ne!(first.current_frame(), unmuted.current_frame());
    assert_eq!(first.current_frame().origin, second.current_frame().origin);
    assert_eq!(first.current_frame().flip_y, second.current_frame().flip_y);
}
