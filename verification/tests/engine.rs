use stack_tail::follow::Outcome;
use stack_tail::follow::Plan;
use stack_tail::follow::State;
use stack_tail::record::ResourceState;
use stack_tail::record::STACK_RESOURCE;
use stack_tail::source::Error;
use stack_tail::source::Source;
use stack_tail::timestamp::Timestamp;

fn state(resource_type: &str, status: &str) -> ResourceState {
    ResourceState {
        resource_type: resource_type.into(),
        timestamp: Timestamp::parse("1996-12-19T16:39:57-08:00").unwrap(),
        status: status.into(),
        resource_id: "foobar".into(),
        reason: "...".into(),
    }
}

/// Runs the engine over the fetches that would succeed, in turn, and returns
/// each tick as the number of rows to erase and the statuses drawn, with the
/// number of waits planned and the state the run ended in.
fn run(
    source: Source,
    follow: bool,
    feed: Vec<Vec<ResourceState>>,
) -> (Vec<(usize, Vec<String>)>, usize, State) {
    let mut ticks = Vec::new();
    let mut waits = 0;
    let mut current = State::Init(follow);
    for batch in feed {
        match current.plan() {
            Plan::Stop => break,
            Plan::Fetch => {}
            Plan::WaitThenFetch(secs) => {
                assert_eq!(secs, 1);
                waits += 1;
            }
        }
        match current.step(source, Some(batch)) {
            Outcome::Tick(prev_len, states, next) => {
                ticks.push((prev_len, states.into_iter().map(|s| s.status).collect()));
                current = next;
            }
            other => panic!("no tick: {:?}", other),
        }
    }
    (ticks, waits, current)
}

#[test]
fn single_shot_resources_emit_one_tick() {
    let settled = vec![
        state("AWS::S3::Bucket", "CREATE_COMPLETE"),
        state("AWS::SQS::Queue", "CREATE_FAILED"),
    ];
    let later = vec![state("AWS::S3::Bucket", "DELETE_COMPLETE")];
    let (ticks, waits, end) = run(Source::Resources, false, vec![settled, later]);
    assert_eq!(
        ticks,
        vec![(0, vec!["CREATE_COMPLETE".to_string(), "CREATE_FAILED".to_string()])]
    );
    assert_eq!(waits, 0);
    assert_eq!(end, State::Next(false, 2));
    assert!(end.complete());
}

#[test]
fn single_shot_stops_whatever_the_batch_holds() {
    for source in [Source::Events, Source::Resources] {
        let unsettled = vec![state(STACK_RESOURCE, "UPDATE_IN_PROGRESS")];
        let later = vec![state(STACK_RESOURCE, "UPDATE_COMPLETE")];
        let (ticks, waits, end) = run(source, false, vec![unsettled, later]);
        assert_eq!(ticks, vec![(0, vec!["UPDATE_IN_PROGRESS".to_string()])]);
        assert_eq!(waits, 0);
        assert_eq!(end, State::Next(false, 1));
    }
}

#[test]
fn followed_events_emit_until_the_stack_is_terminal() {
    let first = vec![state(STACK_RESOURCE, "UPDATE_IN_PROGRESS")];
    let second = vec![
        state(STACK_RESOURCE, "UPDATE_IN_PROGRESS"),
        state("AWS::S3::Bucket", "UPDATE_COMPLETE"),
        state(STACK_RESOURCE, "UPDATE_COMPLETE_CLEANUP_IN_PROGRESS"),
    ];
    let third = vec![
        state(STACK_RESOURCE, "UPDATE_IN_PROGRESS"),
        state("AWS::S3::Bucket", "UPDATE_COMPLETE"),
        state(STACK_RESOURCE, "UPDATE_COMPLETE_CLEANUP_IN_PROGRESS"),
        state(STACK_RESOURCE, "UPDATE_COMPLETE"),
    ];
    let never = vec![state(STACK_RESOURCE, "DELETE_IN_PROGRESS")];
    let (ticks, waits, end) = run(Source::Events, true, vec![first, second, third, never]);
    assert_eq!(ticks.len(), 3);
    assert_eq!(ticks[0].0, 0);
    assert_eq!(ticks[1].0, 1);
    assert_eq!(ticks[2].0, 3);
    assert_eq!(ticks[2].1.len(), 4);
    assert_eq!(ticks[2].1[3], "UPDATE_COMPLETE");
    assert_eq!(waits, 2);
    assert_eq!(end, State::Next(false, 4));
}

#[test]
fn followed_resources_emit_until_all_are_terminal() {
    let first = vec![
        state("AWS::S3::Bucket", "CREATE_IN_PROGRESS"),
        state("AWS::SQS::Queue", "CREATE_COMPLETE"),
    ];
    let second = vec![
        state("AWS::S3::Bucket", "CREATE_COMPLETE"),
        state("AWS::SQS::Queue", "CREATE_COMPLETE"),
    ];
    let never = vec![state("AWS::S3::Bucket", "DELETE_IN_PROGRESS")];
    let (ticks, waits, end) = run(Source::Resources, true, vec![first, second, never]);
    assert_eq!(
        ticks,
        vec![
            (0, vec!["CREATE_IN_PROGRESS".to_string(), "CREATE_COMPLETE".to_string()]),
            (2, vec!["CREATE_COMPLETE".to_string(), "CREATE_COMPLETE".to_string()]),
        ]
    );
    assert_eq!(waits, 1);
    assert_eq!(end, State::Next(false, 2));
}

#[test]
fn following_goes_on_while_nothing_settles() {
    let feed: Vec<Vec<ResourceState>> = (0..5)
        .map(|n| (0..n).map(|_| state("AWS::S3::Bucket", "CREATE_IN_PROGRESS")).collect())
        .collect();
    let (ticks, waits, end) = run(Source::Events, true, feed);
    let lens: Vec<usize> = ticks.iter().map(|t| t.0).collect();
    assert_eq!(lens, vec![0, 0, 1, 2, 3]);
    assert_eq!(waits, 4);
    assert_eq!(end, State::Next(true, 4));
    assert_eq!(end.plan(), Plan::WaitThenFetch(1));
}

#[test]
fn a_complete_state_emits_nothing() {
    let batch = vec![state(STACK_RESOURCE, "UPDATE_IN_PROGRESS")];
    for source in [Source::Events, Source::Resources] {
        assert!(matches!(
            State::Next(false, 3).step(source, Some(batch.clone())),
            Outcome::Finished
        ));
        assert!(matches!(State::Next(false, 0).step(source, None), Outcome::Finished));
    }
}

#[test]
fn a_failed_fetch_ends_the_run_with_its_error() {
    for start in [State::Init(true), State::Init(false), State::Next(true, 5)] {
        assert!(matches!(start.step(Source::Events, None), Outcome::Failed(Error::Events)));
        assert!(matches!(
            start.step(Source::Resources, None),
            Outcome::Failed(Error::Resources)
        ));
    }
}

#[test]
fn a_tick_hands_the_batch_on_unchanged() {
    let batch = vec![
        state("AWS::S3::Bucket", "CREATE_IN_PROGRESS"),
        state(STACK_RESOURCE, "CREATE_IN_PROGRESS"),
    ];
    match State::Next(true, 9).step(Source::Events, Some(batch)) {
        Outcome::Tick(prev_len, states, next) => {
            assert_eq!(prev_len, 9);
            assert_eq!(states.len(), 2);
            assert_eq!(states[0].resource_type, "AWS::S3::Bucket");
            assert_eq!(states[1].resource_type, STACK_RESOURCE);
            assert_eq!(states[1].timestamp.secs(), 851042397);
            assert_eq!(next, State::Next(true, 2));
        }
        other => panic!("no tick: {:?}", other),
    }
}
