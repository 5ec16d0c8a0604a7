use netsim::bundle::InMemoryNetworkBundle;
use netsim::bundle::RegistrationError;
use netsim::bundle::SchedulerPlan;
use netsim::bundle::TaskName;
use netsim::bundle::TaskRegistration;
use netsim::events::EventChannel;
use netsim::events::NetworkSimulationEvent;
use netsim::message::Endpoint;
use netsim::metrics::MetricsBundle;

fn endpoint() -> Endpoint {
    Endpoint { host: 0x7f000001, port: 9 }
}

fn event(byte: u8) -> NetworkSimulationEvent {
    NetworkSimulationEvent::Message(endpoint(), bytes::Bytes::from(vec![byte]))
}

#[test]
fn readers_each_see_every_event_exactly_once() {
    let mut channel = EventChannel::new();
    let mut first = channel.register_reader();
    let mut second = channel.register_reader();

    channel.single_write(event(1));
    channel.single_write(event(2));

    let seen_first = channel.read(&mut first);
    assert_eq!(seen_first.len(), 2);
    assert_eq!(seen_first[0].payload_to_vec(), vec![1]);
    assert_eq!(seen_first[1].payload_to_vec(), vec![2]);

    // Its own cursor is spent; the other reader's is not.
    assert_eq!(channel.read(&mut first).len(), 0);
    let seen_second = channel.read(&mut second);
    assert_eq!(seen_second.len(), 2);
    assert_eq!(seen_second[0].payload_to_vec(), vec![1]);
}

#[test]
fn late_reader_sees_only_later_events() {
    let mut channel = EventChannel::new();
    channel.single_write(event(1));
    let mut late = channel.register_reader();
    channel.single_write(event(2));
    let seen = channel.read(&mut late);
    assert_eq!(seen.len(), 1);
    assert_eq!(seen[0].payload_to_vec(), vec![2]);
}

#[test]
fn bundle_build_registers_three_ordered_tasks() {
    let mut plan = SchedulerPlan::new();
    let socket = InMemoryNetworkBundle::new().build(&mut plan).unwrap();
    assert_eq!(socket.len(), 0);
    assert_eq!(plan.len(), 3);

    let tasks = plan.tasks();
    assert_eq!(tasks[0].name, TaskName::Send);
    assert!(tasks[0].dependencies.is_empty());
    assert_eq!(tasks[1].name, TaskName::Receive);
    assert_eq!(tasks[1].dependencies, vec![TaskName::Poll]);
    assert_eq!(tasks[2].name, TaskName::SimTimeUpdate);
    assert_eq!(tasks[2].dependencies, vec![TaskName::Receive]);
}

#[test]
fn task_names_are_unique_strings() {
    let names = [
        TaskName::Poll,
        TaskName::Send,
        TaskName::Receive,
        TaskName::SimTimeUpdate,
    ];
    assert_eq!(TaskName::Send.as_str(), "network_send");
    assert_eq!(TaskName::Receive.as_str(), "network_recv");
    assert_eq!(TaskName::Poll.as_str(), "network_poll");
    assert_eq!(TaskName::SimTimeUpdate.as_str(), "network_sim_time");
    for a in names {
        for b in names {
            if a != b {
                assert_ne!(a.as_str(), b.as_str());
            }
        }
    }
}

#[test]
fn duplicate_task_registration_is_an_error() {
    let mut plan = SchedulerPlan::new();
    plan.add(TaskRegistration { name: TaskName::Send, dependencies: Vec::new() }).unwrap();
    let r = InMemoryNetworkBundle::new().build(&mut plan);
    match r {
        Err(RegistrationError::DuplicateTask(name)) => assert_eq!(name, TaskName::Send),
        Ok(_) => panic!("a duplicate registration must not be ignored"),
    }
    // Nothing beyond the colliding task was registered.
    assert_eq!(plan.len(), 1);
}

#[test]
fn duplicate_add_leaves_plan_unchanged() {
    let mut plan = SchedulerPlan::new();
    plan.add(TaskRegistration { name: TaskName::Poll, dependencies: Vec::new() }).unwrap();
    let r = plan.add(TaskRegistration { name: TaskName::Poll, dependencies: Vec::new() });
    assert_eq!(r, Err(RegistrationError::DuplicateTask(TaskName::Poll)));
    assert_eq!(plan.len(), 1);
}

#[test]
fn metrics_bundle_registers_nothing() {
    let mut plan = SchedulerPlan::new();
    let quiet = MetricsBundle::new();
    assert!(!quiet.metrics_requested());
    quiet.build(&mut plan).unwrap();
    assert_eq!(plan.len(), 0);

    let asked = MetricsBundle::whit_metrics();
    assert!(asked.metrics_requested());
    asked.build(&mut plan).unwrap();
    assert_eq!(plan.len(), 0);
}
