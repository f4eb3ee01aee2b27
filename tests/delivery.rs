use pitch_tutor::accumulator::SampleAccumulator;
use pitch_tutor::mailbox::{keeps_running, ControlPoll, Mailbox, TerminalMessage};

#[test]
fn latest_posted_value_wins() {
    let mut m = Mailbox::new();
    m.post("e1");
    m.post("e2");
    m.post("e3");
    assert_eq!(m.take(), Some("e3"));
    assert_eq!(m.take(), None);
    assert!(m.is_empty());
}

#[test]
fn empty_mailbox_yields_nothing() {
    let mut m: Mailbox<u32> = Mailbox::new();
    assert!(m.is_empty());
    assert_eq!(m.take(), None);
}

#[test]
fn quit_and_disconnect_stop_the_loop() {
    assert!(!keeps_running(ControlPoll::Received(TerminalMessage::Quit)));
    assert!(!keeps_running(ControlPoll::Disconnected));
    assert!(keeps_running(ControlPoll::Empty));
}

#[test]
fn window_is_handed_out_when_full() {
    let mut acc = SampleAccumulator::new(3);
    assert_eq!(acc.push(1), None);
    assert_eq!(acc.push(2), None);
    assert_eq!(acc.push(3), Some(vec![1, 2, 3]));
    assert_eq!(acc.push(4), None);
    assert_eq!(acc.window_size(), 3);
}

#[test]
fn window_of_one_is_handed_out_each_sample() {
    let mut acc = SampleAccumulator::new(1);
    assert_eq!(acc.push(7), Some(vec![7]));
    assert_eq!(acc.push(8), Some(vec![8]));
}

#[test]
fn first_channel_of_frames_is_accumulated() {
    let mut acc = SampleAccumulator::new(2);
    let windows = acc.push_frames(&[1, -1, 2, -2, 3, -3, 4, -4, 5, -5, 6], 2);
    assert_eq!(windows, vec![vec![1, 2], vec![3, 4]]);
    let windows = acc.push_frames(&[6, -6], 2);
    assert_eq!(windows, vec![vec![5, 6]]);
}

#[test]
fn float_samples_are_accumulated() {
    let mut acc = SampleAccumulator::new(2);
    let windows = acc.push_frames(&[0.5f32, 0.25, -0.5], 1);
    assert_eq!(windows, vec![vec![0.5f32, 0.25]]);
    assert_eq!(acc.push(0.75), Some(vec![-0.5f32, 0.75]));
}
