use ecospeaker::actor::mailbox::Mailbox;
use ecospeaker::actor::run_loop::{Actor, Step};
use ecospeaker::tasks::{dispatcher, system, ui};

#[test]
fn mailbox_takes_as_many_messages_as_it_has_room_for() {
    let mut mailbox: Mailbox<u32, 3> = Mailbox::new();
    assert_eq!(mailbox.capacity(), 3);
    assert!(mailbox.is_empty());
    assert_eq!(mailbox.try_send(10), Ok(()));
    assert_eq!(mailbox.try_send(11), Ok(()));
    assert!(!mailbox.is_full());
    assert_eq!(mailbox.try_send(12), Ok(()));
    assert!(mailbox.is_full());
    assert_eq!(mailbox.len(), 3);
}

#[test]
fn full_mailbox_refuses_until_a_message_is_taken() {
    let mut mailbox: Mailbox<u32, 2> = Mailbox::new();
    assert_eq!(mailbox.try_send(1), Ok(()));
    assert_eq!(mailbox.try_send(2), Ok(()));
    assert_eq!(mailbox.try_send(3), Err(3));
    assert_eq!(mailbox.try_send(3), Err(3));
    assert_eq!(mailbox.len(), 2);
    assert_eq!(mailbox.try_receive(), Some(1));
    assert_eq!(mailbox.try_send(3), Ok(()));
    assert_eq!(mailbox.try_receive(), Some(2));
    assert_eq!(mailbox.try_receive(), Some(3));
    assert_eq!(mailbox.try_receive(), None);
}

#[test]
fn mailbox_without_room_refuses_everything() {
    let mut mailbox: Mailbox<u8, 0> = Mailbox::new();
    assert!(mailbox.is_full());
    assert_eq!(mailbox.try_send(7), Err(7));
    assert_eq!(mailbox.try_receive(), None);
}

#[test]
fn mailbox_hands_messages_out_in_the_order_sent() {
    let mut mailbox: Mailbox<&'static str, 4> = Mailbox::new();
    for word in ["a", "b", "c", "d"] {
        assert_eq!(mailbox.try_send(word), Ok(()));
    }
    let mut taken = Vec::new();
    while let Some(word) = mailbox.try_receive() {
        taken.push(word);
    }
    assert_eq!(taken, vec!["a", "b", "c", "d"]);
}

#[test]
fn run_loop_initializes_first_even_when_messages_wait() {
    let mut actor: Actor<u32, 4, 1000> = Actor::new();
    assert_eq!(actor.try_send(5), Ok(()));
    assert_eq!(actor.run(0), Step::Init);
    assert_eq!(actor.run(0), Step::Message(5));
    assert_eq!(actor.run(0), Step::Wait(1000));
}

#[test]
fn run_loop_delivers_messages_in_order_before_it_idles() {
    let mut actor: Actor<u32, 4, 1000> = Actor::new();
    assert_eq!(actor.run(0), Step::Init);
    assert_eq!(actor.try_send(1), Ok(()));
    assert_eq!(actor.try_send(2), Ok(()));
    assert_eq!(actor.try_send(3), Ok(()));
    assert_eq!(actor.pending(), 3);
    assert_eq!(actor.run(5000), Step::Message(1));
    assert_eq!(actor.run(9000), Step::Message(2));
    assert_eq!(actor.run(9000), Step::Message(3));
    assert_eq!(actor.pending(), 0);
    assert_eq!(actor.run(9000), Step::Wait(1000));
}

#[test]
fn run_loop_idles_once_per_timeout_while_nothing_arrives() {
    let mut actor: Actor<u32, 4, 1000> = Actor::new();
    assert_eq!(actor.run(100), Step::Init);
    let mut now = 100;
    for _ in 0..50 {
        assert_eq!(actor.run(now), Step::Wait(1000));
        assert_eq!(actor.run(now + 400), Step::Wait(600));
        assert_eq!(actor.run(now + 999), Step::Wait(1));
        now += 1000;
        assert_eq!(actor.run(now), Step::Idle);
    }
    assert_eq!(now, 50_100);
}

#[test]
fn idle_timeout_starts_anew_after_every_callback() {
    let mut actor: Actor<u32, 4, 1000> = Actor::new();
    assert_eq!(actor.run(0), Step::Init);
    assert_eq!(actor.run(0), Step::Wait(1000));
    assert_eq!(actor.run(900), Step::Wait(100));
    assert_eq!(actor.try_send(9), Ok(()));
    assert_eq!(actor.run(950), Step::Message(9));
    // The callback took until 980; the timeout counts from there.
    assert_eq!(actor.run(980), Step::Wait(1000));
    assert_eq!(actor.run(1979), Step::Wait(1));
    assert_eq!(actor.run(1980), Step::Idle);
    assert_eq!(actor.run(2500), Step::Wait(1000));
    assert_eq!(actor.run(3600), Step::Idle);
}

#[test]
fn message_that_waits_wins_against_an_expired_timeout() {
    let mut actor: Actor<u32, 4, 1000> = Actor::new();
    assert_eq!(actor.run(0), Step::Init);
    assert_eq!(actor.run(0), Step::Wait(1000));
    assert_eq!(actor.try_send(1), Ok(()));
    assert_eq!(actor.run(5000), Step::Message(1));
}

#[test]
fn run_loop_measures_the_timeout_across_a_wrap_of_the_clock() {
    let mut actor: Actor<u32, 4, 1000> = Actor::new();
    let start = u64::MAX - 299;
    assert_eq!(actor.run(start), Step::Init);
    assert_eq!(actor.run(start), Step::Wait(1000));
    assert_eq!(actor.run(u64::MAX), Step::Wait(701));
    assert_eq!(actor.run(0), Step::Wait(700));
    assert_eq!(actor.run(699), Step::Wait(1));
    assert_eq!(actor.run(700), Step::Idle);
}

#[test]
fn zero_idle_timeout_idles_whenever_nothing_waits() {
    let mut actor: Actor<u32, 2, 0> = Actor::new();
    assert_eq!(actor.run(0), Step::Init);
    assert_eq!(actor.run(0), Step::Idle);
    assert_eq!(actor.try_send(1), Ok(()));
    assert_eq!(actor.run(0), Step::Message(1));
    assert_eq!(actor.run(0), Step::Idle);
}

#[test]
fn actor_mailbox_pushes_back_when_full() {
    let mut actor: Actor<system::Message, { system::QUEUE_SIZE }, { system::IDLE_TIMEOUT_MS }> =
        Actor::new();
    assert_eq!(actor.try_send(system::Message::PowerOn), Ok(()));
    assert_eq!(actor.try_send(system::Message::PowerOff), Ok(()));
    assert_eq!(actor.try_send(system::Message::PowerOn), Ok(()));
    assert_eq!(actor.try_send(system::Message::PowerOff), Err(system::Message::PowerOff));
    assert_eq!(actor.run(0), Step::Init);
    assert_eq!(actor.run(0), Step::Message(system::Message::PowerOn));
    assert_eq!(actor.try_send(system::Message::PowerOff), Ok(()));
    assert_eq!(actor.pending(), 3);
}

#[test]
fn queue_sizes_and_idle_timeouts_of_the_actors() {
    assert_eq!(dispatcher::QUEUE_SIZE, 10);
    assert_eq!(dispatcher::IDLE_TIMEOUT_MS, 1000);
    assert_eq!(system::QUEUE_SIZE, 3);
    assert_eq!(system::IDLE_TIMEOUT_MS, 1000);
    assert_eq!(ui::POLL_INTERVAL_MS, 30);
}

#[test]
fn dispatcher_passes_system_messages_on_to_the_user_interface() {
    assert_eq!(dispatcher::on_system_message(system::Message::PowerOn), ui::Message::PowerOn);
    assert_eq!(dispatcher::on_system_message(system::Message::PowerOff), ui::Message::PowerOff);
    assert_eq!(
        dispatcher::on_message_received(dispatcher::Message::System(system::Message::PowerOn)),
        Some(ui::Message::PowerOn)
    );
    assert_eq!(
        dispatcher::on_message_received(dispatcher::Message::System(system::Message::PowerOff)),
        Some(ui::Message::PowerOff)
    );
}

#[test]
fn dispatcher_keeps_user_interface_messages() {
    assert_eq!(dispatcher::on_message_received(dispatcher::Message::Ui(ui::Message::PowerOn)), None);
    assert_eq!(dispatcher::on_message_received(dispatcher::Message::Ui(ui::Message::PowerOff)), None);
}
