use rnotify::dispatch::{Dispatcher, Event, Shown, Stage, Step};
use rnotify::request::NotificationRequest;

fn request(delay: u64) -> NotificationRequest {
    NotificationRequest {
        delay,
        title: "Title".to_string(),
        message: "Body".to_string(),
        icon: "dialog-information".to_string(),
    }
}

fn shown() -> Shown {
    Shown {
        summary: "Title".to_string(),
        body: "Body".to_string(),
        icon: "dialog-information".to_string(),
        appname: "rnotify".to_string(),
    }
}

#[test]
fn first_step_waits_the_delay() {
    let (d, s) = Dispatcher::start(request(42));
    assert_eq!(s, Step::Wait(42));
    assert_eq!(d.stage, Stage::Waiting);
    let (_, s) = Dispatcher::start(request(0));
    assert_eq!(s, Step::Wait(0));
}

#[test]
fn show_only_after_the_wait() {
    let (mut d, _) = Dispatcher::start(request(3));
    assert!(!d.accepts(&Event::Delivered));
    assert!(!d.accepts(&Event::DeliveryFailed("x".to_string())));
    assert!(d.accepts(&Event::WaitElapsed));
    assert_eq!(d.step(Event::WaitElapsed), Step::Show(shown()));
    assert_eq!(d.stage, Stage::Delivering);
    assert!(!d.accepts(&Event::WaitElapsed));
}

#[test]
fn finish_only_after_delivery() {
    let (mut d, _) = Dispatcher::start(request(0));
    d.step(Event::WaitElapsed);
    assert!(d.accepts(&Event::Delivered));
    assert_eq!(d.step(Event::Delivered), Step::Finish);
    assert_eq!(d.stage, Stage::Done);
    assert!(!d.accepts(&Event::Delivered));
    assert!(!d.accepts(&Event::WaitElapsed));
}

#[test]
fn failed_delivery_aborts_with_its_error() {
    let (mut d, _) = Dispatcher::start(request(1));
    d.step(Event::WaitElapsed);
    let s = d.step(Event::DeliveryFailed("no daemon".to_string()));
    assert_eq!(s, Step::Abort("no daemon".to_string()));
    assert_eq!(d.stage, Stage::Failed);
    assert!(!d.accepts(&Event::Delivered));
    assert!(!d.accepts(&Event::DeliveryFailed("again".to_string())));
}
