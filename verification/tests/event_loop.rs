use wlc::{io_ready, timer_fire, timer_interval_ms, EventSource, Registry, Timer, TimerCallback};

struct CountingTimer {
    fired: u32,
}

impl TimerCallback for CountingTimer {
    fn fire(&mut self) {
        self.fired += 1;
    }
}

struct CountingIo {
    events: Vec<u32>,
}

impl wlc::IoCallback<i32> for CountingIo {
    fn ready(&mut self, io: &mut i32, event: wlc::EventFlags) {
        *io += 1;
        self.events.push(event.bits());
    }
}

#[test]
fn timer_fires_only_while_registered() {
    let mut registry = Registry::new();
    let timer = Timer::register(&mut registry, 1);
    let handle = timer.handle();
    let token = timer.liveness_token();
    let mut callback = CountingTimer { fired: 0 };

    assert!(timer_fire(&registry, handle, token, &mut callback));
    assert_eq!(callback.fired, 1);

    timer.remove(&mut registry);
    assert!(!timer_fire(&registry, handle, token, &mut callback));
    assert_eq!(callback.fired, 1);
}

#[test]
fn io_events_are_delivered_only_while_registered() {
    let mut registry = Registry::new();
    let source = EventSource::register(&mut registry, 4);
    let handle = source.handle();
    let token = source.liveness_token();
    let mut callback = CountingIo { events: Vec::new() };
    let mut io: i32 = 0;

    assert!(io_ready(&registry, handle, token, &mut io, &mut callback, 0x1));
    assert_eq!(io, 1);
    assert_eq!(callback.events, vec![0x1]);

    source.remove(&mut registry);
    assert!(!io_ready(&registry, handle, token, &mut io, &mut callback, 0x1));
    assert_eq!(io, 1);
}

#[test]
fn timer_intervals_are_whole_milliseconds() {
    assert_eq!(timer_interval_ms(0, 0), 0);
    assert_eq!(timer_interval_ms(2, 500_000_000), 2500);
    assert_eq!(timer_interval_ms(0, 999_999), 0);
    assert_eq!(timer_interval_ms(0, 1_000_000), 1);
    assert_eq!(timer_interval_ms(u64::MAX, 0), i32::MAX);
    assert_eq!(timer_interval_ms(2_147_483, 647_000_000), i32::MAX);
}
