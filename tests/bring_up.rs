use indicator_panel::bringup::{BringUp, BringUpError, Command, Event, SETTLE_MS};

/// A simulated panel: a pin level, a clock and the commands seen.
struct Bench {
    clock_ms: u64,
    pin_high: bool,
    log: Vec<(Command, u64)>,
    fail_pin: bool,
    fail_init: bool,
    tick_ms: u32,
}

impl Bench {
    fn new(tick_ms: u32) -> Bench {
        Bench { clock_ms: 0, pin_high: false, log: Vec::new(), fail_pin: false, fail_init: false, tick_ms }
    }

    fn run(&mut self) -> Result<(), BringUpError> {
        let mut state = BringUp::start();
        for _ in 0..1000 {
            if let Some(result) = state.outcome() {
                return result;
            }
            let cmd = state.command();
            self.log.push((cmd, self.clock_ms));
            let event = match cmd {
                Command::SetEnable { high } => {
                    if self.fail_pin {
                        Event::Failed
                    } else {
                        self.pin_high = high;
                        Event::Done
                    }
                }
                Command::Wait { ms } => {
                    // The simulated delay advances in ticks, never more than asked.
                    let step = ms.min(self.tick_ms);
                    self.clock_ms += step as u64;
                    Event::Elapsed { ms: step }
                }
                Command::InitController => {
                    if self.fail_init {
                        Event::Failed
                    } else {
                        Event::Done
                    }
                }
                Command::Stop => unreachable!(),
            };
            state = state.next(event);
        }
        panic!("bring-up did not end");
    }
}

fn stage_times(log: &[(Command, u64)]) -> (u64, u64, u64) {
    let low = log.iter().find(|(c, _)| *c == Command::SetEnable { high: false }).unwrap().1;
    let high = log.iter().find(|(c, _)| *c == Command::SetEnable { high: true }).unwrap().1;
    let init = log.iter().find(|(c, _)| *c == Command::InitController).unwrap().1;
    (low, high, init)
}

#[test]
fn stages_run_in_order_with_full_delays() {
    let mut bench = Bench::new(SETTLE_MS);
    assert_eq!(bench.run(), Ok(()));
    assert_eq!(
        bench.log.iter().map(|(c, _)| *c).collect::<Vec<_>>(),
        vec![
            Command::SetEnable { high: false },
            Command::Wait { ms: 30 },
            Command::SetEnable { high: true },
            Command::Wait { ms: 30 },
            Command::InitController,
        ]
    );
    let (low, high, init) = stage_times(&bench.log);
    assert!(high - low >= 30);
    assert!(init - high >= 30);
    assert!(bench.pin_high);
}

#[test]
fn short_clock_ticks_are_accumulated() {
    let mut bench = Bench::new(7);
    assert_eq!(bench.run(), Ok(()));
    let (low, high, init) = stage_times(&bench.log);
    assert!(high - low >= 30);
    assert!(init - high >= 30);
    let waits: Vec<u32> = bench
        .log
        .iter()
        .filter_map(|(c, _)| match c {
            Command::Wait { ms } => Some(*ms),
            _ => None,
        })
        .collect();
    assert_eq!(waits, vec![30, 23, 16, 9, 2, 30, 23, 16, 9, 2]);
}

#[test]
fn controller_failure_leaves_panel_powered() {
    let mut bench = Bench::new(SETTLE_MS);
    bench.fail_init = true;
    assert_eq!(bench.run(), Err(BringUpError::ControllerInit));
    assert!(bench.pin_high);
    let failed = BringUp::ControllerInit.next(Event::Failed);
    assert_eq!(failed, BringUp::Failed { error: BringUpError::ControllerInit });
    assert!(failed.enable_high());
    assert_eq!(failed.command(), Command::Stop);
    assert_eq!(failed.next(Event::Done), failed);
}

#[test]
fn pin_failure_is_reported_as_such() {
    let mut bench = Bench::new(SETTLE_MS);
    bench.fail_pin = true;
    assert_eq!(bench.run(), Err(BringUpError::PinDrive));
    assert_eq!(bench.log.len(), 1);
    let failed = BringUp::EnableHigh.next(Event::Failed);
    assert_eq!(failed.outcome(), Some(Err(BringUpError::PinDrive)));
    assert!(!failed.enable_high());
}

#[test]
fn unrelated_events_do_not_advance() {
    let s = BringUp::Settle1 { waited_ms: 10 };
    assert_eq!(s.next(Event::Done), s);
    assert_eq!(s.next(Event::Failed), s);
    assert_eq!(s.next(Event::Elapsed { ms: 19 }), BringUp::Settle1 { waited_ms: 29 });
    assert_eq!(s.next(Event::Elapsed { ms: 20 }), BringUp::EnableHigh);
    assert_eq!(BringUp::EnableLow.next(Event::Elapsed { ms: 100 }), BringUp::EnableLow);
    assert_eq!(BringUp::Settle2 { waited_ms: 29 }.next(Event::Elapsed { ms: u32::MAX }), BringUp::ControllerInit);
    assert_eq!(BringUp::Settle2 { waited_ms: 40 }.command(), Command::Wait { ms: 0 });
    assert_eq!(BringUp::Ready.outcome(), Some(Ok(())));
    assert_eq!(BringUp::EnableLow.outcome(), None);
}
