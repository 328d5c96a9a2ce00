use lxid::dispatch::{
    dispatch_all, dispatch_one, exit_status, Category, DispatchOutcome, DispatchStep, Handler,
    Interaction, Payload, Register,
};
use lxid::ukey::{Key, UKey};
use std::cell::RefCell;
use std::rc::Rc;

type Motion = (f64, f64);
type Log = Rc<RefCell<Vec<(&'static str, Payload<Motion>)>>>;

struct Recorder {
    log: Log,
    tag: &'static str,
    fail_on: Option<u16>,
}

impl Handler<Motion> for Recorder {
    fn invoke(&self, payload: Payload<Motion>) -> Result<(), String> {
        self.log.borrow_mut().push((self.tag, payload));
        if let (Some(bad), Payload::Code(code)) = (self.fail_on, payload) {
            if bad == code {
                return Err(format!("scripted failure on {code:#06x}"));
            }
        }
        Ok(())
    }
}

fn full_register(log: &Log, fail_on: Option<u16>) -> Register<Recorder> {
    let slot = |tag| {
        Some(Recorder {
            log: Rc::clone(log),
            tag,
            fail_on,
        })
    };
    Register {
        keydown: slot("keydown"),
        keyup: slot("keyup"),
        mousepress: slot("mousepress"),
        mouserelease: slot("mouserelease"),
        mousemove: slot("mousemove"),
    }
}

#[test]
fn new_register_has_no_handlers() {
    let reg: Register<Recorder> = Register::new();
    assert!(reg.keydown.is_none());
    assert!(reg.keyup.is_none());
    assert!(reg.mousepress.is_none());
    assert!(reg.mouserelease.is_none());
    assert!(reg.mousemove.is_none());
}

#[test]
fn missing_handler_is_a_noop_and_dispatch_continues() {
    let log: Log = Rc::new(RefCell::new(Vec::new()));
    let mut reg = Register::new();
    reg.keydown = Some(Recorder {
        log: Rc::clone(&log),
        tag: "keydown",
        fail_on: None,
    });

    let step = dispatch_one(&reg, &Interaction::MousePress(0x4001));
    assert!(matches!(step, DispatchStep::Skipped));
    assert!(log.borrow().is_empty());

    let events = vec![
        Interaction::MousePress(0x4001),
        Interaction::Keydown(0x0041),
    ];
    let (invocations, consumed, outcome) = dispatch_all(&reg, &events);
    assert_eq!(outcome, DispatchOutcome::Completed);
    assert_eq!(consumed, 2);
    assert_eq!(
        invocations,
        vec![(Category::Keydown, Payload::Code(0x0041))]
    );
    assert_eq!(
        *log.borrow(),
        vec![("keydown", Payload::Code(0x0041))]
    );
}

#[test]
fn registered_handler_receives_the_sentinel_code() {
    let log: Log = Rc::new(RefCell::new(Vec::new()));
    let mut reg = Register::new();
    reg.keydown = Some(Recorder {
        log: Rc::clone(&log),
        tag: "keydown",
        fail_on: None,
    });

    let step = dispatch_one(&reg, &Interaction::Keydown(0x0000));
    assert!(matches!(step, DispatchStep::Delivered(Payload::Code(0))));
    assert_eq!(*log.borrow(), vec![("keydown", Payload::Code(0x0000))]);
}

#[test]
fn events_are_delivered_in_arrival_order() {
    let log: Log = Rc::new(RefCell::new(Vec::new()));
    let reg = full_register(&log, None);

    let events = vec![
        Interaction::Keydown(0x0041),
        Interaction::MouseMove((3.5, -1.25)),
        Interaction::MousePress(0x4001),
        Interaction::Keyup(0x0041),
        Interaction::MouseRelease(0x4001),
        Interaction::Keydown(0xf001),
    ];
    let (invocations, consumed, outcome) = dispatch_all(&reg, &events);
    assert_eq!(outcome, DispatchOutcome::Completed);
    assert_eq!(consumed, 6);
    assert_eq!(
        invocations,
        vec![
            (Category::Keydown, Payload::Code(0x0041)),
            (Category::Mousemove, Payload::Motion((3.5, -1.25))),
            (Category::Mousepress, Payload::Code(0x4001)),
            (Category::Keyup, Payload::Code(0x0041)),
            (Category::Mouserelease, Payload::Code(0x4001)),
            (Category::Keydown, Payload::Code(0xf001)),
        ]
    );
    assert_eq!(
        *log.borrow(),
        vec![
            ("keydown", Payload::Code(0x0041)),
            ("mousemove", Payload::Motion((3.5, -1.25))),
            ("mousepress", Payload::Code(0x4001)),
            ("keyup", Payload::Code(0x0041)),
            ("mouserelease", Payload::Code(0x4001)),
            ("keydown", Payload::Code(0xf001)),
        ]
    );
}

#[test]
fn unhandled_categories_are_filtered_but_order_is_kept() {
    let log: Log = Rc::new(RefCell::new(Vec::new()));
    let mut reg = Register::new();
    reg.keydown = Some(Recorder {
        log: Rc::clone(&log),
        tag: "keydown",
        fail_on: None,
    });
    reg.mousepress = Some(Recorder {
        log: Rc::clone(&log),
        tag: "mousepress",
        fail_on: None,
    });

    let events = vec![
        Interaction::Keydown(1),
        Interaction::Keyup(1),
        Interaction::MousePress(0x4002),
        Interaction::MouseMove((0.0, 0.0)),
        Interaction::Keydown(2),
    ];
    let (invocations, consumed, outcome) = dispatch_all(&reg, &events);
    assert_eq!(outcome, DispatchOutcome::Completed);
    assert_eq!(consumed, 5);
    assert_eq!(
        invocations,
        vec![
            (Category::Keydown, Payload::Code(1)),
            (Category::Mousepress, Payload::Code(0x4002)),
            (Category::Keydown, Payload::Code(2)),
        ]
    );
}

#[test]
fn failing_handler_is_fatal_and_stops_dispatch() {
    let log: Log = Rc::new(RefCell::new(Vec::new()));
    let reg = full_register(&log, Some(0x4001));

    let events = vec![
        Interaction::Keydown(0x0041),
        Interaction::MousePress(0x4001),
        Interaction::Keyup(0x0041),
        Interaction::Keydown(0x0042),
    ];
    let (invocations, consumed, outcome) = dispatch_all(&reg, &events);
    match outcome {
        DispatchOutcome::Fatal(status, report) => {
            assert_eq!(status, 13);
            assert!(report.contains("scripted failure"));
        }
        DispatchOutcome::Completed => panic!("expected a fatal outcome"),
    }
    assert_eq!(consumed, 2);
    assert_eq!(
        invocations,
        vec![
            (Category::Keydown, Payload::Code(0x0041)),
            (Category::Mousepress, Payload::Code(0x4001)),
        ]
    );
    assert_eq!(
        *log.borrow(),
        vec![
            ("keydown", Payload::Code(0x0041)),
            ("mousepress", Payload::Code(0x4001)),
        ]
    );
}

#[test]
fn failing_single_dispatch_reports_category_status() {
    let log: Log = Rc::new(RefCell::new(Vec::new()));
    let reg = full_register(&log, Some(0x0041));

    let step = dispatch_one(&reg, &Interaction::Keyup(0x0041));
    match step {
        DispatchStep::Failed(payload, status, report) => {
            assert_eq!(payload, Payload::Code(0x0041));
            assert_eq!(status, 12);
            assert!(report.contains("scripted failure"));
        }
        other => panic!("expected a failed step, got {other:?}"),
    }
}

#[test]
fn exit_statuses_are_nonzero_and_distinct_per_category() {
    let all = [
        Category::Keydown,
        Category::Keyup,
        Category::Mousepress,
        Category::Mouserelease,
        Category::Mousemove,
    ];
    let statuses: Vec<i32> = all.iter().map(|c| exit_status(*c)).collect();
    assert_eq!(statuses, vec![11, 12, 13, 14, 15]);
    for (i, a) in statuses.iter().enumerate() {
        assert!(*a != 0);
        for b in statuses.iter().skip(i + 1) {
            assert!(a != b);
        }
    }
}

#[test]
fn translated_key_press_reaches_the_keydown_handler() {
    let log: Log = Rc::new(RefCell::new(Vec::new()));
    let mut reg = Register::new();
    reg.keydown = Some(Recorder {
        log: Rc::clone(&log),
        tag: "keydown",
        fail_on: None,
    });

    let code = UKey(Key::KeyA).to_int();
    let step = dispatch_one(&reg, &Interaction::Keydown(code));
    assert!(matches!(step, DispatchStep::Delivered(Payload::Code(0x0041))));
    assert_eq!(*log.borrow(), vec![("keydown", Payload::Code(0x0041))]);
}
