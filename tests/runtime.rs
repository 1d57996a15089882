use moonshine::machine::{Action, Event, Outcome, Phase};
use moonshine::message::outcome;
use moonshine::{frame, quit, Command, Effect, FramerateRenderer, Key, Message, Model, Program, Runtime, Task};
use std::sync::atomic::{AtomicU32, Ordering};
use std::sync::Arc;

#[derive(Debug, PartialEq)]
enum Tick {
    Tick,
}

struct TickTask {
    performed: Arc<AtomicU32>,
}

impl Task<Tick> for TickTask {
    fn perform(self: Box<Self>) -> Option<Message<Tick>> {
        self.performed.fetch_add(1, Ordering::SeqCst);
        Some(Message::App(Tick::Tick))
    }
}

struct Countdown {
    value: u64,
    ticks: Arc<AtomicU32>,
    updates: u32,
}

impl Countdown {
    fn tick(&self) -> Option<Command<Tick>> {
        Some(Command::Run(Box::new(TickTask { performed: self.ticks.clone() })))
    }
}

impl Model for Countdown {
    type Message = Tick;

    fn init(&self) -> Option<Command<Tick>> {
        self.tick()
    }

    fn update(&mut self, message: Message<Tick>) -> Option<Command<Tick>> {
        self.updates += 1;
        match message {
            Message::App(Tick::Tick) => {
                self.value -= 1;
                if self.value == 0 {
                    return quit();
                }
                self.tick()
            }
            _ => None,
        }
    }

    fn view(&self) -> String {
        format!("{}", self.value)
    }
}

/// Steps the loop until it idles or stops, at most `limit` times, and
/// collects the views it asked to render.
fn drive<M: Model>(rt: &mut Runtime<M>, limit: usize) -> (Vec<String>, Option<Effect>) {
    let mut views = Vec::new();
    for _ in 0..limit {
        match rt.step() {
            Effect::Render(v) => views.push(v),
            Effect::Proceed => {}
            other => return (views, Some(other)),
        }
    }
    (views, None)
}

#[test]
fn countdown_renders_six_states_and_quits() {
    let ticks = Arc::new(AtomicU32::new(0));
    let mut rt = Runtime::new(Countdown { value: 5, ticks: ticks.clone(), updates: 0 });
    let (views, end) = drive(&mut rt, 100);
    assert_eq!(views, vec!["5", "4", "3", "2", "1", "0"]);
    assert!(matches!(end, Some(Effect::Stop)));
    assert_eq!(ticks.load(Ordering::SeqCst), 5);
    assert_eq!(rt.model().updates, 5);
    assert_eq!(rt.phase(), Phase::Terminated);
    // A stopped loop stays stopped and renders nothing more.
    assert!(matches!(rt.step(), Effect::Stop));
    assert_eq!(rt.model().value, 0);
}

struct Still {
    updates: u32,
}

impl Model for Still {
    type Message = ();

    fn init(&self) -> Option<Command<()>> {
        None
    }

    fn update(&mut self, _message: Message<()>) -> Option<Command<()>> {
        self.updates += 1;
        None
    }

    fn view(&self) -> String {
        String::from("still")
    }
}

#[test]
fn model_without_commands_renders_once_then_idles() {
    let mut rt = Runtime::new(Still { updates: 0 });
    let (views, end) = drive(&mut rt, 10);
    assert_eq!(views, vec!["still"]);
    assert!(matches!(end, Some(Effect::Idle)));
    assert_eq!(rt.phase(), Phase::Idle);
    // Idle is not termination, and it does not change on further calls.
    assert!(matches!(rt.step(), Effect::Idle));
    assert!(matches!(rt.step(), Effect::Idle));
    assert_eq!(rt.model().updates, 0);
}

struct Silent;

impl Task<()> for Silent {
    fn perform(self: Box<Self>) -> Option<Message<()>> {
        None
    }
}

struct Quiet {
    updates: u32,
}

impl Model for Quiet {
    type Message = ();

    fn init(&self) -> Option<Command<()>> {
        Some(Command::Run(Box::new(Silent)))
    }

    fn update(&mut self, _message: Message<()>) -> Option<Command<()>> {
        self.updates += 1;
        None
    }

    fn view(&self) -> String {
        String::from("quiet")
    }
}

#[test]
fn command_without_message_rerenders_without_update() {
    let mut rt = Runtime::new(Quiet { updates: 0 });
    let (views, end) = drive(&mut rt, 10);
    assert_eq!(views, vec!["quiet", "quiet"]);
    assert!(matches!(end, Some(Effect::Idle)));
    assert_eq!(rt.model().updates, 0);
}

struct QuitAtOnce {
    updates: u32,
}

impl Model for QuitAtOnce {
    type Message = ();

    fn init(&self) -> Option<Command<()>> {
        quit()
    }

    fn update(&mut self, _message: Message<()>) -> Option<Command<()>> {
        self.updates += 1;
        None
    }

    fn view(&self) -> String {
        String::from("bye")
    }
}

#[test]
fn quit_from_init_stops_without_update_or_render() {
    let mut rt = Runtime::new(QuitAtOnce { updates: 0 });
    let (views, end) = drive(&mut rt, 10);
    assert_eq!(views, vec!["bye"]);
    assert!(matches!(end, Some(Effect::Stop)));
    assert_eq!(rt.model().updates, 0);
}

struct Press;

impl Task<()> for Press {
    fn perform(self: Box<Self>) -> Option<Message<()>> {
        Some(Message::KeyPress(Key))
    }
}

struct Keys {
    presses: u32,
}

impl Model for Keys {
    type Message = ();

    fn init(&self) -> Option<Command<()>> {
        Some(Command::Run(Box::new(Press)))
    }

    fn update(&mut self, message: Message<()>) -> Option<Command<()>> {
        if let Message::KeyPress(_) = message {
            self.presses += 1;
        }
        if self.presses < 2 {
            Some(Command::Run(Box::new(Press)))
        } else {
            quit()
        }
    }

    fn view(&self) -> String {
        format!("presses={}", self.presses)
    }
}

#[test]
fn keypress_is_delivered_to_update() {
    let mut rt = Runtime::new(Keys { presses: 0 });
    let (views, end) = drive(&mut rt, 10);
    assert_eq!(views, vec!["presses=0", "presses=1", "presses=2"]);
    assert!(matches!(end, Some(Effect::Stop)));
    assert_eq!(rt.model().presses, 2);
}

#[test]
fn quit_command_yields_quit() {
    let c: Command<u8> = quit().unwrap();
    assert!(matches!(c, Command::Quit));
    assert!(matches!(c.perform(), Some(Message::Quit)));
}

#[test]
fn run_command_performs_its_task() {
    let ticks = Arc::new(AtomicU32::new(0));
    let c: Command<Tick> = Command::Run(Box::new(TickTask { performed: ticks.clone() }));
    assert!(matches!(c.perform(), Some(Message::App(Tick::Tick))));
    assert_eq!(ticks.load(Ordering::SeqCst), 1);
    let s: Command<()> = Command::Run(Box::new(Silent));
    assert!(s.perform().is_none());
}

#[test]
fn outcome_classifies_messages() {
    assert_eq!(outcome::<u8>(&None), Outcome::Nothing);
    assert_eq!(outcome::<u8>(&Some(Message::Quit)), Outcome::Quit);
    assert_eq!(outcome(&Some(Message::App(3u8))), Outcome::Deliver);
    assert_eq!(outcome::<u8>(&Some(Message::KeyPress(Key))), Outcome::Deliver);
}

#[test]
fn frame_is_the_view_bytes_unchanged() {
    let view = "Hi. 5 seconds left\n\u{e9}\u{2713}\t<b>";
    let bytes = frame(view);
    assert_eq!(bytes, view.as_bytes().to_vec());
    assert_eq!(String::from_utf8(bytes).unwrap(), view);
    assert!(frame("").is_empty());
}

#[test]
fn machine_transitions() {
    let start = Phase::start();
    assert_eq!(start, Phase::Rendering { initial: true, pending: false });
    assert_eq!(start.action(), Action::Render);
    let p = start.next(Event::Rendered);
    assert_eq!(p, Phase::Initializing);
    assert_eq!(p.action(), Action::Init);
    assert_eq!(p.next(Event::Initialized(false)), Phase::Idle);
    let p = p.next(Event::Initialized(true));
    assert_eq!(p, Phase::Executing);
    assert_eq!(p.next(Event::Executed(Outcome::Quit)), Phase::Terminated);
    assert_eq!(p.next(Event::Executed(Outcome::Nothing)), Phase::Rendering { initial: false, pending: false });
    let p = p.next(Event::Executed(Outcome::Deliver));
    assert_eq!(p.action(), Action::Update);
    let p = p.next(Event::Updated(true));
    assert_eq!(p, Phase::Rendering { initial: false, pending: true });
    assert_eq!(p.next(Event::Rendered), Phase::Executing);
    assert_eq!(Phase::Rendering { initial: false, pending: false }.next(Event::Rendered), Phase::Idle);
    // An event that does not answer the awaited action changes nothing.
    assert_eq!(Phase::Executing.next(Event::Rendered), Phase::Executing);
    assert_eq!(Phase::Idle.next(Event::Updated(true)), Phase::Idle);
    assert_eq!(Phase::Terminated.next(Event::Rendered), Phase::Terminated);
    assert_eq!(Phase::Terminated.action(), Action::Stop);
    assert_eq!(Phase::Idle.action(), Action::Wait);
}

#[test]
fn program_keeps_its_parts() {
    let p = Program::with_parts(Still { updates: 0 }, 1u8, Vec::<u8>::new(), FramerateRenderer {});
    let (mut rt, input, output, _renderer) = p.into_parts();
    assert_eq!(input, 1u8);
    assert!(output.is_empty());
    assert_eq!(rt.phase(), Phase::start());
    assert!(matches!(rt.step(), Effect::Render(v) if v == "still"));
    assert_eq!(rt.phase(), Phase::Initializing);
    assert!(matches!(rt.step(), Effect::Proceed));
    assert_eq!(rt.phase(), Phase::Idle);
}

#[test]
fn steps_follow_the_phases_one_action_each() {
    let ticks = Arc::new(AtomicU32::new(0));
    let mut rt = Runtime::new(Countdown { value: 2, ticks: ticks.clone(), updates: 0 });
    assert!(matches!(rt.step(), Effect::Render(v) if v == "2"));
    assert_eq!(rt.phase(), Phase::Initializing);
    assert!(matches!(rt.step(), Effect::Proceed));
    assert_eq!(rt.phase(), Phase::Executing);
    assert_eq!(ticks.load(Ordering::SeqCst), 0);
    assert!(matches!(rt.step(), Effect::Proceed));
    assert_eq!(ticks.load(Ordering::SeqCst), 1);
    assert_eq!(rt.phase(), Phase::Dispatching);
    assert_eq!(rt.model().value, 2);
    assert!(matches!(rt.step(), Effect::Proceed));
    assert_eq!(rt.model().value, 1);
    assert_eq!(rt.model().updates, 1);
    assert_eq!(rt.phase(), Phase::Rendering { initial: false, pending: true });
    assert!(matches!(rt.step(), Effect::Render(v) if v == "1"));
    assert_eq!(rt.phase(), Phase::Executing);
}

#[test]
fn program_on_standard_streams_starts_fresh() {
    let p = Program::new(Still { updates: 0 });
    let (rt, _input, _output, _renderer) = p.into_parts();
    assert_eq!(rt.phase(), Phase::start());
    assert_eq!(rt.model().updates, 0);
}
