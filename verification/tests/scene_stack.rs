//! Scene-stack lifecycle behaviour: ordering of enter/exit callbacks,
//! active-scene dispatch, and bottom-to-top rendering.

use oxide::scene::Scene;
use oxide::scene::SceneStack;
use oxide::Event;
use std::cell::RefCell;
use std::rc::Rc;

type Log = Rc<RefCell<Vec<String>>>;

struct TestScene {
    name: &'static str,
    log: Log,
}

impl TestScene {
    fn new(name: &'static str, log: &Log) -> TestScene {
        TestScene { name, log: Rc::clone(log) }
    }

    fn record(&self, what: &str) {
        self.log.borrow_mut().push(format!("{} {}", what, self.name));
    }
}

impl Scene for TestScene {
    type Surface = Vec<String>;

    fn on_enter(&mut self) {
        self.record("enter");
    }

    fn on_exit(&mut self) {
        self.record("exit");
    }

    fn on_update(&mut self, dt_micros: u64) {
        self.log.borrow_mut().push(format!("update {} {}", self.name, dt_micros));
    }

    fn on_event(&mut self, event: &Event) {
        let key = match event {
            Event::KeyDown { keycode: Some(k) } => format!("keydown {}", k),
            Event::KeyDown { keycode: None } => "keydown unnamed".to_string(),
            Event::KeyUp { keycode: Some(k) } => format!("keyup {}", k),
            Event::KeyUp { keycode: None } => "keyup unnamed".to_string(),
            Event::Quit => "quit".to_string(),
            Event::Other => "other".to_string(),
        };
        self.log.borrow_mut().push(format!("event {} {}", self.name, key));
    }

    fn on_render(&mut self, surface: &mut Vec<String>) {
        surface.push(self.name.to_string());
    }
}

fn new_log() -> Log {
    Rc::new(RefCell::new(Vec::new()))
}

#[test]
fn push_on_empty_calls_enter_only() {
    let log = new_log();
    let mut stack = SceneStack::new();
    stack.push_scene(TestScene::new("menu", &log));
    assert_eq!(*log.borrow(), vec!["enter menu".to_string()]);
    assert_eq!(stack.len(), 1);
    assert!(!stack.is_empty());
}

#[test]
fn push_on_nonempty_exits_prior_top_before_entering_new() {
    let log = new_log();
    let mut stack = SceneStack::new();
    stack.push_scene(TestScene::new("menu", &log));
    log.borrow_mut().clear();
    stack.push_scene(TestScene::new("game", &log));
    assert_eq!(*log.borrow(), vec!["exit menu".to_string(), "enter game".to_string()]);
}

#[test]
fn pop_empty_returns_none_and_invokes_no_callbacks() {
    let log = new_log();
    let mut stack: SceneStack<TestScene> = SceneStack::new();
    let removed = stack.pop_scene();
    assert!(removed.is_none());
    assert!(log.borrow().is_empty());
    assert!(stack.is_empty());
    assert_eq!(stack.len(), 0);
}

#[test]
fn pop_exits_removed_top_then_enters_exposed_top() {
    let log = new_log();
    let mut stack = SceneStack::new();
    stack.push_scene(TestScene::new("menu", &log));
    stack.push_scene(TestScene::new("game", &log));
    log.borrow_mut().clear();
    let removed = stack.pop_scene();
    assert_eq!(*log.borrow(), vec!["exit game".to_string(), "enter menu".to_string()]);
    assert_eq!(removed.map(|s| s.name), Some("game"));
    assert_eq!(stack.len(), 1);
}

#[test]
fn menu_game_scenario() {
    let log = new_log();
    let mut stack = SceneStack::new();

    stack.push_scene(TestScene::new("main_menu", &log));
    assert_eq!(*log.borrow(), vec!["enter main_menu".to_string()]);

    stack.push_scene(TestScene::new("game_scene", &log));
    assert_eq!(
        *log.borrow(),
        vec![
            "enter main_menu".to_string(),
            "exit main_menu".to_string(),
            "enter game_scene".to_string(),
        ]
    );

    let removed = stack.pop_scene();
    assert_eq!(
        *log.borrow(),
        vec![
            "enter main_menu".to_string(),
            "exit main_menu".to_string(),
            "enter game_scene".to_string(),
            "exit game_scene".to_string(),
            "enter main_menu".to_string(),
        ]
    );
    assert_eq!(removed.map(|s| s.name), Some("game_scene"));
    assert_eq!(stack.len(), 1);

    // the exposed top is active again: update goes to main_menu only
    log.borrow_mut().clear();
    stack.update(16_000);
    assert_eq!(*log.borrow(), vec!["update main_menu 16000".to_string()]);
}

#[test]
fn update_reaches_only_the_top_scene() {
    let log = new_log();
    let mut stack = SceneStack::new();
    stack.push_scene(TestScene::new("a", &log));
    stack.push_scene(TestScene::new("b", &log));
    stack.push_scene(TestScene::new("c", &log));
    log.borrow_mut().clear();
    stack.update(7);
    assert_eq!(*log.borrow(), vec!["update c 7".to_string()]);
}

#[test]
fn update_on_empty_stack_is_a_no_op() {
    let log = new_log();
    let mut stack: SceneStack<TestScene> = SceneStack::new();
    stack.update(7);
    assert!(log.borrow().is_empty());
}

#[test]
fn event_reaches_only_the_top_scene() {
    let log = new_log();
    let mut stack = SceneStack::new();
    stack.push_scene(TestScene::new("a", &log));
    stack.push_scene(TestScene::new("b", &log));
    log.borrow_mut().clear();
    stack.handle_event(&Event::KeyDown { keycode: Some(3) });
    assert_eq!(*log.borrow(), vec!["event b keydown 3".to_string()]);
    log.borrow_mut().clear();
    stack.handle_event(&Event::Other);
    assert_eq!(*log.borrow(), vec!["event b other".to_string()]);
}

#[test]
fn render_visits_every_scene_bottom_to_top() {
    let log = new_log();
    let mut stack = SceneStack::new();
    stack.push_scene(TestScene::new("a", &log));
    stack.push_scene(TestScene::new("b", &log));
    stack.push_scene(TestScene::new("c", &log));
    let mut surface: Vec<String> = Vec::new();
    stack.render(&mut surface);
    assert_eq!(surface, vec!["a".to_string(), "b".to_string(), "c".to_string()]);
}

#[test]
fn default_stack_is_empty() {
    let stack: SceneStack<TestScene> = Default::default();
    assert!(stack.is_empty());
}
