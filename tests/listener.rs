use runner::interface::{Runnable, Serializable};
use runner::listener::{Action, Event, GameListener, Outcome, ReloadError, Source};

#[derive(Debug, Clone, Copy, PartialEq)]
enum Shape {
    V1,
    V1Optional,
    V2,
}

#[derive(Debug, Clone, PartialEq)]
struct Plugin {
    shape: Shape,
    x: i64,
    y: i64,
}

impl Plugin {
    fn fresh(shape: Shape) -> Self {
        Plugin { shape, x: 0, y: 0 }
    }
}

impl Serializable for Plugin {
    fn serialize(&self) -> String {
        match self.shape {
            Shape::V1 => format!("{{\"x\":{}}}", self.x),
            Shape::V1Optional => format!("{{\"x\":{},\"y\":{}}}", self.x, self.y),
            Shape::V2 => format!("{{\"pos\":{}}}", self.x),
        }
    }

    fn deserialize(&mut self, data: &str) -> bool {
        let value: serde_json::Value = match serde_json::from_str(data) {
            Ok(v) => v,
            Err(_) => return false,
        };
        let field = |name: &str| value.get(name).and_then(|v| v.as_i64());
        match self.shape {
            Shape::V1 => match field("x") {
                Some(x) => {
                    self.x = x;
                    true
                }
                None => false,
            },
            Shape::V1Optional => match field("x") {
                Some(x) => {
                    self.x = x;
                    self.y = field("y").unwrap_or(0);
                    true
                }
                None => false,
            },
            Shape::V2 => match field("pos") {
                Some(pos) => {
                    self.x = pos;
                    true
                }
                None => false,
            },
        }
    }
}

impl Runnable<i64, Vec<i64>> for Plugin {
    fn update(&mut self, context: &mut i64) {
        self.x += *context;
    }

    fn render(&self, context: &mut Vec<i64>) {
        context.push(self.x);
    }
}

/// A simulated host: what the library files hold and which operations fail.
struct Host {
    canonical: Shape,
    staging: Option<Shape>,
    copy_fails: bool,
    watch_fails: bool,
    load_fails: bool,
    watched: bool,
    actions: Vec<String>,
}

impl Host {
    fn new(canonical: Shape) -> Self {
        Host {
            canonical,
            staging: None,
            copy_fails: false,
            watch_fails: false,
            load_fails: false,
            watched: false,
            actions: Vec::new(),
        }
    }

    /// Carries out actions until the listener reports that it is done.
    fn drive(&mut self, listener: &mut GameListener<Plugin>, first: Action) -> Result<Outcome, ReloadError> {
        let mut action = first;
        loop {
            self.actions.push(format!("{:?}", action));
            let event = match action {
                Action::Finished(r) => return r,
                Action::CopyToStaging => {
                    if self.copy_fails {
                        Event::Copied(Err("disk full".to_string()))
                    } else {
                        self.staging = Some(self.canonical);
                        Event::Copied(Ok(()))
                    }
                }
                Action::Watch | Action::Unwatch => {
                    if self.watch_fails {
                        Event::Watched(Err("no watch".to_string()))
                    } else {
                        self.watched = matches!(action, Action::Watch);
                        Event::Watched(Ok(()))
                    }
                }
                Action::Load(source) => {
                    let shape = match source {
                        Source::Canonical => Some(self.canonical),
                        Source::Staging => self.staging,
                    };
                    match shape {
                        Some(s) if !self.load_fails => Event::Loaded(Ok(Plugin::fresh(s))),
                        _ => Event::Loaded(Err(ReloadError::LibraryOpen("cannot open".to_string()))),
                    }
                }
            };
            action = listener.resume(event);
        }
    }
}

fn v1_with_x(x: i64) -> Plugin {
    Plugin { shape: Shape::V1, x, y: 0 }
}

fn poll_change(host: &mut Host, listener: &mut GameListener<Plugin>) -> Result<Outcome, ReloadError> {
    let first = listener.poll(true);
    host.drive(listener, first)
}

#[test]
fn scenario_added_optional_field_commits() {
    let mut listener = GameListener::new(v1_with_x(5));
    let mut host = Host::new(Shape::V1Optional);
    let r = poll_change(&mut host, &mut listener);
    assert!(matches!(r, Ok(Outcome::Committed)));
    assert_eq!(listener.as_data(), Some("{\"x\":5,\"y\":0}".to_string()));
    assert!(listener.is_idle());
}

#[test]
fn scenario_renamed_field_rejected() {
    let mut listener = GameListener::new(v1_with_x(5));
    let mut host = Host::new(Shape::V2);
    let r = poll_change(&mut host, &mut listener);
    assert!(matches!(r, Ok(Outcome::Rejected)));
    assert_eq!(listener.as_data(), Some("{\"x\":5}".to_string()));
    assert!(listener.is_idle());
}

#[test]
fn scenario_forced_commit_takes_default_state() {
    let mut listener = GameListener::new(v1_with_x(5));
    assert!(listener.compatibility_toggle());
    let mut host = Host::new(Shape::V2);
    let r = poll_change(&mut host, &mut listener);
    assert!(matches!(r, Ok(Outcome::Committed)));
    assert_eq!(listener.as_data(), Some("{\"pos\":0}".to_string()));
}

#[test]
fn poll_without_change_does_nothing() {
    let mut listener = GameListener::new(v1_with_x(3));
    assert!(matches!(listener.poll(false), Action::Finished(Ok(Outcome::NoChange))));
    assert_eq!(listener.as_data(), Some("{\"x\":3}".to_string()));
}

#[test]
fn poll_uses_staging_copy() {
    let mut listener = GameListener::new(v1_with_x(3));
    assert!(matches!(listener.poll(true), Action::CopyToStaging));
    assert!(!listener.is_idle());
    let next = listener.resume(Event::Copied(Ok(())));
    assert!(matches!(next, Action::Load(Source::Staging)));
}

#[test]
fn copy_failure_leaves_handle() {
    let mut listener = GameListener::new(v1_with_x(7));
    let mut host = Host::new(Shape::V1Optional);
    host.copy_fails = true;
    let r = poll_change(&mut host, &mut listener);
    assert!(matches!(r, Err(ReloadError::FileCopy(ref m)) if m == "disk full"));
    assert_eq!(listener.as_data(), Some("{\"x\":7}".to_string()));
    assert!(listener.is_idle());
}

#[test]
fn unloadable_candidate_is_incompatible() {
    let mut listener = GameListener::new(v1_with_x(7));
    let mut host = Host::new(Shape::V1);
    host.load_fails = true;
    let r = poll_change(&mut host, &mut listener);
    assert!(matches!(r, Ok(Outcome::Rejected)));
    assert_eq!(listener.as_data(), Some("{\"x\":7}".to_string()));
}

#[test]
fn reload_keeps_state() {
    let mut listener = GameListener::new(v1_with_x(9));
    let mut host = Host::new(Shape::V1);
    let first = listener.reload(false);
    assert!(matches!(first, Action::Load(Source::Canonical)));
    assert!(!listener.has_instance());
    let r = host.drive(&mut listener, first);
    assert!(matches!(r, Ok(Outcome::Committed)));
    assert_eq!(listener.as_data(), Some("{\"x\":9}".to_string()));
}

#[test]
fn restart_resets_state() {
    let mut listener = GameListener::new(v1_with_x(9));
    let mut host = Host::new(Shape::V1);
    let first = listener.reload(true);
    let r = host.drive(&mut listener, first);
    assert!(matches!(r, Ok(Outcome::Committed)));
    assert_eq!(listener.as_data(), Some("{\"x\":0}".to_string()));
}

#[test]
fn failed_reload_leaves_no_handle_until_restart() {
    let mut listener = GameListener::new(v1_with_x(9));
    let mut host = Host::new(Shape::V1);
    host.load_fails = true;
    let first = listener.reload(false);
    let r = host.drive(&mut listener, first);
    assert!(matches!(r, Err(ReloadError::LibraryOpen(_))));
    assert!(!listener.has_instance());
    assert!(listener.as_data().is_none());
    assert!(matches!(listener.poll(true), Action::Finished(Ok(Outcome::Rejected))));
    host.load_fails = false;
    let first = listener.reload(true);
    let r = host.drive(&mut listener, first);
    assert!(matches!(r, Ok(Outcome::Committed)));
    assert!(listener.has_instance());
}

#[test]
fn reload_while_watching_unwatches_and_rearms() {
    let mut listener = GameListener::new(v1_with_x(2));
    assert!(listener.watch_toggle());
    let mut host = Host::new(Shape::V1);
    host.watched = true;
    let first = listener.reload(false);
    assert!(matches!(first, Action::Unwatch));
    let r = host.drive(&mut listener, first);
    assert!(matches!(r, Ok(Outcome::Committed)));
    assert!(host.watched);
    assert_eq!(host.actions, vec!["Unwatch", "Load(Canonical)", "Watch", "Finished(Ok(Committed))"]);
    assert_eq!(listener.as_data(), Some("{\"x\":2}".to_string()));
}

#[test]
fn unwatch_failure_keeps_handle() {
    let mut listener = GameListener::new(v1_with_x(2));
    listener.watch_toggle();
    let mut host = Host::new(Shape::V1);
    host.watch_fails = true;
    let first = listener.reload(true);
    let r = host.drive(&mut listener, first);
    assert!(matches!(r, Err(ReloadError::FileWatch(ref m)) if m == "no watch"));
    assert_eq!(listener.as_data(), Some("{\"x\":2}".to_string()));
}

#[test]
fn load_errors_pass_through() {
    let mut listener = GameListener::new(v1_with_x(2));
    let first = listener.reload(true);
    assert!(matches!(first, Action::Load(Source::Canonical)));
    let r = listener.resume(Event::Loaded(Err(ReloadError::SymbolResolution("game".to_string()))));
    assert!(matches!(r, Action::Finished(Err(ReloadError::SymbolResolution(ref m))) if m == "game"));
    let first = listener.reload(true);
    assert!(matches!(first, Action::Load(Source::Canonical)));
    let r = listener.resume(Event::Loaded(Err(ReloadError::Construction("empty".to_string()))));
    assert!(matches!(r, Action::Finished(Err(ReloadError::Construction(_)))));
}

#[test]
fn unexpected_event_repeats_request() {
    let mut listener = GameListener::new(v1_with_x(4));
    listener.poll(true);
    let again = listener.resume(Event::Watched(Ok(())));
    assert!(matches!(again, Action::CopyToStaging));
    assert!(matches!(listener.resume(Event::Copied(Ok(()))), Action::Load(Source::Staging)));
}

#[test]
fn toggles_twice_restore_flags() {
    let mut listener = GameListener::new(v1_with_x(1));
    assert!(listener.watch_toggle());
    assert!(!listener.watch_toggle());
    assert!(listener.pause_toggle());
    assert!(!listener.pause_toggle());
    assert!(listener.compatibility_toggle());
    assert!(!listener.compatibility_toggle());
    assert!(!listener.is_watching());
    assert!(!listener.is_paused());
    assert!(!listener.is_compatibility_forced());
}

#[test]
fn forwards_update_and_render() {
    let mut listener = GameListener::new(v1_with_x(1));
    let mut step: i64 = 4;
    Runnable::<i64, Vec<i64>>::update(&mut listener, &mut step);
    listener.pause_toggle();
    Runnable::<i64, Vec<i64>>::update(&mut listener, &mut step);
    let mut frame: Vec<i64> = Vec::new();
    Runnable::<i64, Vec<i64>>::render(&listener, &mut frame);
    assert_eq!(frame, vec![9]);
}

#[test]
fn sequence_keeps_one_handle() {
    let mut listener = GameListener::new(v1_with_x(1));
    let mut host = Host::new(Shape::V1Optional);
    assert!(poll_change(&mut host, &mut listener).is_ok());
    assert!(listener.has_instance());
    host.canonical = Shape::V2;
    assert!(poll_change(&mut host, &mut listener).is_ok());
    assert!(listener.has_instance());
    let first = listener.reload(true);
    assert!(host.drive(&mut listener, first).is_ok());
    assert!(listener.has_instance());
    assert_eq!(listener.as_data(), Some("{\"pos\":0}".to_string()));
}

#[test]
fn conclude_check_rejects_when_incompatible() {
    let mut listener = GameListener::new(v1_with_x(6));
    listener.poll(true);
    assert!(matches!(listener.resume(Event::Copied(Ok(()))), Action::Load(Source::Staging)));
    let r = listener.conclude_check(false);
    assert!(matches!(r, Action::Finished(Ok(Outcome::Rejected))));
    assert!(listener.is_idle());
    assert_eq!(listener.as_data(), Some("{\"x\":6}".to_string()));
}

#[test]
fn conclude_check_swaps_when_compatible() {
    let mut listener = GameListener::new(v1_with_x(6));
    listener.poll(true);
    listener.resume(Event::Copied(Ok(())));
    let r = listener.conclude_check(true);
    assert!(matches!(r, Action::Load(Source::Staging)));
    assert!(!listener.has_instance());
    let r = listener.resume(Event::Loaded(Ok(Plugin::fresh(Shape::V1Optional))));
    assert!(matches!(r, Action::Finished(Ok(Outcome::Committed))));
    assert_eq!(listener.as_data(), Some("{\"x\":6,\"y\":0}".to_string()));
}

#[test]
fn forced_compatibility_skips_candidate() {
    let mut listener = GameListener::new(v1_with_x(6));
    listener.compatibility_toggle();
    listener.watch_toggle();
    listener.poll(true);
    let r = listener.resume(Event::Copied(Ok(())));
    assert!(matches!(r, Action::Unwatch));
}

#[test]
fn failed_restart_keeps_old_handle() {
    let mut listener = GameListener::new(v1_with_x(8));
    let mut host = Host::new(Shape::V1);
    host.load_fails = true;
    let first = listener.reload(true);
    assert!(matches!(first, Action::Load(Source::Canonical)));
    assert!(listener.has_instance());
    let r = host.drive(&mut listener, first);
    assert!(matches!(r, Err(ReloadError::LibraryOpen(_))));
    assert!(listener.is_idle());
    assert_eq!(listener.as_data(), Some("{\"x\":8}".to_string()));
}
