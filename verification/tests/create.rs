use kadot::config::{get_versions, Config};
use kadot::create::{create, create_step, CreateState, CreateStep, Outcome};
use kadot::error::ErrorKind;
use kadot::protocol::{Question, Reply, Request};

fn names(list: &[&str]) -> Vec<String> {
    list.iter().map(|name| name.to_string()).collect()
}

/// A tree in memory, with the failures and the answers that a test wants.
struct World {
    directories: Vec<Vec<String>>,
    records: Vec<(Vec<String>, Option<Config>)>,
    answers: Vec<Reply>,
    unwritable: Vec<Vec<String>>,
    can_make: bool,
    can_remove: bool,
    requests: Vec<Request>,
}

impl World {
    fn new() -> World {
        World {
            directories: Vec::new(),
            records: Vec::new(),
            answers: Vec::new(),
            unwritable: Vec::new(),
            can_make: true,
            can_remove: true,
            requests: Vec::new(),
        }
    }

    fn with_record(mut self, path: &[&str], record: Config) -> World {
        self.records.push((names(path), Some(record)));
        self
    }

    fn with_directory(mut self, path: &[&str]) -> World {
        self.directories.push(names(path));
        self
    }

    fn with_answers(mut self, answers: Vec<Reply>) -> World {
        self.answers = answers;
        self
    }

    fn record(&self, path: &[&str]) -> Option<&Config> {
        let path = names(path);
        self.records.iter().find(|(place, _)| *place == path).and_then(|(_, record)| record.as_ref())
    }

    fn has_record(&self, path: &[String]) -> bool {
        self.records.iter().any(|(place, _)| place == path)
    }

    fn perform(&mut self, request: Request) -> Reply {
        self.requests.push(request.clone_for_log());
        match request {
            Request::LoadRecord { path } => {
                match self.records.iter().find(|(place, _)| *place == path) {
                    None => Reply::Record(Err(ErrorKind::NotFound)),
                    Some((_, None)) => Reply::Record(Err(ErrorKind::Malformed)),
                    Some((_, Some(record))) => Reply::Record(Ok(record.clone())),
                }
            }
            Request::ProbeDirectory { path } => Reply::Present(self.directories.contains(&path)),
            Request::ProbeRecord { path } => Reply::Present(self.has_record(&path)),
            Request::CreateDirectory { path } => {
                if self.can_make {
                    self.directories.push(path);
                }
                Reply::Completed(self.can_make)
            }
            Request::SaveRecord { path, record } => {
                if self.unwritable.contains(&path) {
                    return Reply::Completed(false);
                }
                self.records.retain(|(place, _)| *place != path);
                self.records.push((path, Some(record)));
                Reply::Completed(true)
            }
            Request::RemoveDirectory { path } => {
                if self.can_remove {
                    self.directories.retain(|place| !place.starts_with(&path));
                    self.records.retain(|(place, _)| !place.starts_with(&path));
                }
                Reply::Completed(self.can_remove)
            }
            Request::Ask { .. } | Request::Choose { .. } => self.answers.remove(0),
        }
    }

    fn create(&mut self, name: &str, base: &[&str]) -> Result<Outcome, ErrorKind> {
        let mut state = create(name, names(base));
        loop {
            let reply = self.perform(state.request());
            match create_step(state, reply) {
                CreateStep::Continue(next) => state = next,
                CreateStep::Finish(result) => return result,
            }
        }
    }
}

trait CloneForLog {
    fn clone_for_log(&self) -> Request;
}

impl CloneForLog for Request {
    fn clone_for_log(&self) -> Request {
        match self {
            Request::LoadRecord { path } => Request::LoadRecord { path: path.clone() },
            Request::ProbeDirectory { path } => Request::ProbeDirectory { path: path.clone() },
            Request::CreateDirectory { path } => Request::CreateDirectory { path: path.clone() },
            Request::ProbeRecord { path } => Request::ProbeRecord { path: path.clone() },
            Request::Ask { question } => Request::Ask {
                question: match question {
                    Question::DefaultTarget => Question::DefaultTarget,
                    Question::SameTarget { parent_target } => Question::SameTarget { parent_target: parent_target.clone() },
                    Question::NewTarget => Question::NewTarget,
                    Question::Info => Question::Info,
                },
            },
            Request::Choose { options } => Request::Choose { options: options.clone() },
            Request::SaveRecord { path, record } => Request::SaveRecord { path: path.clone(), record: record.clone() },
            Request::RemoveDirectory { path } => Request::RemoveDirectory { path: path.clone() },
        }
    }
}

fn parent() -> Config {
    Config::new("/home/me".to_string(), "all".to_string(), names(&["*.bak"]), names(&["old"]))
}

fn yes_then(info: &str) -> Vec<Reply> {
    vec![Reply::Confirmed(true), Reply::Text(info.to_string())]
}

#[test]
fn create_starts_by_loading_the_directory() {
    let state = create("work", names(&["a"]));
    assert_eq!(state, CreateState::LoadBase { base: names(&["a"]), name: "work".to_string() });
    assert_eq!(state.request(), Request::LoadRecord { path: names(&["a"]) });
}

#[test]
fn create_makes_a_root_where_there_is_no_record() {
    let mut world = World::new().with_answers(vec![Reply::Text("/srv".to_string()), Reply::Text("root of all".to_string())]);
    assert_eq!(world.create("main", &[]), Ok(Outcome::RootCreated));
    assert_eq!(world.record(&[]), Some(&Config::fresh("/srv".to_string(), "root of all".to_string())));
    assert!(world.directories.is_empty());
    assert_eq!(
        world.requests,
        vec![
            Request::LoadRecord { path: names(&[]) },
            Request::Ask { question: Question::DefaultTarget },
            Request::Ask { question: Question::Info },
            Request::SaveRecord { path: names(&[]), record: Config::fresh("/srv".to_string(), "root of all".to_string()) },
        ]
    );
}

#[test]
fn create_reports_a_root_record_that_cannot_be_written() {
    let mut world = World::new().with_answers(vec![Reply::Text("/srv".to_string()), Reply::Text("".to_string())]);
    world.unwritable.push(names(&[]));
    assert_eq!(world.create("main", &[]), Err(ErrorKind::IOFailure));
    assert!(world.records.is_empty());
}

#[test]
fn create_reports_a_malformed_record() {
    let mut world = World::new();
    world.records.push((names(&[]), None));
    assert_eq!(world.create("work", &[]), Err(ErrorKind::Malformed));
    assert_eq!(world.requests, vec![Request::LoadRecord { path: names(&[]) }]);
}

#[test]
fn create_makes_a_sub_version_step_by_step() {
    let mut world = World::new().with_record(&[], parent()).with_answers(yes_then("laptop"));
    assert_eq!(world.create("work", &[]), Ok(Outcome::ChildCreated));
    let child = Config::fresh("/home/me".to_string(), "laptop".to_string());
    let mut listed = parent();
    kadot::config::add_version(&mut listed, "work");
    assert_eq!(
        world.requests,
        vec![
            Request::LoadRecord { path: names(&[]) },
            Request::ProbeDirectory { path: names(&["work"]) },
            Request::CreateDirectory { path: names(&["work"]) },
            Request::ProbeRecord { path: names(&["work"]) },
            Request::Ask { question: Question::SameTarget { parent_target: "/home/me".to_string() } },
            Request::Ask { question: Question::Info },
            Request::SaveRecord { path: names(&["work"]), record: child.clone() },
            Request::SaveRecord { path: names(&[]), record: listed.clone() },
        ]
    );
    assert_eq!(world.record(&["work"]), Some(&child));
    assert_eq!(world.record(&[]), Some(&listed));
    assert_eq!(get_versions(world.record(&[]).unwrap()), &names(&["old", "work"]));
    assert_eq!(world.directories, vec![names(&["work"])]);
}

#[test]
fn create_below_a_deeper_version_uses_its_place() {
    let mut world = World::new()
        .with_directory(&["a"])
        .with_record(&["a"], Config::fresh("/t".to_string(), "a".to_string()))
        .with_answers(vec![Reply::Confirmed(false), Reply::Text("/u".to_string()), Reply::Text("b".to_string())]);
    assert_eq!(world.create("b", &["a"]), Ok(Outcome::ChildCreated));
    assert_eq!(world.record(&["a", "b"]), Some(&Config::fresh("/u".to_string(), "b".to_string())));
    assert_eq!(get_versions(world.record(&["a"]).unwrap()), &names(&["b"]));
    assert!(world.directories.contains(&names(&["a", "b"])));
}

#[test]
fn create_twice_is_a_duplicate_name() {
    let mut world = World::new().with_record(&[], parent()).with_answers(yes_then("laptop"));
    assert_eq!(world.create("work", &[]), Ok(Outcome::ChildCreated));
    let after_first = get_versions(world.record(&[]).unwrap()).clone();
    let asked = world.requests.len();
    assert_eq!(world.create("work", &[]), Err(ErrorKind::DuplicateName));
    assert_eq!(get_versions(world.record(&[]).unwrap()), &after_first);
    assert_eq!(after_first, names(&["old", "work"]));
    assert!(world.record(&[]).unwrap().has_unique_children());
    // The second time only reads the parent's record.
    assert_eq!(world.requests[asked..], [Request::LoadRecord { path: names(&[]) }]);
}

#[test]
fn create_turns_down_a_listed_name_before_anything_else() {
    let mut world = World::new().with_record(&[], parent());
    assert_eq!(world.create("old", &[]), Err(ErrorKind::DuplicateName));
    assert_eq!(world.requests, vec![Request::LoadRecord { path: names(&[]) }]);
    assert!(world.directories.is_empty());
    assert_eq!(world.record(&[]), Some(&parent()));
}

#[test]
fn create_takes_the_same_name_elsewhere_in_the_tree() {
    let mut world = World::new()
        .with_record(&[], parent())
        .with_directory(&["old"])
        .with_record(&["old"], Config::fresh("/t".to_string(), "".to_string()))
        .with_answers(yes_then("again"));
    assert_eq!(world.create("old", &["old"]), Ok(Outcome::ChildCreated));
    assert_eq!(get_versions(world.record(&["old"]).unwrap()), &names(&["old"]));
}

#[test]
fn create_reports_a_directory_that_cannot_be_made() {
    let mut world = World::new().with_record(&[], parent());
    world.can_make = false;
    assert_eq!(world.create("work", &[]), Err(ErrorKind::IOFailure));
    assert_eq!(world.record(&[]), Some(&parent()));
    assert!(world.directories.is_empty());
    assert_eq!(world.requests.len(), 3);
}

#[test]
fn create_uses_a_directory_that_is_there() {
    let mut world = World::new().with_record(&[], parent()).with_directory(&["work"]).with_answers(yes_then(""));
    world.can_make = false;
    assert_eq!(world.create("work", &[]), Ok(Outcome::ChildCreated));
    assert!(!world.requests.contains(&Request::CreateDirectory { path: names(&["work"]) }));
    assert_eq!(world.directories, vec![names(&["work"])]);
}

#[test]
fn create_adopts_a_child_that_has_a_record() {
    let existing = Config::new("/x".to_string(), "kept".to_string(), names(&[]), names(&["deep"]));
    let mut world = World::new().with_record(&[], parent()).with_directory(&["work"]).with_record(&["work"], existing.clone());
    assert_eq!(world.create("work", &[]), Ok(Outcome::ChildAdopted));
    assert_eq!(world.record(&["work"]), Some(&existing));
    assert_eq!(get_versions(world.record(&[]).unwrap()), &names(&["old", "work"]));
    assert!(world.requests.iter().all(|request| !matches!(request, Request::Ask { .. })));
}

#[test]
fn create_reports_a_child_record_that_cannot_be_written() {
    let mut world = World::new().with_record(&[], parent()).with_answers(yes_then("laptop"));
    world.unwritable.push(names(&["work"]));
    assert_eq!(world.create("work", &[]), Err(ErrorKind::IOFailure));
    assert_eq!(world.record(&[]), Some(&parent()));
    assert_eq!(world.record(&["work"]), None);
}

#[test]
fn create_rolls_back_when_the_parent_cannot_be_written() {
    let mut world = World::new().with_record(&[], parent()).with_answers(yes_then("laptop"));
    world.unwritable.push(names(&[]));
    assert_eq!(world.create("work", &[]), Err(ErrorKind::PersistFailure { rollback_failed: false }));
    assert_eq!(world.requests.last(), Some(&Request::RemoveDirectory { path: names(&["work"]) }));
    assert!(world.directories.is_empty());
    assert_eq!(world.record(&["work"]), None);
    assert_eq!(world.record(&[]), Some(&parent()));
}

#[test]
fn create_reports_a_rollback_that_failed_too() {
    let mut world = World::new().with_record(&[], parent()).with_answers(yes_then("laptop"));
    world.unwritable.push(names(&[]));
    world.can_remove = false;
    assert_eq!(world.create("work", &[]), Err(ErrorKind::PersistFailure { rollback_failed: true }));
    assert_eq!(world.record(&[]), Some(&parent()));
    assert_eq!(world.directories, vec![names(&["work"])]);
}

#[test]
fn create_does_not_remove_a_directory_it_did_not_make() {
    let mut world = World::new().with_record(&[], parent()).with_directory(&["work"]).with_answers(yes_then("laptop"));
    world.unwritable.push(names(&[]));
    assert_eq!(world.create("work", &[]), Err(ErrorKind::PersistFailure { rollback_failed: false }));
    assert!(world.requests.iter().all(|request| !matches!(request, Request::RemoveDirectory { .. })));
    assert_eq!(world.directories, vec![names(&["work"])]);
    assert_eq!(world.record(&[]), Some(&parent()));
}

#[test]
fn create_writes_the_parent_last() {
    let mut world = World::new().with_record(&[], parent()).with_answers(yes_then("laptop"));
    assert_eq!(world.create("work", &[]), Ok(Outcome::ChildCreated));
    let saves: Vec<&Request> = world.requests.iter().filter(|request| matches!(request, Request::SaveRecord { .. })).collect();
    assert_eq!(saves.len(), 2);
    assert!(matches!(saves[0], Request::SaveRecord { path, .. } if *path == names(&["work"])));
    assert!(matches!(saves[1], Request::SaveRecord { path, .. } if path.is_empty()));
    assert!(matches!(world.requests.last(), Some(Request::SaveRecord { path, .. }) if path.is_empty()));
}

#[test]
fn create_passes_over_a_reply_of_another_kind() {
    let state = create("work", names(&[]));
    let step = create_step(state, Reply::Completed(true));
    assert_eq!(step, CreateStep::Continue(CreateState::LoadBase { base: names(&[]), name: "work".to_string() }));
    let CreateStep::Continue(state) = step else { unreachable!() };
    let step = create_step(state, Reply::Record(Err(ErrorKind::NotFound)));
    let CreateStep::Continue(state) = step else { panic!("ended") };
    assert_eq!(state.request(), Request::Ask { question: Question::DefaultTarget });
    let step = create_step(state, Reply::Confirmed(true));
    let CreateStep::Continue(state) = step else { panic!("ended") };
    assert_eq!(state.request(), Request::Ask { question: Question::DefaultTarget });
}

#[test]
fn create_hands_on_any_failure_to_read_but_a_missing_record() {
    for error in [ErrorKind::Malformed, ErrorKind::IOFailure, ErrorKind::InvalidSelection] {
        let state = create("work", names(&[]));
        assert_eq!(create_step(state, Reply::Record(Err(error))), CreateStep::Finish(Err(error)));
    }
}
