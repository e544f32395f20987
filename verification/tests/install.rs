use kadot::config::Config;
use kadot::error::ErrorKind;
use kadot::install::{choose_child, install, install_config, install_step, InstallState, InstallStep, LeafTarget};
use kadot::protocol::{Reply, Request};

fn names(list: &[&str]) -> Vec<String> {
    list.iter().map(|name| name.to_string()).collect()
}

fn version(info: &str, children: &[&str]) -> Config {
    Config::new("/home/me".to_string(), info.to_string(), Vec::new(), names(children))
}

/// The records of a tree in memory; `None` stands for a file that is no record.
struct Records {
    records: Vec<(Vec<String>, Option<Config>)>,
    choices: Vec<Option<usize>>,
    requests: Vec<Request>,
}

impl Records {
    fn new(records: Vec<(&[&str], Option<Config>)>) -> Records {
        Records {
            records: records.into_iter().map(|(path, record)| (names(path), record)).collect(),
            choices: Vec::new(),
            requests: Vec::new(),
        }
    }

    fn choosing(mut self, choices: &[Option<usize>]) -> Records {
        self.choices = choices.to_vec();
        self
    }

    fn install(&mut self, requested: Option<&str>, base: &[&str]) -> Result<LeafTarget, ErrorKind> {
        let mut state = install(&requested.map(|name| name.to_string()), names(base));
        loop {
            let request = state.request();
            let reply = match &request {
                Request::LoadRecord { path } => match self.records.iter().find(|(place, _)| place == path) {
                    None => Reply::Record(Err(ErrorKind::NotFound)),
                    Some((_, None)) => Reply::Record(Err(ErrorKind::Malformed)),
                    Some((_, Some(record))) => Reply::Record(Ok(record.clone())),
                },
                Request::Choose { .. } => Reply::Choice(self.choices.remove(0)),
                other => panic!("a walk asked for {:?}", other),
            };
            self.requests.push(request);
            match install_step(state, reply) {
                InstallStep::Continue(next) => state = next,
                InstallStep::Finish(result) => return result,
            }
        }
    }
}

/// root -> a (b, c); b is a leaf; c -> d; d is a leaf.
fn tree() -> Records {
    Records::new(vec![
        (&[], Some(version("root", &["a"]))),
        (&["a"], Some(version("a", &["b", "c"]))),
        (&["a", "b"], Some(version("b", &[]))),
        (&["a", "c"], Some(version("c", &["d"]))),
        (&["a", "c", "d"], Some(version("d", &[]))),
    ])
}

#[test]
fn install_starts_by_loading_the_directory() {
    let state = install(&Some("a".to_string()), names(&["x"]));
    assert_eq!(state, InstallState::LoadRecord { path: names(&["x"]), requested: Some("a".to_string()) });
    assert_eq!(state.request(), Request::LoadRecord { path: names(&["x"]) });
    let state = install(&None, names(&[]));
    assert_eq!(state, InstallState::LoadRecord { path: names(&[]), requested: None });
}

#[test]
fn install_walks_down_to_the_leaf() {
    let mut records = tree().choosing(&[Some(2), Some(1)]);
    let leaf = records.install(Some("a"), &[]).unwrap();
    assert_eq!(leaf, LeafTarget { path: names(&["a", "c", "d"]), record: version("d", &[]) });
    assert_eq!(
        records.requests,
        vec![
            Request::LoadRecord { path: names(&[]) },
            Request::LoadRecord { path: names(&["a"]) },
            Request::LoadRecord { path: names(&["a"]) },
            Request::Choose { options: names(&["b", "c"]) },
            Request::LoadRecord { path: names(&["a", "c"]) },
            Request::LoadRecord { path: names(&["a", "c"]) },
            Request::Choose { options: names(&["d"]) },
            Request::LoadRecord { path: names(&["a", "c", "d"]) },
        ]
    );
    assert!(records.choices.is_empty());
}

#[test]
fn install_of_a_named_leaf_asks_nothing() {
    let mut records = tree();
    let leaf = records.install(Some("b"), &["a"]).unwrap();
    assert_eq!(leaf, LeafTarget { path: names(&["a", "b"]), record: version("b", &[]) });
    assert_eq!(
        records.requests,
        vec![Request::LoadRecord { path: names(&["a"]) }, Request::LoadRecord { path: names(&["a", "b"]) }]
    );
}

#[test]
fn install_without_a_name_asks_at_the_first_level_too() {
    let mut records = tree().choosing(&[Some(1), Some(1)]);
    let leaf = records.install(None, &[]).unwrap();
    assert_eq!(leaf.path, names(&["a", "b"]));
    assert_eq!(leaf.record, version("b", &[]));
}

#[test]
fn install_of_an_unknown_name_reads_one_record_only() {
    let mut records = tree();
    assert_eq!(records.install(Some("zzz"), &[]), Err(ErrorKind::UnknownVersion));
    assert_eq!(records.requests, vec![Request::LoadRecord { path: names(&[]) }]);
    let mut records = tree();
    assert_eq!(records.install(Some("b"), &[]), Err(ErrorKind::UnknownVersion));
    let mut records = tree();
    assert_eq!(records.install(Some("A"), &[]), Err(ErrorKind::UnknownVersion));
}

#[test]
fn install_takes_a_name_at_the_first_level_only() {
    // Below `a` the walk asks, whatever was named.
    let mut records = tree().choosing(&[Some(1)]);
    let leaf = records.install(Some("a"), &[]).unwrap();
    assert_eq!(leaf.path, names(&["a", "b"]));
    assert!(records.requests.contains(&Request::Choose { options: names(&["b", "c"]) }));
}

#[test]
fn selection_among_three_children() {
    let record = version("three", &["x", "y", "z"]);
    assert_eq!(choose_child(&record, Some(0)), Err(ErrorKind::InvalidSelection));
    assert_eq!(choose_child(&record, Some(4)), Err(ErrorKind::InvalidSelection));
    assert_eq!(choose_child(&record, Some(2)), Ok("y".to_string()));
    assert_eq!(choose_child(&record, Some(1)), Ok("x".to_string()));
    assert_eq!(choose_child(&record, Some(3)), Ok("z".to_string()));
    assert_eq!(choose_child(&record, None), Err(ErrorKind::InvalidSelection));
    assert_eq!(choose_child(&record, Some(usize::MAX)), Err(ErrorKind::InvalidSelection));
}

#[test]
fn selection_in_a_version_without_children_is_never_valid() {
    let record = version("none", &[]);
    assert_eq!(choose_child(&record, Some(0)), Err(ErrorKind::InvalidSelection));
    assert_eq!(choose_child(&record, Some(1)), Err(ErrorKind::InvalidSelection));
}

#[test]
fn install_ends_on_a_selection_out_of_range() {
    for choice in [Some(0), Some(3), None] {
        let mut records = tree().choosing(&[choice]);
        assert_eq!(records.install(Some("a"), &[]), Err(ErrorKind::InvalidSelection));
        assert_eq!(records.requests.last(), Some(&Request::Choose { options: names(&["b", "c"]) }));
    }
}

#[test]
fn install_through_a_typed_line() {
    let mut records = tree().choosing(&[kadot::answer::selection("2\n"), kadot::answer::selection(" 1 \n")]);
    assert_eq!(records.install(Some("a"), &[]).unwrap().path, names(&["a", "c", "d"]));
    let mut records = tree().choosing(&[kadot::answer::selection("two\n")]);
    assert_eq!(records.install(Some("a"), &[]), Err(ErrorKind::InvalidSelection));
}

#[test]
fn install_where_there_is_no_record() {
    let mut records = Records::new(vec![]);
    assert_eq!(records.install(None, &[]), Err(ErrorKind::NotFound));
    assert_eq!(records.install(Some("a"), &["x"]), Err(ErrorKind::NotFound));
}

#[test]
fn install_where_the_record_is_malformed() {
    let mut records = Records::new(vec![(&[], None)]);
    assert_eq!(records.install(Some("a"), &[]), Err(ErrorKind::Malformed));
}

#[test]
fn install_reports_a_listed_child_without_record() {
    let mut records = Records::new(vec![(&[], Some(version("root", &["gone", "bad"]))), (&["bad"], None)]);
    assert_eq!(records.install(Some("gone"), &[]), Err(ErrorKind::NotFound));
    assert_eq!(records.install(Some("bad"), &[]), Err(ErrorKind::Malformed));
}

#[test]
fn install_passes_over_a_reply_of_another_kind() {
    let state = install(&None, names(&[]));
    let step = install_step(state, Reply::Choice(Some(1)));
    assert_eq!(step, InstallStep::Continue(InstallState::LoadRecord { path: names(&[]), requested: None }));
    let state = InstallState::Choose { path: names(&[]), record: version("r", &["a"]) };
    let step = install_step(state, Reply::Text("1".to_string()));
    assert_eq!(step, InstallStep::Continue(InstallState::Choose { path: names(&[]), record: version("r", &["a"]) }));
    let state = InstallState::LoadChild { path: names(&["a"]) };
    let step = install_step(state, Reply::Present(true));
    assert_eq!(step, InstallStep::Continue(InstallState::LoadChild { path: names(&["a"]) }));
}

#[test]
fn install_config_gives_the_four_lines() {
    let record = Config::new("/home/me".to_string(), "desk".to_string(), Vec::new(), Vec::new());
    assert_eq!(
        install_config(&record, "work", "/dots/a"),
        vec![
            "Installing config work".to_string(),
            "Execute the following commands:".to_string(),
            "cd /dots/a".to_string(),
            "stow -t /home/me work".to_string(),
        ]
    );
}

#[test]
fn install_config_keeps_empty_parts() {
    let record = Config::fresh(String::new(), String::new());
    assert_eq!(
        install_config(&record, "", ""),
        vec![
            "Installing config ".to_string(),
            "Execute the following commands:".to_string(),
            "cd ".to_string(),
            "stow -t  ".to_string(),
        ]
    );
}
